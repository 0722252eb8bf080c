use vstd::prelude::*;
use crate::color::{BW};
use crate::def::{
    channel_max, compact, exact_channel, expand, expand_channel, field_of, in_bounds,
    lemma_channel, lemma_field_independent, lemma_field_round_trip, read_field, with_field,
    write_field, ColorFmt, ColorGet, ColorSet, ConstDefault,
};

verus! {

/// 1-bit black/white color format
#[derive(Debug, Clone, Copy, PartialEq, Eq, Default)]
pub struct BW1;

impl ConstDefault for BW1 {
    const DEFAULT: Self = BW1;
}

impl ColorFmt for BW1 {
    type ColorType = BW;

    open spec fn bits(&self) -> nat {
        1
    }

    proof fn lemma_bits(&self) {
    }

    fn color_bits(&self) -> (b: usize) {
        1
    }

    fn num_colors(&self, buffer: &[u8]) -> (n: usize) {
        buffer.len() * 8
    }
}

impl ColorGet for BW1 {
    open spec fn readable(&self, buffer: Seq<u8>, index: int) -> bool {
        in_bounds(buffer.len(), 1, index)
    }

    open spec fn decode(&self, buffer: Seq<u8>, index: int) -> BW {
        BW { v: field_of(buffer, index, 1) != 0 }
    }

    fn get_color(&self, buffer: &[u8], index: usize) -> (c: BW) {
        BW { v: read_field(buffer, index, 1) != 0 }
    }
}

impl ColorSet for BW1 {
    open spec fn writable(&self, len: nat, index: int) -> bool {
        in_bounds(len, 1, index)
    }

    open spec fn encode(&self, buffer: Seq<u8>, index: int, color: BW) -> Seq<u8> {
        with_field(buffer, index, 1, if color.v { 1u8 } else { 0u8 })
    }

    open spec fn exact(&self, color: BW) -> bool {
        true
    }

    fn set_color(&self, buffer: &mut [u8], index: usize, color: BW) {
        write_field(buffer, index, 1, if color.v { 1 } else { 0 });
    }

    proof fn lemma_writable(&self, buffer: Seq<u8>, index: int, color: BW) {
        lemma_field_round_trip(buffer, index, 1, if color.v { 1u8 } else { 0u8 });
    }

    proof fn lemma_round_trip(&self, buffer: Seq<u8>, index: int, color: BW) {
        lemma_field_round_trip(buffer, index, 1, if color.v { 1u8 } else { 0u8 });
        lemma_channel(1, 1);
        lemma_channel(0, 1);
    }

    proof fn lemma_independent(
        &self,
        buffer: Seq<u8>,
        index: int,
        other: int,
        color: BW,
    ) {
        lemma_field_round_trip(buffer, index, 1, if color.v { 1u8 } else { 0u8 });
        lemma_field_independent(buffer, index, other, 1, if color.v { 1u8 } else { 0u8 });
    }
}

} // verus!
