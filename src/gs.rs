use vstd::prelude::*;
use crate::color::{GS};
use crate::def::{
    channel_max, compact, exact_channel, expand, expand_channel, field_of, in_bounds,
    lemma_channel, lemma_field_independent, lemma_field_round_trip, read_field, with_field,
    write_field, ColorFmt, ColorGet, ColorSet, ConstDefault,
};

verus! {

/// 1-bit grayscale color
#[derive(Debug, Clone, Copy, PartialEq, Eq, Default)]
pub struct GS1;

impl ConstDefault for GS1 {
    const DEFAULT: Self = GS1;
}

impl ColorFmt for GS1 {
    type ColorType = GS;

    open spec fn bits(&self) -> nat {
        1
    }

    proof fn lemma_bits(&self) {
    }

    fn color_bits(&self) -> (b: usize) {
        1
    }

    fn num_colors(&self, buffer: &[u8]) -> (n: usize) {
        buffer.len() * 8
    }
}

impl ColorGet for GS1 {
    open spec fn readable(&self, buffer: Seq<u8>, index: int) -> bool {
        in_bounds(buffer.len(), 1, index)
    }

    open spec fn decode(&self, buffer: Seq<u8>, index: int) -> GS {
        GS { v: expand(field_of(buffer, index, 1), 1) }
    }

    fn get_color(&self, buffer: &[u8], index: usize) -> (c: GS) {
        GS { v: expand_channel(read_field(buffer, index, 1), 1) }
    }
}

impl ColorSet for GS1 {
    open spec fn writable(&self, len: nat, index: int) -> bool {
        in_bounds(len, 1, index)
    }

    open spec fn encode(&self, buffer: Seq<u8>, index: int, color: GS) -> Seq<u8> {
        with_field(buffer, index, 1, compact(color.v, 1))
    }

    open spec fn exact(&self, color: GS) -> bool {
        exact_channel(color.v, 1)
    }

    fn set_color(&self, buffer: &mut [u8], index: usize, color: GS) {
        write_field(buffer, index, 1, color.v >> 7);
    }

    proof fn lemma_writable(&self, buffer: Seq<u8>, index: int, color: GS) {
        lemma_field_round_trip(buffer, index, 1, compact(color.v, 1));
    }

    proof fn lemma_round_trip(&self, buffer: Seq<u8>, index: int, color: GS) {
        lemma_field_round_trip(buffer, index, 1, compact(color.v, 1));
        lemma_channel(color.v, 1);
    }

    proof fn lemma_independent(
        &self,
        buffer: Seq<u8>,
        index: int,
        other: int,
        color: GS,
    ) {
        lemma_field_round_trip(buffer, index, 1, compact(color.v, 1));
        lemma_field_independent(buffer, index, other, 1, compact(color.v, 1));
    }
}

/// 2-bit grayscale color
#[derive(Debug, Clone, Copy, PartialEq, Eq, Default)]
pub struct GS2;

impl ConstDefault for GS2 {
    const DEFAULT: Self = GS2;
}

impl ColorFmt for GS2 {
    type ColorType = GS;

    open spec fn bits(&self) -> nat {
        2
    }

    proof fn lemma_bits(&self) {
    }

    fn color_bits(&self) -> (b: usize) {
        2
    }

    fn num_colors(&self, buffer: &[u8]) -> (n: usize) {
        buffer.len() * 4
    }
}

impl ColorGet for GS2 {
    open spec fn readable(&self, buffer: Seq<u8>, index: int) -> bool {
        in_bounds(buffer.len(), 2, index)
    }

    open spec fn decode(&self, buffer: Seq<u8>, index: int) -> GS {
        GS { v: expand(field_of(buffer, index, 2), 2) }
    }

    fn get_color(&self, buffer: &[u8], index: usize) -> (c: GS) {
        GS { v: expand_channel(read_field(buffer, index, 2), 2) }
    }
}

impl ColorSet for GS2 {
    open spec fn writable(&self, len: nat, index: int) -> bool {
        in_bounds(len, 2, index)
    }

    open spec fn encode(&self, buffer: Seq<u8>, index: int, color: GS) -> Seq<u8> {
        with_field(buffer, index, 2, compact(color.v, 2))
    }

    open spec fn exact(&self, color: GS) -> bool {
        exact_channel(color.v, 2)
    }

    fn set_color(&self, buffer: &mut [u8], index: usize, color: GS) {
        write_field(buffer, index, 2, color.v >> 6);
    }

    proof fn lemma_writable(&self, buffer: Seq<u8>, index: int, color: GS) {
        lemma_field_round_trip(buffer, index, 2, compact(color.v, 2));
    }

    proof fn lemma_round_trip(&self, buffer: Seq<u8>, index: int, color: GS) {
        lemma_field_round_trip(buffer, index, 2, compact(color.v, 2));
        lemma_channel(color.v, 2);
    }

    proof fn lemma_independent(
        &self,
        buffer: Seq<u8>,
        index: int,
        other: int,
        color: GS,
    ) {
        lemma_field_round_trip(buffer, index, 2, compact(color.v, 2));
        lemma_field_independent(buffer, index, other, 2, compact(color.v, 2));
    }
}

/// 4-bit grayscale color
#[derive(Debug, Clone, Copy, PartialEq, Eq, Default)]
pub struct GS4;

impl ConstDefault for GS4 {
    const DEFAULT: Self = GS4;
}

impl ColorFmt for GS4 {
    type ColorType = GS;

    open spec fn bits(&self) -> nat {
        4
    }

    proof fn lemma_bits(&self) {
    }

    fn color_bits(&self) -> (b: usize) {
        4
    }

    fn num_colors(&self, buffer: &[u8]) -> (n: usize) {
        buffer.len() * 2
    }
}

impl ColorGet for GS4 {
    open spec fn readable(&self, buffer: Seq<u8>, index: int) -> bool {
        in_bounds(buffer.len(), 4, index)
    }

    open spec fn decode(&self, buffer: Seq<u8>, index: int) -> GS {
        GS { v: expand(field_of(buffer, index, 4), 4) }
    }

    fn get_color(&self, buffer: &[u8], index: usize) -> (c: GS) {
        GS { v: expand_channel(read_field(buffer, index, 4), 4) }
    }
}

impl ColorSet for GS4 {
    open spec fn writable(&self, len: nat, index: int) -> bool {
        in_bounds(len, 4, index)
    }

    open spec fn encode(&self, buffer: Seq<u8>, index: int, color: GS) -> Seq<u8> {
        with_field(buffer, index, 4, compact(color.v, 4))
    }

    open spec fn exact(&self, color: GS) -> bool {
        exact_channel(color.v, 4)
    }

    fn set_color(&self, buffer: &mut [u8], index: usize, color: GS) {
        write_field(buffer, index, 4, color.v >> 4);
    }

    proof fn lemma_writable(&self, buffer: Seq<u8>, index: int, color: GS) {
        lemma_field_round_trip(buffer, index, 4, compact(color.v, 4));
    }

    proof fn lemma_round_trip(&self, buffer: Seq<u8>, index: int, color: GS) {
        lemma_field_round_trip(buffer, index, 4, compact(color.v, 4));
        lemma_channel(color.v, 4);
    }

    proof fn lemma_independent(
        &self,
        buffer: Seq<u8>,
        index: int,
        other: int,
        color: GS,
    ) {
        lemma_field_round_trip(buffer, index, 4, compact(color.v, 4));
        lemma_field_independent(buffer, index, other, 4, compact(color.v, 4));
    }
}

/// 8-bit grayscale color
#[derive(Debug, Clone, Copy, PartialEq, Eq, Default)]
pub struct GS8;

impl ConstDefault for GS8 {
    const DEFAULT: Self = GS8;
}

impl ColorFmt for GS8 {
    type ColorType = GS;

    open spec fn bits(&self) -> nat {
        8
    }

    proof fn lemma_bits(&self) {
    }

    fn color_bits(&self) -> (b: usize) {
        8
    }

    fn num_colors(&self, buffer: &[u8]) -> (n: usize) {
        buffer.len()
    }
}

impl ColorGet for GS8 {
    open spec fn readable(&self, buffer: Seq<u8>, index: int) -> bool {
        in_bounds(buffer.len(), 8, index)
    }

    open spec fn decode(&self, buffer: Seq<u8>, index: int) -> GS {
        GS { v: buffer[index] }
    }

    fn get_color(&self, buffer: &[u8], index: usize) -> (c: GS) {
        GS { v: buffer[index] }
    }
}

impl ColorSet for GS8 {
    open spec fn writable(&self, len: nat, index: int) -> bool {
        in_bounds(len, 8, index)
    }

    open spec fn encode(&self, buffer: Seq<u8>, index: int, color: GS) -> Seq<u8> {
        buffer.update(index, color.v)
    }

    open spec fn exact(&self, color: GS) -> bool {
        true
    }

    fn set_color(&self, buffer: &mut [u8], index: usize, color: GS) {
        buffer[index] = color.v;
    }

    proof fn lemma_writable(&self, buffer: Seq<u8>, index: int, color: GS) {
        
    }

    proof fn lemma_round_trip(&self, buffer: Seq<u8>, index: int, color: GS) {
        
    }

    proof fn lemma_independent(
        &self,
        buffer: Seq<u8>,
        index: int,
        other: int,
        color: GS,
    ) {
        
    }
}

} // verus!
