use vstd::prelude::*;
use crate::def::{
    channel_max, compact, exact_channel, expand, expand_channel, field_of, in_bounds,
    lemma_channel, lemma_field_independent, lemma_field_round_trip, read_field, with_field,
    write_field, ColorFmt, ColorGet, ColorSet, ConstDefault,
};

verus! {

/// 1-bit raw value
#[derive(Debug, Clone, Copy, PartialEq, Eq, Default)]
pub struct RAW1;

impl ConstDefault for RAW1 {
    const DEFAULT: Self = RAW1;
}

impl ColorFmt for RAW1 {
    type ColorType = u8;

    open spec fn bits(&self) -> nat {
        1
    }

    proof fn lemma_bits(&self) {
    }

    fn color_bits(&self) -> (b: usize) {
        1
    }

    fn num_colors(&self, buffer: &[u8]) -> (n: usize) {
        buffer.len() * 8
    }
}

impl ColorGet for RAW1 {
    open spec fn readable(&self, buffer: Seq<u8>, index: int) -> bool {
        in_bounds(buffer.len(), 1, index)
    }

    open spec fn decode(&self, buffer: Seq<u8>, index: int) -> u8 {
        expand(field_of(buffer, index, 1), 1)
    }

    fn get_color(&self, buffer: &[u8], index: usize) -> (c: u8) {
        expand_channel(read_field(buffer, index, 1), 1)
    }
}

impl ColorSet for RAW1 {
    open spec fn writable(&self, len: nat, index: int) -> bool {
        in_bounds(len, 1, index)
    }

    open spec fn encode(&self, buffer: Seq<u8>, index: int, color: u8) -> Seq<u8> {
        with_field(buffer, index, 1, if color > 0 { 1u8 } else { 0u8 })
    }

    open spec fn exact(&self, color: u8) -> bool {
        color == 0 || color == 255
    }

    fn set_color(&self, buffer: &mut [u8], index: usize, color: u8) {
        write_field(buffer, index, 1, if color > 0 { 1 } else { 0 });
    }

    proof fn lemma_writable(&self, buffer: Seq<u8>, index: int, color: u8) {
        lemma_field_round_trip(buffer, index, 1, if color > 0 { 1u8 } else { 0u8 });
    }

    proof fn lemma_round_trip(&self, buffer: Seq<u8>, index: int, color: u8) {
        lemma_field_round_trip(buffer, index, 1, if color > 0 { 1u8 } else { 0u8 });
        lemma_channel(1, 1);
        lemma_channel(0, 1);
    }

    proof fn lemma_independent(
        &self,
        buffer: Seq<u8>,
        index: int,
        other: int,
        color: u8,
    ) {
        lemma_field_round_trip(buffer, index, 1, if color > 0 { 1u8 } else { 0u8 });
        lemma_field_independent(buffer, index, other, 1, if color > 0 { 1u8 } else { 0u8 });
    }
}

/// 2-bit raw value
#[derive(Debug, Clone, Copy, PartialEq, Eq, Default)]
pub struct RAW2;

impl ConstDefault for RAW2 {
    const DEFAULT: Self = RAW2;
}

impl ColorFmt for RAW2 {
    type ColorType = u8;

    open spec fn bits(&self) -> nat {
        2
    }

    proof fn lemma_bits(&self) {
    }

    fn color_bits(&self) -> (b: usize) {
        2
    }

    fn num_colors(&self, buffer: &[u8]) -> (n: usize) {
        buffer.len() * 4
    }
}

impl ColorGet for RAW2 {
    open spec fn readable(&self, buffer: Seq<u8>, index: int) -> bool {
        in_bounds(buffer.len(), 2, index)
    }

    open spec fn decode(&self, buffer: Seq<u8>, index: int) -> u8 {
        field_of(buffer, index, 2)
    }

    fn get_color(&self, buffer: &[u8], index: usize) -> (c: u8) {
        read_field(buffer, index, 2)
    }
}

impl ColorSet for RAW2 {
    open spec fn writable(&self, len: nat, index: int) -> bool {
        in_bounds(len, 2, index)
    }

    open spec fn encode(&self, buffer: Seq<u8>, index: int, color: u8) -> Seq<u8> {
        with_field(buffer, index, 2, color)
    }

    open spec fn exact(&self, color: u8) -> bool {
        color <= channel_max(2)
    }

    fn set_color(&self, buffer: &mut [u8], index: usize, color: u8) {
        write_field(buffer, index, 2, color);
    }

    proof fn lemma_writable(&self, buffer: Seq<u8>, index: int, color: u8) {
        lemma_field_round_trip(buffer, index, 2, color);
    }

    proof fn lemma_round_trip(&self, buffer: Seq<u8>, index: int, color: u8) {
        lemma_field_round_trip(buffer, index, 2, color);
        lemma_channel(color, 2);
    }

    proof fn lemma_independent(
        &self,
        buffer: Seq<u8>,
        index: int,
        other: int,
        color: u8,
    ) {
        lemma_field_round_trip(buffer, index, 2, color);
        lemma_field_independent(buffer, index, other, 2, color);
    }
}

/// 4-bit raw value
#[derive(Debug, Clone, Copy, PartialEq, Eq, Default)]
pub struct RAW4;

impl ConstDefault for RAW4 {
    const DEFAULT: Self = RAW4;
}

impl ColorFmt for RAW4 {
    type ColorType = u8;

    open spec fn bits(&self) -> nat {
        4
    }

    proof fn lemma_bits(&self) {
    }

    fn color_bits(&self) -> (b: usize) {
        4
    }

    fn num_colors(&self, buffer: &[u8]) -> (n: usize) {
        buffer.len() * 2
    }
}

impl ColorGet for RAW4 {
    open spec fn readable(&self, buffer: Seq<u8>, index: int) -> bool {
        in_bounds(buffer.len(), 4, index)
    }

    open spec fn decode(&self, buffer: Seq<u8>, index: int) -> u8 {
        field_of(buffer, index, 4)
    }

    fn get_color(&self, buffer: &[u8], index: usize) -> (c: u8) {
        read_field(buffer, index, 4)
    }
}

impl ColorSet for RAW4 {
    open spec fn writable(&self, len: nat, index: int) -> bool {
        in_bounds(len, 4, index)
    }

    open spec fn encode(&self, buffer: Seq<u8>, index: int, color: u8) -> Seq<u8> {
        with_field(buffer, index, 4, color)
    }

    open spec fn exact(&self, color: u8) -> bool {
        color <= channel_max(4)
    }

    fn set_color(&self, buffer: &mut [u8], index: usize, color: u8) {
        write_field(buffer, index, 4, color);
    }

    proof fn lemma_writable(&self, buffer: Seq<u8>, index: int, color: u8) {
        lemma_field_round_trip(buffer, index, 4, color);
    }

    proof fn lemma_round_trip(&self, buffer: Seq<u8>, index: int, color: u8) {
        lemma_field_round_trip(buffer, index, 4, color);
        lemma_channel(color, 4);
    }

    proof fn lemma_independent(
        &self,
        buffer: Seq<u8>,
        index: int,
        other: int,
        color: u8,
    ) {
        lemma_field_round_trip(buffer, index, 4, color);
        lemma_field_independent(buffer, index, other, 4, color);
    }
}

/// 8-bit raw value
#[derive(Debug, Clone, Copy, PartialEq, Eq, Default)]
pub struct RAW8;

impl ConstDefault for RAW8 {
    const DEFAULT: Self = RAW8;
}

impl ColorFmt for RAW8 {
    type ColorType = u8;

    open spec fn bits(&self) -> nat {
        8
    }

    proof fn lemma_bits(&self) {
    }

    fn color_bits(&self) -> (b: usize) {
        8
    }

    fn num_colors(&self, buffer: &[u8]) -> (n: usize) {
        buffer.len()
    }
}

impl ColorGet for RAW8 {
    open spec fn readable(&self, buffer: Seq<u8>, index: int) -> bool {
        in_bounds(buffer.len(), 8, index)
    }

    open spec fn decode(&self, buffer: Seq<u8>, index: int) -> u8 {
        buffer[index]
    }

    fn get_color(&self, buffer: &[u8], index: usize) -> (c: u8) {
        buffer[index]
    }
}

impl ColorSet for RAW8 {
    open spec fn writable(&self, len: nat, index: int) -> bool {
        in_bounds(len, 8, index)
    }

    open spec fn encode(&self, buffer: Seq<u8>, index: int, color: u8) -> Seq<u8> {
        buffer.update(index, color)
    }

    open spec fn exact(&self, color: u8) -> bool {
        true
    }

    fn set_color(&self, buffer: &mut [u8], index: usize, color: u8) {
        buffer[index] = color;
    }

    proof fn lemma_writable(&self, buffer: Seq<u8>, index: int, color: u8) {
        
    }

    proof fn lemma_round_trip(&self, buffer: Seq<u8>, index: int, color: u8) {
        
    }

    proof fn lemma_independent(
        &self,
        buffer: Seq<u8>,
        index: int,
        other: int,
        color: u8,
    ) {
        
    }
}

} // verus!
