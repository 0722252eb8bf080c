use vstd::prelude::*;
use crate::color::GSA;
use crate::def::{
    bits_at, compact, exact_channel, expand, expand_channel, field_of, in_bounds, lemma_channel,
    lemma_field_independent, lemma_field_round_trip, lemma_pack2, pack2, read_field, take_bits,
    with_field, write_field, ColorFmt, ColorGet, ColorSet, ConstDefault,
};

verus! {

/// 1-bit grayscale color with 1-bit alpha channel
#[derive(Debug, Clone, Copy, PartialEq, Eq, Default)]
pub struct GSA11;

impl ConstDefault for GSA11 {
    const DEFAULT: Self = GSA11;
}

impl ColorFmt for GSA11 {
    type ColorType = GSA;

    open spec fn bits(&self) -> nat {
        2
    }

    proof fn lemma_bits(&self) {
    }

    fn color_bits(&self) -> (b: usize) {
        2
    }

    fn num_colors(&self, buffer: &[u8]) -> (n: usize) {
        buffer.len() * 4
    }
}

impl ColorGet for GSA11 {
    open spec fn readable(&self, buffer: Seq<u8>, index: int) -> bool {
        in_bounds(buffer.len(), 2, index)
    }

    open spec fn decode(&self, buffer: Seq<u8>, index: int) -> GSA {
        GSA {
            v: expand(bits_at(field_of(buffer, index, 2), 1, 1), 1),
            a: expand(bits_at(field_of(buffer, index, 2), 0, 1), 1),
        }
    }

    fn get_color(&self, buffer: &[u8], index: usize) -> (c: GSA) {
        let f = read_field(buffer, index, 2);
        GSA {
            v: expand_channel(take_bits(f, 1, 1), 1),
            a: expand_channel(take_bits(f, 0, 1), 1),
        }
    }
}

impl ColorSet for GSA11 {
    open spec fn writable(&self, len: nat, index: int) -> bool {
        in_bounds(len, 2, index)
    }

    open spec fn encode(&self, buffer: Seq<u8>, index: int, color: GSA) -> Seq<u8> {
        with_field(buffer, index, 2, pack2(compact(color.v, 1), compact(color.a, 1), 1))
    }

    open spec fn exact(&self, color: GSA) -> bool {
        exact_channel(color.v, 1) && exact_channel(color.a, 1)
    }

    fn set_color(&self, buffer: &mut [u8], index: usize, color: GSA) {
        write_field(buffer, index, 2, ((color.v >> 7) << 1) | (color.a >> 7));
    }

    proof fn lemma_writable(&self, buffer: Seq<u8>, index: int, color: GSA) {
        lemma_field_round_trip(buffer, index, 2, pack2(compact(color.v, 1), compact(color.a, 1), 1));
    }

    proof fn lemma_round_trip(&self, buffer: Seq<u8>, index: int, color: GSA) {
        lemma_channel(color.v, 1);
        lemma_channel(color.a, 1);
        lemma_pack2(compact(color.v, 1), compact(color.a, 1), 1, 1);
        lemma_field_round_trip(buffer, index, 2, pack2(compact(color.v, 1), compact(color.a, 1), 1));
    }

    proof fn lemma_independent(
        &self,
        buffer: Seq<u8>,
        index: int,
        other: int,
        color: GSA,
    ) {
        lemma_field_round_trip(buffer, index, 2, pack2(compact(color.v, 1), compact(color.a, 1), 1));
        lemma_field_independent(buffer, index, other, 2, pack2(compact(color.v, 1), compact(color.a, 1), 1));
    }
}

/// 2-bit grayscale color with 2-bit alpha channel
#[derive(Debug, Clone, Copy, PartialEq, Eq, Default)]
pub struct GSA22;

impl ConstDefault for GSA22 {
    const DEFAULT: Self = GSA22;
}

impl ColorFmt for GSA22 {
    type ColorType = GSA;

    open spec fn bits(&self) -> nat {
        4
    }

    proof fn lemma_bits(&self) {
    }

    fn color_bits(&self) -> (b: usize) {
        4
    }

    fn num_colors(&self, buffer: &[u8]) -> (n: usize) {
        buffer.len() * 2
    }
}

impl ColorGet for GSA22 {
    open spec fn readable(&self, buffer: Seq<u8>, index: int) -> bool {
        in_bounds(buffer.len(), 4, index)
    }

    open spec fn decode(&self, buffer: Seq<u8>, index: int) -> GSA {
        GSA {
            v: expand(bits_at(field_of(buffer, index, 4), 2, 2), 2),
            a: expand(bits_at(field_of(buffer, index, 4), 0, 2), 2),
        }
    }

    fn get_color(&self, buffer: &[u8], index: usize) -> (c: GSA) {
        let f = read_field(buffer, index, 4);
        GSA {
            v: expand_channel(take_bits(f, 2, 2), 2),
            a: expand_channel(take_bits(f, 0, 2), 2),
        }
    }
}

impl ColorSet for GSA22 {
    open spec fn writable(&self, len: nat, index: int) -> bool {
        in_bounds(len, 4, index)
    }

    open spec fn encode(&self, buffer: Seq<u8>, index: int, color: GSA) -> Seq<u8> {
        with_field(buffer, index, 4, pack2(compact(color.v, 2), compact(color.a, 2), 2))
    }

    open spec fn exact(&self, color: GSA) -> bool {
        exact_channel(color.v, 2) && exact_channel(color.a, 2)
    }

    fn set_color(&self, buffer: &mut [u8], index: usize, color: GSA) {
        write_field(buffer, index, 4, ((color.v >> 6) << 2) | (color.a >> 6));
    }

    proof fn lemma_writable(&self, buffer: Seq<u8>, index: int, color: GSA) {
        lemma_field_round_trip(buffer, index, 4, pack2(compact(color.v, 2), compact(color.a, 2), 2));
    }

    proof fn lemma_round_trip(&self, buffer: Seq<u8>, index: int, color: GSA) {
        lemma_channel(color.v, 2);
        lemma_channel(color.a, 2);
        lemma_pack2(compact(color.v, 2), compact(color.a, 2), 2, 2);
        lemma_field_round_trip(buffer, index, 4, pack2(compact(color.v, 2), compact(color.a, 2), 2));
    }

    proof fn lemma_independent(
        &self,
        buffer: Seq<u8>,
        index: int,
        other: int,
        color: GSA,
    ) {
        lemma_field_round_trip(buffer, index, 4, pack2(compact(color.v, 2), compact(color.a, 2), 2));
        lemma_field_independent(buffer, index, other, 4, pack2(compact(color.v, 2), compact(color.a, 2), 2));
    }
}

/// 3-bit grayscale color with 1-bit alpha channel
#[derive(Debug, Clone, Copy, PartialEq, Eq, Default)]
pub struct GSA31;

impl ConstDefault for GSA31 {
    const DEFAULT: Self = GSA31;
}

impl ColorFmt for GSA31 {
    type ColorType = GSA;

    open spec fn bits(&self) -> nat {
        4
    }

    proof fn lemma_bits(&self) {
    }

    fn color_bits(&self) -> (b: usize) {
        4
    }

    fn num_colors(&self, buffer: &[u8]) -> (n: usize) {
        buffer.len() * 2
    }
}

impl ColorGet for GSA31 {
    open spec fn readable(&self, buffer: Seq<u8>, index: int) -> bool {
        in_bounds(buffer.len(), 4, index)
    }

    open spec fn decode(&self, buffer: Seq<u8>, index: int) -> GSA {
        GSA {
            v: expand(bits_at(field_of(buffer, index, 4), 1, 3), 3),
            a: expand(bits_at(field_of(buffer, index, 4), 0, 1), 1),
        }
    }

    fn get_color(&self, buffer: &[u8], index: usize) -> (c: GSA) {
        let f = read_field(buffer, index, 4);
        GSA {
            v: expand_channel(take_bits(f, 1, 3), 3),
            a: expand_channel(take_bits(f, 0, 1), 1),
        }
    }
}

impl ColorSet for GSA31 {
    open spec fn writable(&self, len: nat, index: int) -> bool {
        in_bounds(len, 4, index)
    }

    open spec fn encode(&self, buffer: Seq<u8>, index: int, color: GSA) -> Seq<u8> {
        with_field(buffer, index, 4, pack2(compact(color.v, 3), compact(color.a, 1), 1))
    }

    open spec fn exact(&self, color: GSA) -> bool {
        exact_channel(color.v, 3) && exact_channel(color.a, 1)
    }

    fn set_color(&self, buffer: &mut [u8], index: usize, color: GSA) {
        write_field(buffer, index, 4, ((color.v >> 5) << 1) | (color.a >> 7));
    }

    proof fn lemma_writable(&self, buffer: Seq<u8>, index: int, color: GSA) {
        lemma_field_round_trip(buffer, index, 4, pack2(compact(color.v, 3), compact(color.a, 1), 1));
    }

    proof fn lemma_round_trip(&self, buffer: Seq<u8>, index: int, color: GSA) {
        lemma_channel(color.v, 3);
        lemma_channel(color.a, 1);
        lemma_pack2(compact(color.v, 3), compact(color.a, 1), 3, 1);
        lemma_field_round_trip(buffer, index, 4, pack2(compact(color.v, 3), compact(color.a, 1), 1));
    }

    proof fn lemma_independent(
        &self,
        buffer: Seq<u8>,
        index: int,
        other: int,
        color: GSA,
    ) {
        lemma_field_round_trip(buffer, index, 4, pack2(compact(color.v, 3), compact(color.a, 1), 1));
        lemma_field_independent(buffer, index, other, 4, pack2(compact(color.v, 3), compact(color.a, 1), 1));
    }
}

/// 4-bit grayscale color with 4-bit alpha channel
#[derive(Debug, Clone, Copy, PartialEq, Eq, Default)]
pub struct GSA44;

impl ConstDefault for GSA44 {
    const DEFAULT: Self = GSA44;
}

impl ColorFmt for GSA44 {
    type ColorType = GSA;

    open spec fn bits(&self) -> nat {
        8
    }

    proof fn lemma_bits(&self) {
    }

    fn color_bits(&self) -> (b: usize) {
        8
    }

    fn num_colors(&self, buffer: &[u8]) -> (n: usize) {
        buffer.len()
    }
}

impl ColorGet for GSA44 {
    open spec fn readable(&self, buffer: Seq<u8>, index: int) -> bool {
        in_bounds(buffer.len(), 8, index)
    }

    open spec fn decode(&self, buffer: Seq<u8>, index: int) -> GSA {
        GSA {
            v: expand(bits_at(buffer[index], 4, 4), 4),
            a: expand(bits_at(buffer[index], 0, 4), 4),
        }
    }

    fn get_color(&self, buffer: &[u8], index: usize) -> (c: GSA) {
        let f = buffer[index];
        GSA {
            v: expand_channel(take_bits(f, 4, 4), 4),
            a: expand_channel(take_bits(f, 0, 4), 4),
        }
    }
}

impl ColorSet for GSA44 {
    open spec fn writable(&self, len: nat, index: int) -> bool {
        in_bounds(len, 8, index)
    }

    open spec fn encode(&self, buffer: Seq<u8>, index: int, color: GSA) -> Seq<u8> {
        buffer.update(index, pack2(compact(color.v, 4), compact(color.a, 4), 4))
    }

    open spec fn exact(&self, color: GSA) -> bool {
        exact_channel(color.v, 4) && exact_channel(color.a, 4)
    }

    fn set_color(&self, buffer: &mut [u8], index: usize, color: GSA) {
        buffer[index] = ((color.v >> 4) << 4) | (color.a >> 4);
    }

    proof fn lemma_writable(&self, buffer: Seq<u8>, index: int, color: GSA) {
        
    }

    proof fn lemma_round_trip(&self, buffer: Seq<u8>, index: int, color: GSA) {
        lemma_channel(color.v, 4);
        lemma_channel(color.a, 4);
        lemma_pack2(compact(color.v, 4), compact(color.a, 4), 4, 4);
    }

    proof fn lemma_independent(
        &self,
        buffer: Seq<u8>,
        index: int,
        other: int,
        color: GSA,
    ) {
        
    }
}

/// 7-bit grayscale color with 1-bit alpha channel
#[derive(Debug, Clone, Copy, PartialEq, Eq, Default)]
pub struct GSA71;

impl ConstDefault for GSA71 {
    const DEFAULT: Self = GSA71;
}

impl ColorFmt for GSA71 {
    type ColorType = GSA;

    open spec fn bits(&self) -> nat {
        8
    }

    proof fn lemma_bits(&self) {
    }

    fn color_bits(&self) -> (b: usize) {
        8
    }

    fn num_colors(&self, buffer: &[u8]) -> (n: usize) {
        buffer.len()
    }
}

impl ColorGet for GSA71 {
    open spec fn readable(&self, buffer: Seq<u8>, index: int) -> bool {
        in_bounds(buffer.len(), 8, index)
    }

    open spec fn decode(&self, buffer: Seq<u8>, index: int) -> GSA {
        GSA {
            v: expand(bits_at(buffer[index], 1, 7), 7),
            a: expand(bits_at(buffer[index], 0, 1), 1),
        }
    }

    fn get_color(&self, buffer: &[u8], index: usize) -> (c: GSA) {
        let f = buffer[index];
        GSA {
            v: expand_channel(take_bits(f, 1, 7), 7),
            a: expand_channel(take_bits(f, 0, 1), 1),
        }
    }
}

impl ColorSet for GSA71 {
    open spec fn writable(&self, len: nat, index: int) -> bool {
        in_bounds(len, 8, index)
    }

    open spec fn encode(&self, buffer: Seq<u8>, index: int, color: GSA) -> Seq<u8> {
        buffer.update(index, pack2(compact(color.v, 7), compact(color.a, 1), 1))
    }

    open spec fn exact(&self, color: GSA) -> bool {
        exact_channel(color.v, 7) && exact_channel(color.a, 1)
    }

    fn set_color(&self, buffer: &mut [u8], index: usize, color: GSA) {
        buffer[index] = ((color.v >> 1) << 1) | (color.a >> 7);
    }

    proof fn lemma_writable(&self, buffer: Seq<u8>, index: int, color: GSA) {
        
    }

    proof fn lemma_round_trip(&self, buffer: Seq<u8>, index: int, color: GSA) {
        lemma_channel(color.v, 7);
        lemma_channel(color.a, 1);
        lemma_pack2(compact(color.v, 7), compact(color.a, 1), 7, 1);
    }

    proof fn lemma_independent(
        &self,
        buffer: Seq<u8>,
        index: int,
        other: int,
        color: GSA,
    ) {
        
    }
}

/// 8-bit grayscale color with 8-bit alpha channel
#[derive(Debug, Clone, Copy, PartialEq, Eq, Default)]
pub struct GSA88;

impl ConstDefault for GSA88 {
    const DEFAULT: Self = GSA88;
}

impl ColorFmt for GSA88 {
    type ColorType = GSA;

    open spec fn bits(&self) -> nat {
        16
    }

    proof fn lemma_bits(&self) {
    }

    fn color_bits(&self) -> (b: usize) {
        16
    }

    fn num_colors(&self, buffer: &[u8]) -> (n: usize) {
        buffer.len() / 2
    }
}

impl ColorGet for GSA88 {
    open spec fn readable(&self, buffer: Seq<u8>, index: int) -> bool {
        in_bounds(buffer.len(), 16, index)
    }

    open spec fn decode(&self, buffer: Seq<u8>, index: int) -> GSA {
        GSA { v: buffer[2 * index], a: buffer[2 * index + 1] }
    }

    fn get_color(&self, buffer: &[u8], index: usize) -> (c: GSA) {
        GSA { v: buffer[2 * index], a: buffer[2 * index + 1] }
    }
}

impl ColorSet for GSA88 {
    open spec fn writable(&self, len: nat, index: int) -> bool {
        in_bounds(len, 16, index)
    }

    open spec fn encode(&self, buffer: Seq<u8>, index: int, color: GSA) -> Seq<u8> {
        buffer.update(2 * index, color.v).update(2 * index + 1, color.a)
    }

    open spec fn exact(&self, color: GSA) -> bool {
        true
    }

    fn set_color(&self, buffer: &mut [u8], index: usize, color: GSA) {
        buffer[2 * index] = color.v;
        buffer[2 * index + 1] = color.a;
    }

    proof fn lemma_writable(&self, buffer: Seq<u8>, index: int, color: GSA) {
        
    }

    proof fn lemma_round_trip(&self, buffer: Seq<u8>, index: int, color: GSA) {
        
    }

    proof fn lemma_independent(
        &self,
        buffer: Seq<u8>,
        index: int,
        other: int,
        color: GSA,
    ) {
        
    }
}

} // verus!
