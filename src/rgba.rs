use vstd::prelude::*;
use crate::color::RGBA;
use crate::def::{
    bits_at, compact, exact_channel, expand, expand_channel, in_bounds, lemma_channel,
    lemma_pack2, pack2, take_bits, ColorFmt, ColorGet, ColorSet, ConstDefault,
};

verus! {

/// The first byte of an RGBA5551 color: `RRRRRGGG`.
pub open spec fn rgba5551_high(r: u8, g: u8) -> u8 {
    ((compact(r, 5) << 3u8) as u8) | (compact(g, 5) >> 2u8)
}

/// The second byte of an RGBA5551 color: `GGBBBBBA`.
pub open spec fn rgba5551_low(g: u8, b: u8, a: u8) -> u8 {
    (((compact(g, 5) & 3) << 6u8) as u8) | ((compact(b, 5) << 1u8) as u8) | compact(a, 1)
}

proof fn lemma_rgba5551(r: u8, g: u8, b: u8, a: u8)
    by (bit_vector)
    ensures
        bits_at(rgba5551_high(r, g), 3, 5) == compact(r, 5),
        pack2(bits_at(rgba5551_high(r, g), 0, 3), bits_at(rgba5551_low(g, b, a), 6, 2), 2)
            == compact(g, 5),
        bits_at(rgba5551_low(g, b, a), 1, 5) == compact(b, 5),
        bits_at(rgba5551_low(g, b, a), 0, 1) == compact(a, 1),
{
}

/// RGBA with 4-bits per component
///
/// Single color per each two bytes:
///
/// `0bRRRRGGGG 0bBBBBAAAA`
#[derive(Debug, Clone, Copy, PartialEq, Eq, Default)]
pub struct RGBA4444;

impl ConstDefault for RGBA4444 {
    const DEFAULT: Self = RGBA4444;
}

impl ColorFmt for RGBA4444 {
    type ColorType = RGBA;

    open spec fn bits(&self) -> nat {
        16
    }

    proof fn lemma_bits(&self) {
    }

    fn color_bits(&self) -> (b: usize) {
        16
    }

    fn num_colors(&self, buffer: &[u8]) -> (n: usize) {
        buffer.len() / 2
    }
}

impl ColorGet for RGBA4444 {
    open spec fn readable(&self, buffer: Seq<u8>, index: int) -> bool {
        in_bounds(buffer.len(), 16, index)
    }

    open spec fn decode(&self, buffer: Seq<u8>, index: int) -> RGBA {
        let b0 = buffer[2 * index];
        let b1 = buffer[2 * index + 1];
        // (MSB) rrrrgggg bbbbaaaa
        RGBA {
            r: expand(bits_at(b0, 4, 4), 4),
            g: expand(bits_at(b0, 0, 4), 4),
            b: expand(bits_at(b1, 4, 4), 4),
            a: expand(bits_at(b1, 0, 4), 4),
        }
    }

    fn get_color(&self, buffer: &[u8], index: usize) -> (c: RGBA) {
        let i = index * 2;
        let b0 = buffer[i];
        let b1 = buffer[i + 1];
        RGBA {
            r: expand_channel(take_bits(b0, 4, 4), 4),
            g: expand_channel(take_bits(b0, 0, 4), 4),
            b: expand_channel(take_bits(b1, 4, 4), 4),
            a: expand_channel(take_bits(b1, 0, 4), 4),
        }
    }
}

impl ColorSet for RGBA4444 {
    open spec fn writable(&self, len: nat, index: int) -> bool {
        in_bounds(len, 16, index)
    }

    open spec fn encode(&self, buffer: Seq<u8>, index: int, color: RGBA) -> Seq<u8> {
        buffer.update(2 * index, pack2(compact(color.r, 4), compact(color.g, 4), 4)).update(
            2 * index + 1,
            pack2(compact(color.b, 4), compact(color.a, 4), 4),
        )
    }

    open spec fn exact(&self, color: RGBA) -> bool {
        exact_channel(color.r, 4) && exact_channel(color.g, 4) && exact_channel(color.b, 4)
            && exact_channel(color.a, 4)
    }

    fn set_color(&self, buffer: &mut [u8], index: usize, color: RGBA) {
        let i = index * 2;
        // (MSB) rrrrgggg bbbbaaaa
        buffer[i] = ((color.r >> 4) << 4) | (color.g >> 4);
        buffer[i + 1] = ((color.b >> 4) << 4) | (color.a >> 4);
    }

    proof fn lemma_writable(&self, buffer: Seq<u8>, index: int, color: RGBA) {
        
    }

    proof fn lemma_round_trip(&self, buffer: Seq<u8>, index: int, color: RGBA) {
        lemma_channel(color.r, 4);
        lemma_channel(color.g, 4);
        lemma_channel(color.b, 4);
        lemma_channel(color.a, 4);
        lemma_pack2(compact(color.r, 4), compact(color.g, 4), 4, 4);
        lemma_pack2(compact(color.b, 4), compact(color.a, 4), 4, 4);
    }

    proof fn lemma_independent(
        &self,
        buffer: Seq<u8>,
        index: int,
        other: int,
        color: RGBA,
    ) {
        
    }
}

/// RGBA with 5-bits per color component and 1-bit for alpha
///
/// Single color per each two bytes:
///
/// `0bRRRRRGGG 0bGGBBBBBA`
#[derive(Debug, Clone, Copy, PartialEq, Eq, Default)]
pub struct RGBA5551;

impl ConstDefault for RGBA5551 {
    const DEFAULT: Self = RGBA5551;
}

impl ColorFmt for RGBA5551 {
    type ColorType = RGBA;

    open spec fn bits(&self) -> nat {
        16
    }

    proof fn lemma_bits(&self) {
    }

    fn color_bits(&self) -> (b: usize) {
        16
    }

    fn num_colors(&self, buffer: &[u8]) -> (n: usize) {
        buffer.len() / 2
    }
}

impl ColorGet for RGBA5551 {
    open spec fn readable(&self, buffer: Seq<u8>, index: int) -> bool {
        in_bounds(buffer.len(), 16, index)
    }

    open spec fn decode(&self, buffer: Seq<u8>, index: int) -> RGBA {
        let b0 = buffer[2 * index];
        let b1 = buffer[2 * index + 1];
        // (MSB) rrrrrggg ggbbbbba
        RGBA {
            r: expand(bits_at(b0, 3, 5), 5),
            g: expand(pack2(bits_at(b0, 0, 3), bits_at(b1, 6, 2), 2), 5),
            b: expand(bits_at(b1, 1, 5), 5),
            a: expand(bits_at(b1, 0, 1), 1),
        }
    }

    fn get_color(&self, buffer: &[u8], index: usize) -> (c: RGBA) {
        let i = index * 2;
        let b0 = buffer[i];
        let b1 = buffer[i + 1];
        let (g_hi, g_lo) = (take_bits(b0, 0, 3), take_bits(b1, 6, 2));
        proof {
            lemma_pack2(g_hi, g_lo, 3, 2);
        }
        RGBA {
            r: expand_channel(take_bits(b0, 3, 5), 5),
            g: expand_channel((g_hi << 2) | g_lo, 5),
            b: expand_channel(take_bits(b1, 1, 5), 5),
            a: expand_channel(take_bits(b1, 0, 1), 1),
        }
    }
}

impl ColorSet for RGBA5551 {
    open spec fn writable(&self, len: nat, index: int) -> bool {
        in_bounds(len, 16, index)
    }

    open spec fn encode(&self, buffer: Seq<u8>, index: int, color: RGBA) -> Seq<u8> {
        buffer.update(2 * index, rgba5551_high(color.r, color.g)).update(
            2 * index + 1,
            rgba5551_low(color.g, color.b, color.a),
        )
    }

    open spec fn exact(&self, color: RGBA) -> bool {
        exact_channel(color.r, 5) && exact_channel(color.g, 5) && exact_channel(color.b, 5)
            && exact_channel(color.a, 1)
    }

    fn set_color(&self, buffer: &mut [u8], index: usize, color: RGBA) {
        let i = index * 2;
        let g = color.g >> 3;
        // (MSB) rrrrrggg ggbbbbba
        buffer[i] = ((color.r >> 3) << 3) | (g >> 2);
        buffer[i + 1] = ((g & 3) << 6) | ((color.b >> 3) << 1) | (color.a >> 7);
    }

    proof fn lemma_writable(&self, buffer: Seq<u8>, index: int, color: RGBA) {
        
    }

    proof fn lemma_round_trip(&self, buffer: Seq<u8>, index: int, color: RGBA) {
        lemma_rgba5551(color.r, color.g, color.b, color.a);
    }

    proof fn lemma_independent(
        &self,
        buffer: Seq<u8>,
        index: int,
        other: int,
        color: RGBA,
    ) {
        
    }
}

/// RGBA with 8-bits per component
///
/// Single color per each four bytes:
///
/// `0bRRRRRRRR 0bGGGGGGGG 0bBBBBBBBB 0bAAAAAAAA`
#[derive(Debug, Clone, Copy, PartialEq, Eq, Default)]
pub struct RGBA8888;

impl ConstDefault for RGBA8888 {
    const DEFAULT: Self = RGBA8888;
}

impl ColorFmt for RGBA8888 {
    type ColorType = RGBA;

    open spec fn bits(&self) -> nat {
        32
    }

    proof fn lemma_bits(&self) {
    }

    fn color_bits(&self) -> (b: usize) {
        32
    }

    fn num_colors(&self, buffer: &[u8]) -> (n: usize) {
        buffer.len() / 4
    }
}

impl ColorGet for RGBA8888 {
    open spec fn readable(&self, buffer: Seq<u8>, index: int) -> bool {
        in_bounds(buffer.len(), 32, index)
    }

    open spec fn decode(&self, buffer: Seq<u8>, index: int) -> RGBA {
        RGBA {
            r: buffer[4 * index],
            g: buffer[4 * index + 1],
            b: buffer[4 * index + 2],
            a: buffer[4 * index + 3],
        }
    }

    fn get_color(&self, buffer: &[u8], index: usize) -> (c: RGBA) {
        let i = index * 4;
        RGBA { r: buffer[i], g: buffer[i + 1], b: buffer[i + 2], a: buffer[i + 3] }
    }
}

impl ColorSet for RGBA8888 {
    open spec fn writable(&self, len: nat, index: int) -> bool {
        in_bounds(len, 32, index)
    }

    open spec fn encode(&self, buffer: Seq<u8>, index: int, color: RGBA) -> Seq<u8> {
        buffer.update(4 * index, color.r).update(4 * index + 1, color.g).update(
            4 * index + 2,
            color.b,
        ).update(4 * index + 3, color.a)
    }

    open spec fn exact(&self, color: RGBA) -> bool {
        true
    }

    fn set_color(&self, buffer: &mut [u8], index: usize, color: RGBA) {
        let i = index * 4;
        buffer[i] = color.r;
        buffer[i + 1] = color.g;
        buffer[i + 2] = color.b;
        buffer[i + 3] = color.a;
    }

    proof fn lemma_writable(&self, buffer: Seq<u8>, index: int, color: RGBA) {
        
    }

    proof fn lemma_round_trip(&self, buffer: Seq<u8>, index: int, color: RGBA) {
        
    }

    proof fn lemma_independent(
        &self,
        buffer: Seq<u8>,
        index: int,
        other: int,
        color: RGBA,
    ) {
        
    }
}

} // verus!
