use vstd::prelude::*;
use crate::color::RGB;
use crate::def::{
    bits_at, compact, exact_channel, expand, expand_channel, in_bounds, lemma_channel,
    lemma_pack2, pack2, take_bits, ColorFmt, ColorGet, ColorSet, ConstDefault,
};

verus! {

/// The byte of an RGB332 color: `RRRGGGBB`.
pub open spec fn rgb332_byte(r: u8, g: u8, b: u8) -> u8 {
    ((compact(r, 3) << 5u8) as u8) | ((compact(g, 3) << 2u8) as u8) | compact(b, 2)
}

proof fn lemma_rgb332(r: u8, g: u8, b: u8)
    by (bit_vector)
    ensures
        bits_at(rgb332_byte(r, g, b), 5, 3) == compact(r, 3),
        bits_at(rgb332_byte(r, g, b), 2, 3) == compact(g, 3),
        bits_at(rgb332_byte(r, g, b), 0, 2) == compact(b, 2),
{
}

/// `byte` with its high nibble replaced by `x`.
pub open spec fn with_high(byte: u8, x: u8) -> u8 {
    (byte & 15) | ((x << 4u8) as u8)
}

/// `byte` with its low nibble replaced by `x`.
pub open spec fn with_low(byte: u8, x: u8) -> u8 {
    (byte & 240) | x
}

proof fn lemma_nibbles(byte: u8, x: u8)
    by (bit_vector)
    requires
        x <= 15,
    ensures
        bits_at(with_high(byte, x), 4, 4) == x,
        bits_at(with_high(byte, x), 0, 4) == bits_at(byte, 0, 4),
        bits_at(with_low(byte, x), 0, 4) == x,
        bits_at(with_low(byte, x), 4, 4) == bits_at(byte, 4, 4),
{
}

/// First byte of the pair of bytes that holds RGB444 color `index`; two
/// colors share three bytes.
pub open spec fn rgb444_at(index: int) -> int {
    3 * (index / 2) + index % 2
}

/// The first byte of an RGB565 color: `RRRRRGGG`.
pub open spec fn rgb565_high(r: u8, g: u8) -> u8 {
    ((compact(r, 5) << 3u8) as u8) | (compact(g, 6) >> 3u8)
}

/// The second byte of an RGB565 color: `GGGBBBBB`.
pub open spec fn rgb565_low(g: u8, b: u8) -> u8 {
    (((compact(g, 6) & 7) << 5u8) as u8) | compact(b, 5)
}

proof fn lemma_rgb565(r: u8, g: u8, b: u8)
    by (bit_vector)
    ensures
        bits_at(rgb565_high(r, g), 3, 5) == compact(r, 5),
        pack2(bits_at(rgb565_high(r, g), 0, 3), bits_at(rgb565_low(g, b), 5, 3), 3) == compact(g, 6),
        bits_at(rgb565_low(g, b), 0, 5) == compact(b, 5),
{
}

/// RGB with 3 bits for red and green components and 2 bits for blue component
///
/// Single color per byte:
///
/// `0bRRRGGGBB ...`
#[derive(Debug, Clone, Copy, PartialEq, Eq, Default)]
pub struct RGB332;

impl ConstDefault for RGB332 {
    const DEFAULT: Self = RGB332;
}

impl ColorFmt for RGB332 {
    type ColorType = RGB;

    open spec fn bits(&self) -> nat {
        8
    }

    proof fn lemma_bits(&self) {
    }

    fn color_bits(&self) -> (b: usize) {
        8
    }

    fn num_colors(&self, buffer: &[u8]) -> (n: usize) {
        buffer.len()
    }
}

impl ColorGet for RGB332 {
    open spec fn readable(&self, buffer: Seq<u8>, index: int) -> bool {
        in_bounds(buffer.len(), 8, index)
    }

    open spec fn decode(&self, buffer: Seq<u8>, index: int) -> RGB {
        RGB {
            r: expand(bits_at(buffer[index], 5, 3), 3),
            g: expand(bits_at(buffer[index], 2, 3), 3),
            b: expand(bits_at(buffer[index], 0, 2), 2),
        }
    }

    fn get_color(&self, buffer: &[u8], index: usize) -> (c: RGB) {
        let byte = buffer[index];
        RGB {
            r: expand_channel(take_bits(byte, 5, 3), 3),
            g: expand_channel(take_bits(byte, 2, 3), 3),
            b: expand_channel(take_bits(byte, 0, 2), 2),
        }
    }
}

impl ColorSet for RGB332 {
    open spec fn writable(&self, len: nat, index: int) -> bool {
        in_bounds(len, 8, index)
    }

    open spec fn encode(&self, buffer: Seq<u8>, index: int, color: RGB) -> Seq<u8> {
        buffer.update(index, rgb332_byte(color.r, color.g, color.b))
    }

    open spec fn exact(&self, color: RGB) -> bool {
        exact_channel(color.r, 3) && exact_channel(color.g, 3) && exact_channel(color.b, 2)
    }

    fn set_color(&self, buffer: &mut [u8], index: usize, color: RGB) {
        buffer[index] = ((color.r >> 5) << 5) | ((color.g >> 5) << 2) | (color.b >> 6);
    }

    proof fn lemma_writable(&self, buffer: Seq<u8>, index: int, color: RGB) {
        
    }

    proof fn lemma_round_trip(&self, buffer: Seq<u8>, index: int, color: RGB) {
        lemma_rgb332(color.r, color.g, color.b);
    }

    proof fn lemma_independent(
        &self,
        buffer: Seq<u8>,
        index: int,
        other: int,
        color: RGB,
    ) {
        
    }
}

/// RGB with 4 bits per component
///
/// Two colors per three bytes:
///
/// `0bRRRRGGGG 0bBBBBRRRR 0bGGGGBBBB ...`
#[derive(Debug, Clone, Copy, PartialEq, Eq, Default)]
pub struct RGB444;

impl ConstDefault for RGB444 {
    const DEFAULT: Self = RGB444;
}

impl ColorFmt for RGB444 {
    type ColorType = RGB;

    open spec fn bits(&self) -> nat {
        12
    }

    proof fn lemma_bits(&self) {
    }

    fn color_bits(&self) -> (b: usize) {
        12
    }

    fn num_colors(&self, buffer: &[u8]) -> (n: usize) {
        buffer.len() * 2 / 3
    }
}

impl ColorGet for RGB444 {
    open spec fn readable(&self, buffer: Seq<u8>, index: int) -> bool {
        in_bounds(buffer.len(), 12, index)
    }

    open spec fn decode(&self, buffer: Seq<u8>, index: int) -> RGB {
        let at = rgb444_at(index);
        if index % 2 == 0 {
            // (MSB) rrrrgggg bbbb----
            RGB {
                r: expand(bits_at(buffer[at], 4, 4), 4),
                g: expand(bits_at(buffer[at], 0, 4), 4),
                b: expand(bits_at(buffer[at + 1], 4, 4), 4),
            }
        } else {
            // (MSB) ----rrrr ggggbbbb
            RGB {
                r: expand(bits_at(buffer[at], 0, 4), 4),
                g: expand(bits_at(buffer[at + 1], 4, 4), 4),
                b: expand(bits_at(buffer[at + 1], 0, 4), 4),
            }
        }
    }

    fn get_color(&self, buffer: &[u8], index: usize) -> (c: RGB) {
        proof {
            lemma_rgb444_bounds(index as int, buffer@.len());
        }
        assert(rgb444_at(index as int) + 1 < buffer.len());
        let at = index / 2 * 3 + index % 2;
        let b0 = buffer[at];
        let b1 = buffer[at + 1];
        if index % 2 == 0 {
            RGB {
                r: expand_channel(take_bits(b0, 4, 4), 4),
                g: expand_channel(take_bits(b0, 0, 4), 4),
                b: expand_channel(take_bits(b1, 4, 4), 4),
            }
        } else {
            RGB {
                r: expand_channel(take_bits(b0, 0, 4), 4),
                g: expand_channel(take_bits(b1, 4, 4), 4),
                b: expand_channel(take_bits(b1, 0, 4), 4),
            }
        }
    }
}

impl ColorSet for RGB444 {
    open spec fn writable(&self, len: nat, index: int) -> bool {
        in_bounds(len, 12, index)
    }

    open spec fn encode(&self, buffer: Seq<u8>, index: int, color: RGB) -> Seq<u8> {
        let at = rgb444_at(index);
        if index % 2 == 0 {
            buffer.update(at, pack2(compact(color.r, 4), compact(color.g, 4), 4)).update(
                at + 1,
                with_high(buffer[at + 1], compact(color.b, 4)),
            )
        } else {
            buffer.update(at, with_low(buffer[at], compact(color.r, 4))).update(
                at + 1,
                pack2(compact(color.g, 4), compact(color.b, 4), 4),
            )
        }
    }

    open spec fn exact(&self, color: RGB) -> bool {
        exact_channel(color.r, 4) && exact_channel(color.g, 4) && exact_channel(color.b, 4)
    }

    fn set_color(&self, buffer: &mut [u8], index: usize, color: RGB) {
        proof {
            lemma_rgb444_bounds(index as int, old(buffer)@.len());
        }
        assert(rgb444_at(index as int) + 1 < buffer.len());
        let at = index / 2 * 3 + index % 2;
        if index % 2 == 0 {
            buffer[at] = ((color.r >> 4) << 4) | (color.g >> 4);
            let b1 = buffer[at + 1];
            buffer[at + 1] = (b1 & 15) | ((color.b >> 4) << 4);
        } else {
            let b0 = buffer[at];
            buffer[at] = (b0 & 240) | (color.r >> 4);
            buffer[at + 1] = ((color.g >> 4) << 4) | (color.b >> 4);
        }
    }

    proof fn lemma_writable(&self, buffer: Seq<u8>, index: int, color: RGB) {
        lemma_rgb444_bounds(index, buffer.len());
    }

    proof fn lemma_round_trip(&self, buffer: Seq<u8>, index: int, color: RGB) {
        lemma_rgb444_bounds(index, buffer.len());
        lemma_channel(color.r, 4);
        lemma_channel(color.g, 4);
        lemma_channel(color.b, 4);
        let at = rgb444_at(index);
        if index % 2 == 0 {
            lemma_pack2(compact(color.r, 4), compact(color.g, 4), 4, 4);
            lemma_nibbles(buffer[at + 1], compact(color.b, 4));
        } else {
            lemma_pack2(compact(color.g, 4), compact(color.b, 4), 4, 4);
            lemma_nibbles(buffer[at], compact(color.r, 4));
        }
    }

    proof fn lemma_independent(
        &self,
        buffer: Seq<u8>,
        index: int,
        other: int,
        color: RGB,
    ) {
        lemma_rgb444_bounds(index, buffer.len());
        lemma_rgb444_bounds(other, buffer.len());
        lemma_channel(color.r, 4);
        lemma_channel(color.b, 4);
        let at = rgb444_at(index);
        if index / 2 == other / 2 {
            if index % 2 == 0 {
                lemma_nibbles(buffer[at + 1], compact(color.b, 4));
            } else {
                lemma_nibbles(buffer[at], compact(color.r, 4));
            }
        }
    }
}

/// RGB with 5 bits for red and blue components and 6 bits for green component
///
/// Single color per each two bytes:
///
/// `0bRRRRRGGG 0bGGGBBBBB ...`
#[derive(Debug, Clone, Copy, PartialEq, Eq, Default)]
pub struct RGB565;

impl ConstDefault for RGB565 {
    const DEFAULT: Self = RGB565;
}

impl ColorFmt for RGB565 {
    type ColorType = RGB;

    open spec fn bits(&self) -> nat {
        16
    }

    proof fn lemma_bits(&self) {
    }

    fn color_bits(&self) -> (b: usize) {
        16
    }

    fn num_colors(&self, buffer: &[u8]) -> (n: usize) {
        buffer.len() / 2
    }
}

impl ColorGet for RGB565 {
    open spec fn readable(&self, buffer: Seq<u8>, index: int) -> bool {
        in_bounds(buffer.len(), 16, index)
    }

    open spec fn decode(&self, buffer: Seq<u8>, index: int) -> RGB {
        let b0 = buffer[2 * index];
        let b1 = buffer[2 * index + 1];
        // (MSB) rrrrrggg gggbbbbb
        RGB {
            r: expand(bits_at(b0, 3, 5), 5),
            g: expand(pack2(bits_at(b0, 0, 3), bits_at(b1, 5, 3), 3), 6),
            b: expand(bits_at(b1, 0, 5), 5),
        }
    }

    fn get_color(&self, buffer: &[u8], index: usize) -> (c: RGB) {
        let i = index * 2;
        let b0 = buffer[i];
        let b1 = buffer[i + 1];
        let (g_hi, g_lo) = (take_bits(b0, 0, 3), take_bits(b1, 5, 3));
        proof {
            lemma_pack2(g_hi, g_lo, 3, 3);
        }
        RGB {
            r: expand_channel(take_bits(b0, 3, 5), 5),
            g: expand_channel((g_hi << 3) | g_lo, 6),
            b: expand_channel(take_bits(b1, 0, 5), 5),
        }
    }
}

impl ColorSet for RGB565 {
    open spec fn writable(&self, len: nat, index: int) -> bool {
        in_bounds(len, 16, index)
    }

    open spec fn encode(&self, buffer: Seq<u8>, index: int, color: RGB) -> Seq<u8> {
        buffer.update(2 * index, rgb565_high(color.r, color.g)).update(
            2 * index + 1,
            rgb565_low(color.g, color.b),
        )
    }

    open spec fn exact(&self, color: RGB) -> bool {
        exact_channel(color.r, 5) && exact_channel(color.g, 6) && exact_channel(color.b, 5)
    }

    fn set_color(&self, buffer: &mut [u8], index: usize, color: RGB) {
        let i = index * 2;
        let g = color.g >> 2;
        // (MSB) rrrrrggg gggbbbbb
        buffer[i] = ((color.r >> 3) << 3) | (g >> 3);
        buffer[i + 1] = ((g & 7) << 5) | (color.b >> 3);
    }

    proof fn lemma_writable(&self, buffer: Seq<u8>, index: int, color: RGB) {
        
    }

    proof fn lemma_round_trip(&self, buffer: Seq<u8>, index: int, color: RGB) {
        lemma_rgb565(color.r, color.g, color.b);
    }

    proof fn lemma_independent(
        &self,
        buffer: Seq<u8>,
        index: int,
        other: int,
        color: RGB,
    ) {
        
    }
}

/// RGB with 8 bits per component
#[derive(Debug, Clone, Copy, PartialEq, Eq, Default)]
pub struct RGB888;

impl ConstDefault for RGB888 {
    const DEFAULT: Self = RGB888;
}

impl ColorFmt for RGB888 {
    type ColorType = RGB;

    open spec fn bits(&self) -> nat {
        24
    }

    proof fn lemma_bits(&self) {
    }

    fn color_bits(&self) -> (b: usize) {
        24
    }

    fn num_colors(&self, buffer: &[u8]) -> (n: usize) {
        buffer.len() / 3
    }
}

impl ColorGet for RGB888 {
    open spec fn readable(&self, buffer: Seq<u8>, index: int) -> bool {
        in_bounds(buffer.len(), 24, index)
    }

    open spec fn decode(&self, buffer: Seq<u8>, index: int) -> RGB {
        RGB { r: buffer[3 * index], g: buffer[3 * index + 1], b: buffer[3 * index + 2] }
    }

    fn get_color(&self, buffer: &[u8], index: usize) -> (c: RGB) {
        let i = index * 3;
        RGB { r: buffer[i], g: buffer[i + 1], b: buffer[i + 2] }
    }
}

impl ColorSet for RGB888 {
    open spec fn writable(&self, len: nat, index: int) -> bool {
        in_bounds(len, 24, index)
    }

    open spec fn encode(&self, buffer: Seq<u8>, index: int, color: RGB) -> Seq<u8> {
        buffer.update(3 * index, color.r).update(3 * index + 1, color.g).update(3 * index + 2, color.b)
    }

    open spec fn exact(&self, color: RGB) -> bool {
        true
    }

    fn set_color(&self, buffer: &mut [u8], index: usize, color: RGB) {
        let i = index * 3;
        buffer[i] = color.r;
        buffer[i + 1] = color.g;
        buffer[i + 2] = color.b;
    }

    proof fn lemma_writable(&self, buffer: Seq<u8>, index: int, color: RGB) {
        
    }

    proof fn lemma_round_trip(&self, buffer: Seq<u8>, index: int, color: RGB) {
        
    }

    proof fn lemma_independent(
        &self,
        buffer: Seq<u8>,
        index: int,
        other: int,
        color: RGB,
    ) {
        
    }
}

proof fn lemma_rgb444_bounds(index: int, len: nat)
    requires
        0 <= index < len * 8 / 12,
    ensures
        0 <= rgb444_at(index),
        rgb444_at(index) + 1 < len,
        rgb444_at(index) == index * 3 / 2,
{
}

} // verus!
