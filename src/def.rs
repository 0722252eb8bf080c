use vstd::prelude::*;
use crate::color::ColorValue;

verus! {

/// Number of colors of `bits` bits each that fit into `len` bytes;
/// an incomplete trailing slot does not count.
pub open spec fn color_count(len: nat, bits: nat) -> nat {
    len * 8 / bits
}

/// Whether `index` addresses a complete color slot of a `len`-byte buffer.
pub open spec fn in_bounds(len: nat, bits: nat, index: int) -> bool {
    0 <= index < color_count(len, bits)
}

/// Largest value of an `n`-bit channel.
pub open spec fn channel_max(n: u8) -> u8 {
    if n == 1 {
        1
    } else if n == 2 {
        3
    } else if n == 3 {
        7
    } else if n == 4 {
        15
    } else if n == 5 {
        31
    } else if n == 6 {
        63
    } else if n == 7 {
        127
    } else {
        255
    }
}

/// The `n` top bits of an 8-bit channel, as they are packed (no rounding).
pub open spec fn compact(v: u8, n: u8) -> u8 {
    v >> ((8 - n) as u8)
}

/// The 8-bit channel value of an `n`-bit channel value: a 1-bit channel is
/// all or nothing, wider ones are scaled by `255 / (2^n - 1)`.
pub open spec fn expand(v: u8, n: u8) -> u8 {
    if n == 1 {
        if v > 0 {
            255
        } else {
            0
        }
    } else {
        (v * (255u8 / channel_max(n))) as u8
    }
}

/// An 8-bit channel value that an `n`-bit channel holds without loss.
pub open spec fn exact_channel(v: u8, n: u8) -> bool {
    expand(compact(v, n), n) == v
}

/// Field widths that pack whole fields into a byte.
pub open spec fn is_field_width(width: u8) -> bool {
    width == 1 || width == 2 || width == 4 || width == 8
}

/// Number of `width`-bit fields per byte.
pub open spec fn fields_per_byte(width: u8) -> int {
    8int / (width as int)
}

/// Bit offset of the field of color `index` within its byte; fields fill a
/// byte from its least significant bit up.
pub open spec fn field_offset(index: int, width: u8) -> u8 {
    ((index % fields_per_byte(width)) * (width as int)) as u8
}

/// `byte` with the `mask`-wide field at `off` replaced by `value`.
pub open spec fn put_bits(byte: u8, off: u8, mask: u8, value: u8) -> u8 {
    (byte & !((mask << off) as u8)) | (((value & mask) << off) as u8)
}

/// The `width`-bit field of color `index`.
pub open spec fn field_of(buffer: Seq<u8>, index: int, width: u8) -> u8 {
    (buffer[index / fields_per_byte(width)] >> field_offset(index, width)) & channel_max(width)
}

/// `buffer` with the `width`-bit field of color `index` set to `value`.
pub open spec fn with_field(buffer: Seq<u8>, index: int, width: u8, value: u8) -> Seq<u8> {
    let at = index / fields_per_byte(width);
    buffer.update(at, put_bits(buffer[at], field_offset(index, width), channel_max(width), value))
}

/// Constant default value
pub trait ConstDefault {
    const DEFAULT: Self;
}

/// Color format definition
pub trait ColorFmt: Sized {
    /// The type of color data
    type ColorType: ColorValue;

    /// The packed size of one color in bits
    spec fn bits(&self) -> nat;

    proof fn lemma_bits(&self)
        ensures
            1 <= self.bits() <= 32,
    ;

    /// The packed size of one color in bits
    fn color_bits(&self) -> (b: usize)
        ensures
            b == self.bits(),
    ;

    /// Measures the number of colors which can fit into buffer
    fn num_colors(&self, buffer: &[u8]) -> (n: usize)
        requires
            buffer@.len() * 8 <= usize::MAX,
        ensures
            n == color_count(buffer@.len(), self.bits()),
    ;
}

/// Color getter
pub trait ColorGet: ColorFmt {
    /// Whether the color at `index` can be read from `buffer`
    spec fn readable(&self, buffer: Seq<u8>, index: int) -> bool;

    /// The color stored at `index`
    spec fn decode(&self, buffer: Seq<u8>, index: int) -> Self::ColorType;

    /// Gets color which located at specified index
    fn get_color(&self, buffer: &[u8], index: usize) -> (c: Self::ColorType)
        requires
            self.readable(buffer@, index as int),
        ensures
            c == self.decode(buffer@, index as int),
    ;
}

/// Color setter
pub trait ColorSet: ColorGet {
    /// Whether a color can be written at `index` of a buffer of `len` bytes
    spec fn writable(&self, len: nat, index: int) -> bool;

    /// The bytes of `buffer` after the color at `index` is set to `color`
    spec fn encode(&self, buffer: Seq<u8>, index: int, color: Self::ColorType) -> Seq<u8>;

    /// Whether this format stores `color` without loss
    spec fn exact(&self, color: Self::ColorType) -> bool;

    /// Sets color which located at specified index
    fn set_color(&self, buffer: &mut [u8], index: usize, color: Self::ColorType)
        requires
            self.writable(old(buffer)@.len(), index as int),
        ensures
            final(buffer)@ == self.encode(old(buffer)@, index as int, color),
    ;

    /// Writing keeps the length of the buffer, and only complete slots are written.
    proof fn lemma_writable(&self, buffer: Seq<u8>, index: int, color: Self::ColorType)
        requires
            self.writable(buffer.len(), index),
        ensures
            in_bounds(buffer.len(), self.bits(), index),
            self.encode(buffer, index, color).len() == buffer.len(),
    ;

    /// A color that the format stores without loss reads back as written.
    proof fn lemma_round_trip(&self, buffer: Seq<u8>, index: int, color: Self::ColorType)
        requires
            self.writable(buffer.len(), index),
            self.exact(color),
        ensures
            self.readable(self.encode(buffer, index, color), index),
            self.decode(self.encode(buffer, index, color), index) == color,
    ;

    /// Writing a color leaves every other color of the buffer as it was.
    proof fn lemma_independent(
        &self,
        buffer: Seq<u8>,
        index: int,
        other: int,
        color: Self::ColorType,
    )
        requires
            self.writable(buffer.len(), index),
            in_bounds(buffer.len(), self.bits(), other),
            other != index,
        ensures
            self.decode(self.encode(buffer, index, color), other) == self.decode(buffer, other),
            self.readable(self.encode(buffer, index, color), other) == self.readable(buffer, other),
    ;
}

proof fn lemma_put_bits(byte: u8, value: u8, width: u8, o1: u8, o2: u8)
    by (bit_vector)
    requires
        width == 1 || width == 2 || width == 4 || width == 8,
        o1 % width == 0,
        o2 % width == 0,
        o1 + width <= 8,
        o2 + width <= 8,
    ensures
        (put_bits(byte, o1, channel_max(width), value) >> o1) & channel_max(width) == value
            & channel_max(width),
        o1 != o2 ==> (put_bits(byte, o1, channel_max(width), value) >> o2) & channel_max(width)
            == (byte >> o2) & channel_max(width),
{
}

proof fn lemma_field_position(index: int, width: u8, len: nat)
    requires
        is_field_width(width),
        0 <= index < color_count(len, width as nat),
    ensures
        0 <= index / fields_per_byte(width) < len,
        field_offset(index, width) % width == 0,
        field_offset(index, width) + width <= 8,
{
    if width == 1 {
        assert(0 <= index / 8 < len);
    } else if width == 2 {
        assert(0 <= index / 4 < len);
    } else if width == 4 {
        assert(0 <= index / 2 < len);
    } else {
        assert(0 <= index / 1 < len);
    }
}

proof fn lemma_field_offsets_differ(index: int, other: int, width: u8)
    requires
        is_field_width(width),
        0 <= index,
        0 <= other,
        index != other,
        index / fields_per_byte(width) == other / fields_per_byte(width),
    ensures
        field_offset(index, width) != field_offset(other, width),
{
    let per = fields_per_byte(width);
    assert(per > 0);
    assert(index == per * (index / per) + index % per) by (nonlinear_arith)
        requires
            per > 0,
    ;
    assert(other == per * (other / per) + other % per) by (nonlinear_arith)
        requires
            per > 0,
    ;
    assert(index % per != other % per);
    if width == 1 {
    } else if width == 2 {
    } else if width == 4 {
    } else {
    }
}

/// The field just written reads back as the written value, cut to the field width.
pub proof fn lemma_field_round_trip(buffer: Seq<u8>, index: int, width: u8, value: u8)
    requires
        is_field_width(width),
        0 <= index < color_count(buffer.len(), width as nat),
    ensures
        with_field(buffer, index, width, value).len() == buffer.len(),
        field_of(with_field(buffer, index, width, value), index, width) == value & channel_max(
            width,
        ),
{
    lemma_field_position(index, width, buffer.len());
    let at = index / fields_per_byte(width);
    let off = field_offset(index, width);
    lemma_put_bits(buffer[at], value, width, off, off);
}

/// Writing one field leaves every other field as it was.
pub proof fn lemma_field_independent(
    buffer: Seq<u8>,
    index: int,
    other: int,
    width: u8,
    value: u8,
)
    requires
        is_field_width(width),
        0 <= index < color_count(buffer.len(), width as nat),
        0 <= other < color_count(buffer.len(), width as nat),
        index != other,
    ensures
        field_of(with_field(buffer, index, width, value), other, width) == field_of(
            buffer,
            other,
            width,
        ),
{
    lemma_field_position(index, width, buffer.len());
    lemma_field_position(other, width, buffer.len());
    let per = fields_per_byte(width);
    if index / per == other / per {
        let o1 = field_offset(index, width);
        let o2 = field_offset(other, width);
        lemma_field_offsets_differ(index, other, width);
        lemma_put_bits(buffer[index / per], value, width, o1, o2);
    }
}

/// Facts on packing and unpacking a single channel.
pub proof fn lemma_channel(v: u8, n: u8)
    by (bit_vector)
    requires
        1 <= n <= 8,
    ensures
        compact(v, n) <= channel_max(n),
        compact(v, n) & channel_max(n) == compact(v, n),
        v <= channel_max(n) ==> v & channel_max(n) == v,
        v <= channel_max(n) ==> v * (255u8 / channel_max(n)) <= 255,
{
}

/// Two channels sharing one field: `hi` above the `lo_bits` low bits that hold `lo`.
pub open spec fn pack2(hi: u8, lo: u8, lo_bits: u8) -> u8 {
    ((hi << lo_bits) as u8) | lo
}

/// The `n`-bit channel that starts at bit `off` of `f`.
pub open spec fn bits_at(f: u8, off: u8, n: u8) -> u8 {
    (f >> off) & channel_max(n)
}

/// Both channels of a packed pair read back as they were packed.
pub proof fn lemma_pack2(hi: u8, lo: u8, hi_bits: u8, lo_bits: u8)
    by (bit_vector)
    requires
        1 <= hi_bits,
        1 <= lo_bits,
        hi_bits + lo_bits <= 8,
        hi <= channel_max(hi_bits),
        lo <= channel_max(lo_bits),
    ensures
        bits_at(pack2(hi, lo, lo_bits), lo_bits, hi_bits) == hi,
        bits_at(pack2(hi, lo, lo_bits), 0, lo_bits) == lo,
        pack2(hi, lo, lo_bits) & channel_max((hi_bits + lo_bits) as u8) == pack2(hi, lo, lo_bits),
        pack2(hi, lo, lo_bits) <= channel_max((hi_bits + lo_bits) as u8),
{
}

/// Reads the `n`-bit channel that starts at bit `off` of `f`.
pub fn take_bits(f: u8, off: u8, n: u8) -> (r: u8)
    requires
        1 <= n <= 8,
        off < 8,
    ensures
        r == bits_at(f, off, n),
        r <= channel_max(n),
{
    let m = mask_of(n);
    let r = (f >> off) & m;
    assert(r <= m) by (bit_vector)
        requires
            r == (f >> off) & m,
    ;
    r
}

/// Mask of the low `width` bits.
fn mask_of(width: u8) -> (m: u8)
    requires
        1 <= width <= 8,
    ensures
        m == channel_max(width),
{
    if width == 1 {
        1
    } else if width == 2 {
        3
    } else if width == 3 {
        7
    } else if width == 4 {
        15
    } else if width == 5 {
        31
    } else if width == 6 {
        63
    } else if width == 7 {
        127
    } else {
        255
    }
}

/// Reads the `width`-bit field of color `index`.
pub fn read_field(buffer: &[u8], index: usize, width: u8) -> (r: u8)
    requires
        is_field_width(width),
        index < color_count(buffer@.len(), width as nat),
    ensures
        r == field_of(buffer@, index as int, width),
        r <= channel_max(width),
{
    proof {
        lemma_field_position(index as int, width, buffer@.len());
    }
    let per: usize = 8 / (width as usize);
    let off: u8 = ((index % per) * (width as usize)) as u8;
    let m = mask_of(width);
    let byte = buffer[index / per];
    let r = (byte >> off) & m;
    assert(r <= m) by (bit_vector)
        requires
            r == (byte >> off) & m,
    ;
    r
}

/// Sets the `width`-bit field of color `index` to `value`, leaving the other bits as they are.
pub fn write_field(buffer: &mut [u8], index: usize, width: u8, value: u8)
    requires
        is_field_width(width),
        index < color_count(old(buffer)@.len(), width as nat),
    ensures
        final(buffer)@ == with_field(old(buffer)@, index as int, width, value),
{
    proof {
        lemma_field_position(index as int, width, old(buffer)@.len());
    }
    let per: usize = 8 / (width as usize);
    let off: u8 = ((index % per) * (width as usize)) as u8;
    let m = mask_of(width);
    let byte = buffer[index / per];
    buffer[index / per] = (byte & !(m << off)) | ((value & m) << off);
}

/// Expands an `n`-bit channel value to 8 bits.
pub fn expand_channel(v: u8, n: u8) -> (r: u8)
    requires
        1 <= n <= 8,
        v <= channel_max(n),
    ensures
        r == expand(v, n),
{
    if n == 1 {
        if v > 0 {
            255
        } else {
            0
        }
    } else {
        proof {
            lemma_channel(v, n);
        }
        v * (255 / mask_of(n))
    }
}

} // verus!
