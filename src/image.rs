use vstd::prelude::*;
use crate::buf::{bytes_for, lemma_bytes_for};
use crate::color::{GS, GSA, RGB, RGBA};
use crate::def::{channel_max, color_count, in_bounds, ColorFmt as ColorFormat, ColorGet, ColorSet};
use crate::format::{
    GS1, GS2, GS4, GS8, GSA31, GSA44, GSA71, GSA88, RAW1, RAW2, RAW4, RAW8, RGB332, RGB444, RGB565,
    RGB888, RGBA4444, RGBA5551, RGBA8888,
};

verus! {

/// Pixel format of a decoded image, with the bits of each channel
#[derive(Debug, Clone, PartialEq, Eq)]
pub enum ColorFmt {
    GS(u8),
    GSA(u8, u8),
    RGB(u8, u8, u8),
    RGBA(u8, u8, u8, u8),
    /// Index bits and the palette
    IDX(u8, Vec<RGBA>),
}

/// Pixels of a decoded image, one value per pixel
#[derive(Debug, Clone, PartialEq, Eq)]
pub enum ColorData {
    GS(Vec<GS>),
    GSA(Vec<GSA>),
    RGB(Vec<RGB>),
    RGBA(Vec<RGBA>),
    IDX(Vec<u8>),
}

/// A PNG color type and bit depth that no pixel format stands for
#[derive(Debug, Clone, Copy, PartialEq, Eq)]
pub struct UnsupportedFormat {
    pub color_type: u8,
    pub bits: u8,
}

/// PNG color type of grayscale images.
pub const PNG_GREY: u8 = 0;
/// PNG color type of RGB images.
pub const PNG_RGB: u8 = 2;
/// PNG color type of palette images.
pub const PNG_PALETTE: u8 = 3;
/// PNG color type of grayscale images with alpha.
pub const PNG_GREY_ALPHA: u8 = 4;
/// PNG color type of RGBA images.
pub const PNG_RGBA: u8 = 6;

/// Bit depths of grayscale and palette images that have a format.
pub open spec fn sub_byte_depth(bits: u8) -> bool {
    bits == 1 || bits == 2 || bits == 4 || bits == 8
}

/// Classifies a decoded PNG image by its color type and bit depth.
pub fn classify(color_type: u8, bits: u8, palette: Vec<RGBA>) -> (r: Result<ColorFmt, UnsupportedFormat>)
    ensures
        color_type == PNG_GREY && sub_byte_depth(bits) ==> r == Ok::<ColorFmt, UnsupportedFormat>(
            ColorFmt::GS(bits),
        ),
        color_type == PNG_GREY_ALPHA && bits == 8 ==> r == Ok::<ColorFmt, UnsupportedFormat>(
            ColorFmt::GSA(8, 8),
        ),
        color_type == PNG_RGB && bits == 8 ==> r == Ok::<ColorFmt, UnsupportedFormat>(
            ColorFmt::RGB(8, 8, 8),
        ),
        color_type == PNG_RGBA && bits == 8 ==> r == Ok::<ColorFmt, UnsupportedFormat>(
            ColorFmt::RGBA(8, 8, 8, 8),
        ),
        color_type == PNG_PALETTE && sub_byte_depth(bits) ==> (r matches Ok(ColorFmt::IDX(b, p))
            && b == bits && p@ == palette@),
        r is Err <==> !(color_type == PNG_GREY && sub_byte_depth(bits) || color_type
            == PNG_GREY_ALPHA && bits == 8 || color_type == PNG_RGB && bits == 8 || color_type
            == PNG_RGBA && bits == 8 || color_type == PNG_PALETTE && sub_byte_depth(bits)),
        r is Err ==> r == Err::<ColorFmt, UnsupportedFormat>(UnsupportedFormat { color_type, bits }),
{
    let depth = bits == 1 || bits == 2 || bits == 4 || bits == 8;
    if color_type == PNG_GREY && depth {
        Ok(ColorFmt::GS(bits))
    } else if color_type == PNG_GREY_ALPHA && bits == 8 {
        Ok(ColorFmt::GSA(8, 8))
    } else if color_type == PNG_RGB && bits == 8 {
        Ok(ColorFmt::RGB(8, 8, 8))
    } else if color_type == PNG_RGBA && bits == 8 {
        Ok(ColorFmt::RGBA(8, 8, 8, 8))
    } else if color_type == PNG_PALETTE && depth {
        Ok(ColorFmt::IDX(bits, palette))
    } else {
        Err(UnsupportedFormat { color_type, bits })
    }
}

/// Palette index of pixel `index` in PNG row data: indices of `bits` bits are
/// packed from the most significant bit of each byte down.
pub open spec fn png_index(raw: Seq<u8>, index: int, bits: u8) -> u8 {
    let per = 8int / (bits as int);
    (raw[index / per] >> (((per - 1 - index % per) * bits) as u8)) & channel_max(bits)
}

/// Unpacks `count` palette indices of `bits` bits each, one index per byte.
pub fn unpack_indices(raw: &[u8], count: usize, bits: u8) -> (r: Vec<u8>)
    requires
        sub_byte_depth(bits),
        count <= color_count(raw@.len(), bits as nat),
    ensures
        r@.len() == count,
        forall|i: int| 0 <= i < count ==> r@[i] == png_index(raw@, i, bits),
{
    let per: usize = 8 / (bits as usize);
    let mask: u8 = if bits == 1 {
        1
    } else if bits == 2 {
        3
    } else if bits == 4 {
        15
    } else {
        255
    };
    let mut out: Vec<u8> = Vec::with_capacity(count);
    let mut index: usize = 0;
    while index < count
        invariant
            sub_byte_depth(bits),
            per == 8int / (bits as int),
            mask == channel_max(bits),
            count <= color_count(raw@.len(), bits as nat),
            index <= count,
            out@.len() == index,
            forall|i: int| 0 <= i < index ==> out@[i] == png_index(raw@, i, bits),
        decreases count - index,
    {
        proof {
            lemma_index_position(index as int, bits, raw@.len());
        }
        let shift: usize = per - 1 - index % per;
        assert(shift * bits < 8);
        let off = (shift * (bits as usize)) as u8;
        out.push((raw[index / per] >> off) & mask);
        index += 1;
    }
    out
}

proof fn lemma_index_position(index: int, bits: u8, len: nat)
    requires
        sub_byte_depth(bits),
        0 <= index < color_count(len, bits as nat),
    ensures
        1 <= 8int / (bits as int) <= 8,
        0 <= index / (8int / (bits as int)) < len,
        0 <= (8int / (bits as int) - 1 - index % (8int / (bits as int))) * (bits as int) < 8,
{
    if bits == 1 {
        assert(0 <= index / 8 < len);
    } else if bits == 2 {
        assert(0 <= index / 4 < len);
    } else if bits == 4 {
        assert(0 <= index / 2 < len);
    } else {
        assert(0 <= index / 1 < len);
    }
}

/// The bytes after colors `0 .. n` of `colors` have been written, in order.
pub open spec fn written<Fmt: ColorSet>(
    format: Fmt,
    data: Seq<u8>,
    colors: Seq<Fmt::ColorType>,
    n: nat,
) -> Seq<u8>
    decreases n,
{
    if n == 0 {
        data
    } else {
        format.encode(written(format, data, colors, (n - 1) as nat), n - 1, colors[n - 1])
    }
}

/// The bytes of `colors` packed in `format` into a buffer of zeros.
pub open spec fn packed<Fmt: ColorSet>(format: Fmt, colors: Seq<Fmt::ColorType>) -> Seq<u8> {
    written(
        format,
        Seq::new(bytes_for(colors.len(), format.bits()), |i: int| 0u8),
        colors,
        colors.len(),
    )
}

/// Packs `colors` in `format`, color `i` into slot `i` of a buffer of
/// `ceil(n * bits / 8)` zero bytes.
pub fn pack_colors<Fmt: ColorSet>(format: Fmt, colors: &[Fmt::ColorType]) -> (r: Vec<u8>)
    requires
        colors@.len() * format.bits() + 7 <= usize::MAX,
        forall|i: int|
            0 <= i < colors@.len() ==> format.writable(
                bytes_for(colors@.len(), format.bits()),
                i,
            ),
    ensures
        r@ == packed(format, colors@),
        r@.len() == bytes_for(colors@.len(), format.bits()),
        forall|i: int|
            0 <= i < colors@.len() && format.exact(#[trigger] colors@[i]) ==> format.decode(
                r@,
                i,
            ) == colors@[i],
{
    proof {
        format.lemma_bits();
    }
    let n = colors.len();
    let bits = format.color_bits();
    let bytes = (n * bits + 7) / 8;
    let mut data: Vec<u8> = Vec::with_capacity(bytes);
    let mut k: usize = 0;
    while k < bytes
        invariant
            k <= bytes,
            data@.len() == k,
            forall|j: int| 0 <= j < k ==> data@[j] == 0,
        decreases bytes - k,
    {
        data.push(0);
        k += 1;
    }
    let ghost zeros = data@;
    assert(zeros =~= Seq::new(bytes_for(colors@.len(), format.bits()), |i: int| 0u8));
    let mut i: usize = 0;
    while i < n
        invariant
            n == colors@.len(),
            i <= n,
            data@ == written(format, zeros, colors@, i as nat),
            data@.len() == bytes,
            bytes == bytes_for(colors@.len(), format.bits()),
            forall|j: int| 0 <= j < n ==> format.writable(bytes as nat, j),
            forall|j: int|
                0 <= j < i && format.exact(#[trigger] colors@[j]) ==> format.decode(data@, j)
                    == colors@[j],
        decreases n - i,
    {
        proof {
            let cur = data@;
            let c = colors@[i as int];
            format.lemma_writable(cur, i as int, c);
            assert forall|j: int|
                0 <= j < i + 1 && format.exact(#[trigger] colors@[j]) implies format.decode(
                format.encode(cur, i as int, c),
                j,
            ) == colors@[j] by {
                if j < i {
                    format.lemma_independent(cur, i as int, j, c);
                } else {
                    format.lemma_round_trip(cur, i as int, c);
                }
            }
        }
        format.set_color(data.as_mut_slice(), i, colors[i]);
        i += 1;
    }
    data
}

/// Packs colors in a format whose every complete slot can be written.
fn pack_plain<Fmt: ColorSet>(format: Fmt, colors: &[Fmt::ColorType]) -> (r: Vec<u8>)
    requires
        colors@.len() * 32 + 7 <= usize::MAX,
        forall|len: nat, i: int| #[trigger] format.writable(len, i) == in_bounds(len, format.bits(), i),
    ensures
        r@ == packed(format, colors@),
{
    proof {
        format.lemma_bits();
        lemma_bytes_for(colors@.len(), format.bits());
        assert(colors@.len() * format.bits() <= colors@.len() * 32) by (nonlinear_arith)
            requires
                format.bits() <= 32,
        ;
    }
    pack_colors(format, colors)
}

/// The bytes that embed an image: its pixels packed in the format that its
/// pixel format names, palette indices packed as raw values; none where the
/// pixels and the format do not go together or no format has those bits.
pub open spec fn encoding(format: ColorFmt, pixels: ColorData) -> Option<Seq<u8>> {
    match (format, pixels) {
        (ColorFmt::GS(1), ColorData::GS(p)) => Some(packed(GS1, p@)),
        (ColorFmt::GS(2), ColorData::GS(p)) => Some(packed(GS2, p@)),
        (ColorFmt::GS(4), ColorData::GS(p)) => Some(packed(GS4, p@)),
        (ColorFmt::GS(8), ColorData::GS(p)) => Some(packed(GS8, p@)),
        (ColorFmt::GSA(3, 1), ColorData::GSA(p)) => Some(packed(GSA31, p@)),
        (ColorFmt::GSA(4, 4), ColorData::GSA(p)) => Some(packed(GSA44, p@)),
        (ColorFmt::GSA(7, 1), ColorData::GSA(p)) => Some(packed(GSA71, p@)),
        (ColorFmt::GSA(8, 8), ColorData::GSA(p)) => Some(packed(GSA88, p@)),
        (ColorFmt::RGB(3, 3, 2), ColorData::RGB(p)) => Some(packed(RGB332, p@)),
        (ColorFmt::RGB(4, 4, 4), ColorData::RGB(p)) => Some(packed(RGB444, p@)),
        (ColorFmt::RGB(5, 6, 5), ColorData::RGB(p)) => Some(packed(RGB565, p@)),
        (ColorFmt::RGB(8, 8, 8), ColorData::RGB(p)) => Some(packed(RGB888, p@)),
        (ColorFmt::RGBA(4, 4, 4, 4), ColorData::RGBA(p)) => Some(packed(RGBA4444, p@)),
        (ColorFmt::RGBA(5, 5, 5, 1), ColorData::RGBA(p)) => Some(packed(RGBA5551, p@)),
        (ColorFmt::RGBA(8, 8, 8, 8), ColorData::RGBA(p)) => Some(packed(RGBA8888, p@)),
        (ColorFmt::IDX(1, _), ColorData::IDX(p)) => Some(packed(RAW1, p@)),
        (ColorFmt::IDX(2, _), ColorData::IDX(p)) => Some(packed(RAW2, p@)),
        (ColorFmt::IDX(4, _), ColorData::IDX(p)) => Some(packed(RAW4, p@)),
        (ColorFmt::IDX(8, _), ColorData::IDX(p)) => Some(packed(RAW8, p@)),
        _ => None,
    }
}

/// Number of pixels in the image data.
pub open spec fn pixel_count(pixels: ColorData) -> nat {
    match pixels {
        ColorData::GS(p) => p@.len(),
        ColorData::GSA(p) => p@.len(),
        ColorData::RGB(p) => p@.len(),
        ColorData::RGBA(p) => p@.len(),
        ColorData::IDX(p) => p@.len(),
    }
}

/// Packs decoded pixels into the bytes that embed the image.
pub fn encode_image(format: &ColorFmt, pixels: &ColorData) -> (r: Option<Vec<u8>>)
    requires
        pixel_count(*pixels) * 32 + 7 <= usize::MAX,
    ensures
        r is None <==> encoding(*format, *pixels) is None,
        r matches Some(bytes) ==> encoding(*format, *pixels) == Some(bytes@),
{
    match (format, pixels) {
        (ColorFmt::GS(1), ColorData::GS(p)) => Some(pack_plain(GS1, p.as_slice())),
        (ColorFmt::GS(2), ColorData::GS(p)) => Some(pack_plain(GS2, p.as_slice())),
        (ColorFmt::GS(4), ColorData::GS(p)) => Some(pack_plain(GS4, p.as_slice())),
        (ColorFmt::GS(8), ColorData::GS(p)) => Some(pack_plain(GS8, p.as_slice())),
        (ColorFmt::GSA(3, 1), ColorData::GSA(p)) => Some(pack_plain(GSA31, p.as_slice())),
        (ColorFmt::GSA(4, 4), ColorData::GSA(p)) => Some(pack_plain(GSA44, p.as_slice())),
        (ColorFmt::GSA(7, 1), ColorData::GSA(p)) => Some(pack_plain(GSA71, p.as_slice())),
        (ColorFmt::GSA(8, 8), ColorData::GSA(p)) => Some(pack_plain(GSA88, p.as_slice())),
        (ColorFmt::RGB(3, 3, 2), ColorData::RGB(p)) => Some(pack_plain(RGB332, p.as_slice())),
        (ColorFmt::RGB(4, 4, 4), ColorData::RGB(p)) => Some(pack_plain(RGB444, p.as_slice())),
        (ColorFmt::RGB(5, 6, 5), ColorData::RGB(p)) => Some(pack_plain(RGB565, p.as_slice())),
        (ColorFmt::RGB(8, 8, 8), ColorData::RGB(p)) => Some(pack_plain(RGB888, p.as_slice())),
        (ColorFmt::RGBA(4, 4, 4, 4), ColorData::RGBA(p)) => Some(pack_plain(RGBA4444, p.as_slice())),
        (ColorFmt::RGBA(5, 5, 5, 1), ColorData::RGBA(p)) => Some(pack_plain(RGBA5551, p.as_slice())),
        (ColorFmt::RGBA(8, 8, 8, 8), ColorData::RGBA(p)) => Some(pack_plain(RGBA8888, p.as_slice())),
        (ColorFmt::IDX(1, _), ColorData::IDX(p)) => Some(pack_plain(RAW1, p.as_slice())),
        (ColorFmt::IDX(2, _), ColorData::IDX(p)) => Some(pack_plain(RAW2, p.as_slice())),
        (ColorFmt::IDX(4, _), ColorData::IDX(p)) => Some(pack_plain(RAW4, p.as_slice())),
        (ColorFmt::IDX(8, _), ColorData::IDX(p)) => Some(pack_plain(RAW8, p.as_slice())),
        _ => None,
    }
}

} // verus!
