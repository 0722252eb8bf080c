use vstd::prelude::*;
use core::ops::RangeInclusive;
use crate::buf::ColorBuf;
use crate::def::{color_count, ColorFmt, ColorGet};
use crate::geom::{Rect, Size};
use crate::pixel::PixelView;

verus! {

/// Relies on `RangeInclusive::start`: it returns the lower bound of the range.
pub assume_specification<Idx>[ RangeInclusive::<Idx>::start ](range: &RangeInclusive<Idx>) -> (r:
    &Idx)
    ensures
        *r == range@.start,
;

/// Relies on `RangeInclusive::end`: it returns the upper bound of the range,
/// which is unchanged while the range is not iterated.
pub assume_specification<Idx>[ RangeInclusive::<Idx>::end ](range: &RangeInclusive<Idx>) -> (r:
    &Idx)
    ensures
        *r == range@.end,
;

/// Number of character codes in a range.
pub open spec fn span(range: RangeInclusive<u32>) -> int {
    range@.end - range@.start + 1
}

/// Number of glyphs that the code ranges cover.
pub open spec fn glyph_count(codes: Seq<RangeInclusive<u32>>) -> int
    decreases codes.len(),
{
    if codes.len() == 0 {
        0
    } else {
        span(codes[0]) + glyph_count(codes.skip(1))
    }
}

/// Whether every range is ordered and the glyph numbers fit in `usize`.
pub open spec fn codes_ok(codes: Seq<RangeInclusive<u32>>) -> bool {
    &&& forall|i: int| 0 <= i < codes.len() ==> #[trigger] codes[i]@.start <= codes[i]@.end
    &&& glyph_count(codes) <= usize::MAX
}

/// Glyph of character code `code`: glyphs are numbered through the ranges in
/// their order, and the first range that holds the code gives its glyph.
pub open spec fn glyph_of(codes: Seq<RangeInclusive<u32>>, code: u32) -> Option<int>
    decreases codes.len(),
{
    if codes.len() == 0 {
        None
    } else if codes[0]@.start <= code <= codes[0]@.end {
        Some(code - codes[0]@.start)
    } else {
        match glyph_of(codes.skip(1), code) {
            Some(g) => Some(g + span(codes[0])),
            None => None,
        }
    }
}

proof fn lemma_glyph_count_split(codes: Seq<RangeInclusive<u32>>, i: int)
    requires
        0 <= i < codes.len(),
    ensures
        glyph_count(codes.skip(i)) == span(codes[i]) + glyph_count(codes.skip(i + 1)),
{
    assert(codes.skip(i).skip(1) =~= codes.skip(i + 1));
}

proof fn lemma_glyph_count_bounds(codes: Seq<RangeInclusive<u32>>, i: int)
    requires
        0 <= i <= codes.len(),
        forall|j: int| 0 <= j < codes.len() ==> #[trigger] codes[j]@.start <= codes[j]@.end,
    ensures
        0 <= glyph_count(codes.skip(i)),
        glyph_count(codes) == glyph_count(codes.take(i)) + glyph_count(codes.skip(i)),
    decreases i,
{
    if i == 0 {
        assert(codes.skip(0) =~= codes);
        assert(codes.take(0) =~= Seq::<RangeInclusive<u32>>::empty());
        lemma_suffix_count_nonneg(codes, 0);
    } else {
        lemma_glyph_count_bounds(codes, i - 1);
        lemma_glyph_count_split(codes, i - 1);
        lemma_prefix_count(codes, i);
        lemma_suffix_count_nonneg(codes, i);
    }
}

proof fn lemma_suffix_count_nonneg(codes: Seq<RangeInclusive<u32>>, i: int)
    requires
        0 <= i <= codes.len(),
        forall|j: int| 0 <= j < codes.len() ==> #[trigger] codes[j]@.start <= codes[j]@.end,
    ensures
        0 <= glyph_count(codes.skip(i)),
    decreases codes.len() - i,
{
    if i < codes.len() {
        lemma_glyph_count_split(codes, i);
        lemma_suffix_count_nonneg(codes, i + 1);
    }
}

proof fn lemma_prefix_count(codes: Seq<RangeInclusive<u32>>, i: int)
    requires
        0 < i <= codes.len(),
    ensures
        glyph_count(codes.take(i)) == glyph_count(codes.take(i - 1)) + span(codes[i - 1]),
    decreases i,
{
    if i == 1 {
        assert(codes.take(1).skip(1) =~= Seq::<RangeInclusive<u32>>::empty());
        assert(codes.take(0) =~= Seq::<RangeInclusive<u32>>::empty());
    } else {
        lemma_prefix_count(codes.skip(1), i - 1);
        assert(codes.take(i).skip(1) =~= codes.skip(1).take(i - 1));
        assert(codes.take(i - 1).skip(1) =~= codes.skip(1).take(i - 2));
        assert(codes.skip(1)[i - 2] == codes[i - 1]);
    }
}

/// Finds the glyph of `chr` by a linear search through the code ranges.
fn find_glyph(codes: &[RangeInclusive<u32>], chr: char) -> (g: Option<usize>)
    requires
        codes_ok(codes@),
    ensures
        g is None <==> glyph_of(codes@, chr as u32) is None,
        g matches Some(n) ==> glyph_of(codes@, chr as u32) == Some(n as int),
{
    let code = chr as u32;
    let mut num: usize = 0;
    let mut i: usize = 0;
    proof {
        lemma_glyph_count_bounds(codes@, 0);
        assert(codes@.skip(0) =~= codes@);
    }
    while i < codes.len()
        invariant
            code == chr as u32,
            codes_ok(codes@),
            i <= codes@.len(),
            num == glyph_count(codes@.take(i as int)),
            num + glyph_count(codes@.skip(i as int)) == glyph_count(codes@),
            0 <= glyph_count(codes@.skip(i as int)),
            glyph_of(codes@, code) == (match glyph_of(codes@.skip(i as int), code) {
                Some(n) => Some(n + num),
                None => None,
            }),
        decreases codes@.len() - i,
    {
        let start = *codes[i].start();
        let end = *codes[i].end();
        proof {
            lemma_glyph_count_split(codes@, i as int);
            lemma_glyph_count_bounds(codes@, i as int + 1);
            lemma_prefix_count(codes@, i as int + 1);
            assert(codes@.skip(i as int).skip(1) =~= codes@.skip(i as int + 1));
            assert(codes@.skip(i as int)[0] == codes@[i as int]);
        }
        if start <= code && code <= end {
            assert(glyph_of(codes@.skip(i as int), code) == Some(code - start));
            return Some(num + (code - start) as usize);
        }
        num += (end - start) as usize + 1;
        i += 1;
    }
    None
}

/// Placement of one glyph: its rectangle and where its pixels start
#[derive(Debug, Clone, Copy, PartialEq, Eq)]
pub struct GlyphData {
    pub rect: Rect<i32>,
    pub off: usize,
}

impl GlyphData {
    pub fn new(rect: Rect<i32>, off: usize) -> (r: Self)
        ensures
            r.rect == rect,
            r.off == off,
    {
        GlyphData { rect, off }
    }
}

/// Font interface
pub trait Font {
    /// Pixel format type
    type Fmt: ColorGet;

    /// The character code ranges, in glyph order
    spec fn code_ranges(&self) -> Seq<RangeInclusive<u32>>;

    /// Number of glyphs
    spec fn glyphs(&self) -> int;

    /// Whether the font tables are consistent
    spec fn wf(&self) -> bool;

    /// Get the number of glyphs
    fn len(&self) -> (n: usize)
        requires
            self.wf(),
        ensures
            n == self.glyphs(),
    ;

    /// Get glyph id for char
    fn glyph(&self, chr: char) -> (g: Option<usize>)
        requires
            self.wf(),
        ensures
            g is None <==> glyph_of(self.code_ranges(), chr as u32) is None,
            g matches Some(n) ==> glyph_of(self.code_ranges(), chr as u32) == Some(n as int),
    ;

    /// Get rectangle for glyph
    fn rect(&self, glyph: usize) -> (r: Rect<i32>)
        requires
            self.wf(),
            glyph < self.glyphs(),
        ensures
            r == self.rect_spec(glyph as int),
    ;

    /// Get bitmap for glyph: a view of the glyph's size over its pixel bytes
    fn pixels(&self, glyph: usize) -> (v: PixelView<(Self::Fmt, &[u8])>)
        requires
            self.wf(),
            glyph < self.glyphs(),
        ensures
            v.dims().w == self.rect_spec(glyph as int).size.w,
            v.dims().h == self.rect_spec(glyph as int).size.h,
            v.buffer().0 == self.pixel_format(),
            v.buffer().1@ == self.glyph_pixels(glyph as int),
    ;

    /// Rectangle of a glyph
    spec fn rect_spec(&self, glyph: int) -> Rect<i32>;

    /// Format of the glyph pixels
    spec fn pixel_format(&self) -> Self::Fmt;

    /// The pixel bytes from the first byte of a glyph to the end
    spec fn glyph_pixels(&self, glyph: int) -> Seq<u8>;
}

/// Whether per-glyph tables fit together: one glyph for each code, each
/// glyph's pixels start within the pixel bytes, and no size is negative.
pub open spec fn v1_tables_ok(
    codes: Seq<RangeInclusive<u32>>,
    glyphs: Seq<GlyphData>,
    pixels: Seq<u8>,
) -> bool {
    &&& codes_ok(codes)
    &&& glyph_count(codes) == glyphs.len()
    &&& forall|i: int|
        0 <= i < glyphs.len() ==> #[trigger] glyphs[i].off <= pixels.len() && glyphs[i].rect.size.w
            >= 0 && glyphs[i].rect.size.h >= 0
}

/// Font whose glyphs each have a rectangle and an offset into the pixels
pub struct FontV1<'a, Fmt> {
    codes: &'a [RangeInclusive<u32>],
    glyphs: &'a [GlyphData],
    format: Fmt,
    pixels: &'a [u8],
}

impl<'a, Fmt: ColorGet + Copy> FontV1<'a, Fmt> {
    /// Create font
    pub fn new(
        format: Fmt,
        codes: &'a [RangeInclusive<u32>],
        glyphs: &'a [GlyphData],
        pixels: &'a [u8],
    ) -> (r: Self)
        ensures
            r.code_ranges() == codes@,
            r.glyphs() == glyphs@.len(),
            r.wf() == v1_tables_ok(codes@, glyphs@, pixels@),
            forall|i: int| 0 <= i < glyphs@.len() ==> r.rect_spec(i) == glyphs@[i].rect,
            r.pixel_format() == format,
            forall|i: int|
                0 <= i < glyphs@.len() ==> r.glyph_pixels(i) == pixels@.subrange(
                    glyphs@[i].off as int,
                    pixels@.len() as int,
                ),
    {
        FontV1 { codes, glyphs, format, pixels }
    }
}

impl<'a, Fmt: ColorGet + Copy> Font for FontV1<'a, Fmt> {
    type Fmt = Fmt;

    closed spec fn code_ranges(&self) -> Seq<RangeInclusive<u32>> {
        self.codes@
    }

    closed spec fn glyphs(&self) -> int {
        self.glyphs@.len() as int
    }

    closed spec fn wf(&self) -> bool {
        v1_tables_ok(self.codes@, self.glyphs@, self.pixels@)
    }

    closed spec fn rect_spec(&self, glyph: int) -> Rect<i32> {
        self.glyphs@[glyph].rect
    }

    closed spec fn pixel_format(&self) -> Fmt {
        self.format
    }

    closed spec fn glyph_pixels(&self, glyph: int) -> Seq<u8> {
        self.pixels@.subrange(self.glyphs@[glyph].off as int, self.pixels@.len() as int)
    }

    fn len(&self) -> (n: usize) {
        self.glyphs.len()
    }

    fn glyph(&self, chr: char) -> (g: Option<usize>) {
        find_glyph(self.codes, chr)
    }

    fn rect(&self, glyph: usize) -> (r: Rect<i32>) {
        self.glyphs[glyph].rect
    }

    fn pixels(&self, glyph: usize) -> (v: PixelView<(Fmt, &[u8])>) {
        let glyph_data = self.glyphs[glyph];
        assert(self.glyphs@[glyph as int].off <= self.pixels@.len());
        let size = glyph_data.rect.size.as_usize();
        let data = &self.pixels[glyph_data.off..self.pixels.len()];
        PixelView::new((self.format, data), size)
    }
}

/// Font whose glyphs all share one rectangle, stored one after another
pub struct FontV2<'a, Fmt> {
    codes: &'a [RangeInclusive<u32>],
    rect: Rect<i32>,
    format: Fmt,
    pixels: &'a [u8],
}

/// Bytes that one glyph of the given size takes: `ceil(w * h * bits / 8)`.
pub open spec fn glyph_bytes(size: Size<i32>, bits: nat) -> int {
    (size.w * size.h * bits + 7) / 8
}

/// Whether shared-rectangle tables fit together: the codes are ordered, the
/// size is not negative, and the pixel bytes hold every glyph.
pub open spec fn v2_tables_ok(
    codes: Seq<RangeInclusive<u32>>,
    rect: Rect<i32>,
    bits: nat,
    pixels: Seq<u8>,
) -> bool {
    &&& codes_ok(codes)
    &&& rect.size.w >= 0
    &&& rect.size.h >= 0
    &&& rect.size.w * rect.size.h * bits + 7 <= usize::MAX
    &&& glyph_bytes(rect.size, bits) * glyph_count(codes) <= pixels.len()
}

impl<'a, Fmt: ColorGet + Copy> FontV2<'a, Fmt> {
    /// Create font
    pub fn new(
        format: Fmt,
        codes: &'a [RangeInclusive<u32>],
        rect: Rect<i32>,
        pixels: &'a [u8],
    ) -> (r: Self)
        ensures
            r.code_ranges() == codes@,
            r.glyphs() == glyph_count(codes@),
            r.wf() == v2_tables_ok(codes@, rect, format.bits(), pixels@),
            forall|i: int| r.rect_spec(i) == rect,
            r.pixel_format() == format,
            forall|i: int|
                r.glyph_pixels(i) == pixels@.subrange(
                    glyph_bytes(rect.size, format.bits()) * i,
                    pixels@.len() as int,
                ),
    {
        FontV2 { codes, rect, format, pixels }
    }
}

impl<'a, Fmt: ColorGet + Copy> Font for FontV2<'a, Fmt> {
    type Fmt = Fmt;

    closed spec fn code_ranges(&self) -> Seq<RangeInclusive<u32>> {
        self.codes@
    }

    closed spec fn glyphs(&self) -> int {
        glyph_count(self.codes@)
    }

    closed spec fn wf(&self) -> bool {
        v2_tables_ok(self.codes@, self.rect, self.format.bits(), self.pixels@)
    }

    closed spec fn rect_spec(&self, glyph: int) -> Rect<i32> {
        self.rect
    }

    closed spec fn pixel_format(&self) -> Fmt {
        self.format
    }

    closed spec fn glyph_pixels(&self, glyph: int) -> Seq<u8> {
        self.pixels@.subrange(
            glyph_bytes(self.rect.size, self.format.bits()) * glyph,
            self.pixels@.len() as int,
        )
    }

    fn len(&self) -> (n: usize) {
        let mut n: usize = 0;
        let mut i: usize = 0;
        proof {
            lemma_glyph_count_bounds(self.codes@, 0);
            assert(self.codes@.skip(0) =~= self.codes@);
        }
        while i < self.codes.len()
            invariant
                codes_ok(self.codes@),
                i <= self.codes@.len(),
                n == glyph_count(self.codes@.take(i as int)),
                n + glyph_count(self.codes@.skip(i as int)) == glyph_count(self.codes@),
                0 <= glyph_count(self.codes@.skip(i as int)),
            decreases self.codes@.len() - i,
        {
            proof {
                lemma_glyph_count_split(self.codes@, i as int);
                lemma_glyph_count_bounds(self.codes@, i as int + 1);
                lemma_prefix_count(self.codes@, i as int + 1);
            }
            n += (*self.codes[i].end() - *self.codes[i].start()) as usize + 1;
            i += 1;
        }
        proof {
            assert(self.codes@.take(i as int) =~= self.codes@);
        }
        n
    }

    fn glyph(&self, chr: char) -> (g: Option<usize>) {
        find_glyph(self.codes, chr)
    }

    fn rect(&self, glyph: usize) -> (r: Rect<i32>) {
        self.rect
    }

    fn pixels(&self, glyph: usize) -> (v: PixelView<(Fmt, &[u8])>) {
        let size = self.rect.size.as_usize();
        let bits = self.format.color_bits();
        let len = self.pixels.len();
        proof {
            self.format.lemma_bits();
            lemma_glyph_offset(size.w as int, size.h as int, bits as int, glyph as int,
                glyph_count(self.codes@), self.pixels@.len() as int);
        }
        let off = (size.w * size.h * bits + 7) / 8;
        let data = &self.pixels[off * glyph..len];
        PixelView::new((self.format, data), size)
    }
}

proof fn lemma_glyph_offset(w: int, h: int, bits: int, glyph: int, count: int, len: int)
    requires
        0 <= w,
        0 <= h,
        1 <= bits,
        0 <= glyph < count,
        w * h * bits + 7 <= usize::MAX,
        (w * h * bits + 7) / 8 * count <= len,
    ensures
        (w * h * bits + 7) / 8 * glyph <= len,
        w * h <= usize::MAX,
        w * h * bits <= usize::MAX,
{
    assert(0 <= w * h) by (nonlinear_arith)
        requires 0 <= w, 0 <= h;
    assert(w * h <= w * h * bits) by (nonlinear_arith)
        requires 0 <= w * h, 1 <= bits;
    assert((w * h * bits + 7) / 8 * glyph <= (w * h * bits + 7) / 8 * count) by (nonlinear_arith)
        requires 0 <= (w * h * bits + 7) / 8, glyph < count;
    assert((w * h * bits + 7) / 8 * 1 <= (w * h * bits + 7) / 8 * count) by (nonlinear_arith)
        requires 0 <= (w * h * bits + 7) / 8, 1 <= count;
}

} // verus!
