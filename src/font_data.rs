use vstd::prelude::*;
use core::ops::RangeInclusive;
use crate::buf::bytes_for;
use crate::color::BW;
use crate::def::{field_of, ColorGet, ColorSet};
use crate::format::BW1;
use crate::image::{pack_colors, packed};

verus! {

/// Bounding box of a glyph
#[derive(Debug, Clone, Copy, PartialEq, Eq, Hash, Structural)]
pub struct Rect {
    pub x: i32,
    pub y: i32,
    pub w: i32,
    pub h: i32,
}

/// A glyph's bounding box and the offset of its first pixel byte
#[derive(Debug, Clone, Copy, PartialEq, Eq)]
pub struct GlyphData {
    pub rect: Rect,
    pub off: usize,
}

/// Glyph tables of a font as they are embedded
pub struct FontData {
    pub codes: Vec<RangeInclusive<u32>>,
    pub glyphs: Vec<GlyphData>,
    pub pixels: Vec<u8>,
}

pub open spec fn min4(a: i32, b: i32, c: i32, d: i32) -> i32 {
    let ab = if a < b { a } else { b };
    let cd = if c < d { c } else { d };
    if ab < cd { ab } else { cd }
}

pub open spec fn max4(a: i32, b: i32, c: i32, d: i32) -> i32 {
    let ab = if a > b { a } else { b };
    let cd = if c > d { c } else { d };
    if ab > cd { ab } else { cd }
}

/// Smallest of the coordinates and sizes of the first `n` glyphs.
pub open spec fn dims_min(glyphs: Seq<GlyphData>, n: nat) -> i32
    decreases n,
{
    let r = glyphs[n - 1].rect;
    if n <= 1 {
        min4(r.x, r.y, r.w, r.h)
    } else {
        let m = dims_min(glyphs, (n - 1) as nat);
        let here = min4(r.x, r.y, r.w, r.h);
        if m < here { m } else { here }
    }
}

/// Largest of the coordinates and sizes of the first `n` glyphs.
pub open spec fn dims_max(glyphs: Seq<GlyphData>, n: nat) -> i32
    decreases n,
{
    let r = glyphs[n - 1].rect;
    if n <= 1 {
        max4(r.x, r.y, r.w, r.h)
    } else {
        let m = dims_max(glyphs, (n - 1) as nat);
        let here = max4(r.x, r.y, r.w, r.h);
        if m > here { m } else { here }
    }
}

/// Largest offset among the first `n` glyphs.
pub open spec fn offs_max(glyphs: Seq<GlyphData>, n: nat) -> usize
    decreases n,
{
    if n <= 1 {
        glyphs[0].off
    } else {
        let m = offs_max(glyphs, (n - 1) as nat);
        if m > glyphs[n - 1].off { m } else { glyphs[n - 1].off }
    }
}

/// Largest end among the first `n` code ranges.
pub open spec fn ends_max(codes: Seq<RangeInclusive<u32>>, n: nat) -> u32
    decreases n,
{
    if n <= 1 {
        codes[0]@.end
    } else {
        let m = ends_max(codes, (n - 1) as nat);
        if m > codes[n - 1]@.end { m } else { codes[n - 1]@.end }
    }
}

/// Whether one of the first `n` glyphs has the rectangle `rect`.
#[verifier::opaque]
pub open spec fn some_glyph_has(glyphs: Seq<GlyphData>, n: int, rect: Rect) -> bool {
    exists|j: int| 0 <= j < n && glyphs[j].rect == rect
}

/// Whether `kinds` holds `rect`.
#[verifier::opaque]
pub open spec fn lists(kinds: Seq<Rect>, rect: Rect) -> bool {
    exists|i: int| 0 <= i < kinds.len() && kinds[i] == rect
}

fn min_i32(a: i32, b: i32) -> (r: i32)
    ensures
        r == (if a < b { a } else { b }),
{
    if a < b { a } else { b }
}

fn max_i32(a: i32, b: i32) -> (r: i32)
    ensures
        r == (if a > b { a } else { b }),
{
    if a > b { a } else { b }
}

impl FontData {
    /// Determine distinct rectangle kinds for glyphs, in the order they first occur
    pub fn rect_kinds(&self) -> (r: Vec<Rect>)
        ensures
            forall|i: int, j: int| 0 <= i < j < r@.len() ==> r@[i] != r@[j],
            forall|i: int|
                0 <= i < r@.len() ==> #[trigger] some_glyph_has(
                    self.glyphs@,
                    self.glyphs@.len() as int,
                    r@[i],
                ),
            forall|g: int| 0 <= g < self.glyphs@.len() ==> lists(r@, #[trigger] self.glyphs@[g].rect),
    {
        let mut kinds: Vec<Rect> = Vec::new();
        let mut g: usize = 0;
        while g < self.glyphs.len()
            invariant
                g <= self.glyphs@.len(),
                forall|i: int, j: int| 0 <= i < j < kinds@.len() ==> kinds@[i] != kinds@[j],
                forall|i: int|
                    0 <= i < kinds@.len() ==> #[trigger] some_glyph_has(
                        self.glyphs@,
                        g as int,
                        kinds@[i],
                    ),
                forall|h: int| 0 <= h < g ==> lists(kinds@, #[trigger] self.glyphs@[h].rect),
            decreases self.glyphs@.len() - g,
        {
            let rect = self.glyphs[g].rect;
            let mut k: usize = 0;
            let mut seen = false;
            while k < kinds.len()
                invariant
                    k <= kinds@.len(),
                    seen ==> lists(kinds@, rect),
                    !seen ==> forall|i: int| 0 <= i < k ==> kinds@[i] != rect,
                decreases kinds@.len() - k,
            {
                if kinds[k] == rect {
                    proof {
                        reveal(lists);
                    }
                    seen = true;
                }
                k += 1;
            }
            let ghost before = kinds@;
            if !seen {
                kinds.push(rect);
                assert(kinds@[kinds@.len() - 1] == rect);
            }
            proof {
                reveal(lists);
                reveal(some_glyph_has);
                assert(forall|i: int| 0 <= i < before.len() ==> kinds@[i] == before[i]);
                assert(lists(kinds@, rect));
                assert forall|i: int| 0 <= i < kinds@.len() implies #[trigger] some_glyph_has(
                    self.glyphs@,
                    g + 1,
                    kinds@[i],
                ) by {
                    if i < before.len() {
                        assert(some_glyph_has(self.glyphs@, g as int, before[i]));
                        let j = choose|j: int| 0 <= j < g && self.glyphs@[j].rect == before[i];
                        assert(0 <= j < g + 1 && self.glyphs@[j].rect == kinds@[i]);
                    } else {
                        assert(self.glyphs@[g as int].rect == kinds@[i]);
                    }
                }
                assert forall|h: int| 0 <= h < g + 1 implies lists(
                    kinds@,
                    #[trigger] self.glyphs@[h].rect,
                ) by {
                    if h < g {
                        assert(lists(before, self.glyphs@[h].rect));
                        let i = choose|i: int| 0 <= i < before.len() && before[i] == self.glyphs@[h].rect;
                        assert(kinds@[i] == self.glyphs@[h].rect);
                    }
                }
            }
            g += 1;
        }
        kinds
    }

    /// The rectangle that every glyph shares, if there are glyphs and they share one
    pub fn shared_rect(&self) -> (r: Option<Rect>)
        ensures
            r matches Some(rect) ==> self.glyphs@.len() > 0 && forall|g: int|
                0 <= g < self.glyphs@.len() ==> #[trigger] self.glyphs@[g].rect == rect,
            r is None ==> self.glyphs@.len() == 0 || exists|g: int|
                0 <= g < self.glyphs@.len() && #[trigger] self.glyphs@[g].rect
                    != self.glyphs@[0].rect,
    {
        if self.glyphs.len() == 0 {
            return None;
        }
        let first = self.glyphs[0].rect;
        let mut g: usize = 1;
        while g < self.glyphs.len()
            invariant
                1 <= g <= self.glyphs@.len(),
                first == self.glyphs@[0].rect,
                forall|h: int| 0 <= h < g ==> #[trigger] self.glyphs@[h].rect == first,
            decreases self.glyphs@.len() - g,
        {
            if self.glyphs[g].rect != first {
                return None;
            }
            g += 1;
        }
        Some(first)
    }

    /// Determine dimension range: the minimum and maximum values of x, y, w and h.
    pub fn dim_range(&self) -> (r: Option<RangeInclusive<i32>>)
        ensures
            self.glyphs@.len() == 0 ==> r is None,
            self.glyphs@.len() > 0 ==> (r matches Some(range) && range@.start == dims_min(
                self.glyphs@,
                self.glyphs@.len(),
            ) && range@.end == dims_max(self.glyphs@, self.glyphs@.len())),
    {
        if self.glyphs.len() == 0 {
            return None;
        }
        let r0 = self.glyphs[0].rect;
        let mut lo = min_i32(min_i32(r0.x, r0.y), min_i32(r0.w, r0.h));
        let mut hi = max_i32(max_i32(r0.x, r0.y), max_i32(r0.w, r0.h));
        let mut g: usize = 1;
        while g < self.glyphs.len()
            invariant
                1 <= g <= self.glyphs@.len(),
                lo == dims_min(self.glyphs@, g as nat),
                hi == dims_max(self.glyphs@, g as nat),
            decreases self.glyphs@.len() - g,
        {
            let r = self.glyphs[g].rect;
            lo = min_i32(lo, min_i32(min_i32(r.x, r.y), min_i32(r.w, r.h)));
            hi = max_i32(hi, max_i32(max_i32(r.x, r.y), max_i32(r.w, r.h)));
            g += 1;
        }
        Some(RangeInclusive::new(lo, hi))
    }

    /// Determine maximum offset value
    pub fn max_off(&self) -> (r: Option<usize>)
        ensures
            self.glyphs@.len() == 0 ==> r is None,
            self.glyphs@.len() > 0 ==> r == Some(offs_max(self.glyphs@, self.glyphs@.len())),
    {
        if self.glyphs.len() == 0 {
            return None;
        }
        let mut value = self.glyphs[0].off;
        let mut g: usize = 1;
        while g < self.glyphs.len()
            invariant
                1 <= g <= self.glyphs@.len(),
                value == offs_max(self.glyphs@, g as nat),
            decreases self.glyphs@.len() - g,
        {
            if self.glyphs[g].off > value {
                value = self.glyphs[g].off;
            }
            g += 1;
        }
        Some(value)
    }

    /// Determine maximum char code
    pub fn max_code(&self) -> (r: Option<u32>)
        ensures
            self.codes@.len() == 0 ==> r is None,
            self.codes@.len() > 0 ==> r == Some(ends_max(self.codes@, self.codes@.len())),
    {
        if self.codes.len() == 0 {
            return None;
        }
        let mut value = *self.codes[0].end();
        let mut i: usize = 1;
        while i < self.codes.len()
            invariant
                1 <= i <= self.codes@.len(),
                value == ends_max(self.codes@, i as nat),
            decreases self.codes@.len() - i,
        {
            let end = *self.codes[i].end();
            if end > value {
                value = end;
            }
            i += 1;
        }
        Some(value)
    }
}

/// Whether `chr` is among the requested characters; no request selects every character.
pub open spec fn requested(chr: char, chars: Seq<RangeInclusive<char>>) -> bool {
    chars.len() == 0 || exists|i: int|
        0 <= i < chars.len() && (#[trigger] chars[i])@.start <= chr && chr <= chars[i]@.end
}

/// Whether `chr` is among the requested characters
pub fn char_in_chars(chr: char, chars: &[RangeInclusive<char>]) -> (r: bool)
    ensures
        r == requested(chr, chars@),
{
    if chars.len() == 0 {
        return true;
    }
    let mut i: usize = 0;
    while i < chars.len()
        invariant
            i <= chars@.len(),
            chars@.len() > 0,
            forall|k: int| 0 <= k < i ==> !((#[trigger] chars@[k])@.start <= chr && chr <= chars@[k]@.end),
        decreases chars@.len() - i,
    {
        if *chars[i].start() <= chr && chr <= *chars[i].end() {
            return true;
        }
        i += 1;
    }
    false
}

/// The codes `start ..= end`, in order.
pub open spec fn run(start: u32, end: u32) -> Seq<u32> {
    Seq::new((end - start + 1) as nat, |k: int| (start + k) as u32)
}

/// The codes of all ranges, range after range.
pub open spec fn flatten(ranges: Seq<RangeInclusive<u32>>) -> Seq<u32>
    decreases ranges.len(),
{
    if ranges.len() == 0 {
        Seq::empty()
    } else {
        flatten(ranges.drop_last()) + run(ranges.last()@.start, ranges.last()@.end)
    }
}

/// Whether the codes strictly increase.
pub open spec fn increasing(codes: Seq<u32>) -> bool {
    forall|i: int, j: int| 0 <= i < j < codes.len() ==> codes[i] < codes[j]
}

/// Groups strictly increasing codes into ranges of consecutive codes; a range
/// ends where the next code is not the one that follows it.
pub fn code_ranges(codes: &[u32]) -> (r: Vec<RangeInclusive<u32>>)
    requires
        increasing(codes@),
    ensures
        flatten(r@) == codes@,
        forall|i: int| 0 <= i < r@.len() ==> (#[trigger] r@[i])@.start <= r@[i]@.end,
        forall|i: int|
            0 <= i < r@.len() - 1 ==> (#[trigger] r@[i])@.end + 1 < r@[i + 1]@.start,
{
    let mut ranges: Vec<RangeInclusive<u32>> = Vec::new();
    if codes.len() == 0 {
        assert(codes@ =~= Seq::<u32>::empty());
        return ranges;
    }
    let mut start = codes[0];
    let mut last = codes[0];
    let mut i: usize = 1;
    assert(codes@.take(1) =~= run(start, last));
    while i < codes.len()
        invariant
            increasing(codes@),
            1 <= i <= codes@.len(),
            start <= last,
            last == codes@[i - 1],
            flatten(ranges@) + run(start, last) == codes@.take(i as int),
            forall|k: int| 0 <= k < ranges@.len() ==> (#[trigger] ranges@[k])@.start <= ranges@[k]@.end,
            forall|k: int|
                0 <= k < ranges@.len() - 1 ==> (#[trigger] ranges@[k])@.end + 1 < ranges@[k + 1]@.start,
            ranges@.len() > 0 ==> ranges@.last()@.end + 1 < start,
        decreases codes@.len() - i,
    {
        let code = codes[i];
        assert(codes@[i - 1] < codes@[i as int]);
        if code as u64 > last as u64 + 1 {
            let ghost before = ranges@;
            ranges.push(RangeInclusive::new(start, last));
            assert(ranges@.drop_last() =~= before);
            assert(flatten(ranges@) == flatten(before) + run(start, last));
            assert(codes@.take(i + 1) =~= codes@.take(i as int).push(code));
            assert(run(code, code) =~= seq![code]);
            assert(flatten(ranges@) + run(code, code) =~= codes@.take(i + 1));
            start = code;
        } else {
            assert(run(start, code) =~= run(start, last).push(code));
            assert(codes@.take(i + 1) =~= codes@.take(i as int).push(code));
            assert(flatten(ranges@) + run(start, code) =~= codes@.take(i + 1));
        }
        last = code;
        i += 1;
    }
    let ghost before = ranges@;
    ranges.push(RangeInclusive::new(start, last));
    assert(ranges@.drop_last() =~= before);
    assert(codes@.take(codes@.len() as int) =~= codes@);
    ranges
}

/// Packs a glyph bitmap, given row after row, one bit per pixel from the
/// least significant bit of each byte up.
pub fn glyph_bits(map: &[bool]) -> (r: Vec<u8>)
    requires
        map@.len() + 7 <= usize::MAX,
    ensures
        r@.len() == bytes_for(map@.len(), 1),
        forall|i: int| 0 <= i < map@.len() ==> (field_of(r@, i, 1) != 0) == map@[i],
{
    let mut colors: Vec<BW> = Vec::with_capacity(map.len());
    let mut i: usize = 0;
    while i < map.len()
        invariant
            i <= map@.len(),
            colors@.len() == i,
            forall|k: int| 0 <= k < i ==> colors@[k] == (BW { v: map@[k] }),
        decreases map@.len() - i,
    {
        colors.push(BW { v: map[i] });
        i += 1;
    }
    let r = pack_colors(BW1, colors.as_slice());
    assert forall|k: int| 0 <= k < map@.len() implies (field_of(r@, k, 1) != 0) == map@[k] by {
        assert(BW1.exact(colors@[k]));
    }
    r
}

/// Unsigned integer types that the embedded tables use
#[derive(Debug, Clone, Copy, PartialEq, Eq, Structural)]
pub enum UintType {
    U8,
    U16,
    U32,
}

/// Signed integer types that the embedded tables use
#[derive(Debug, Clone, Copy, PartialEq, Eq, Structural)]
pub enum IntType {
    I8,
    I16,
    I32,
}

/// The smallest unsigned type that holds `max`
pub fn uint_type_for_value(max: u32) -> (r: UintType)
    ensures
        r == (if max <= u8::MAX {
            UintType::U8
        } else if max <= u16::MAX {
            UintType::U16
        } else {
            UintType::U32
        }),
{
    if max <= u8::MAX as u32 {
        UintType::U8
    } else if max <= u16::MAX as u32 {
        UintType::U16
    } else {
        UintType::U32
    }
}

/// The smallest signed type that holds every value of `range`
pub fn int_type_for_range(range: RangeInclusive<i32>) -> (r: IntType)
    ensures
        r == (if i8::MIN <= range@.start && range@.end <= i8::MAX {
            IntType::I8
        } else if i16::MIN <= range@.start && range@.end <= i16::MAX {
            IntType::I16
        } else {
            IntType::I32
        }),
{
    let min = *range.start();
    let max = *range.end();
    if min >= i8::MIN as i32 && max <= i8::MAX as i32 {
        IntType::I8
    } else if min >= i16::MIN as i32 && max <= i16::MAX as i32 {
        IntType::I16
    } else {
        IntType::I32
    }
}

/// Whether `code` is a Unicode scalar value, the codes that `char` holds.
pub open spec fn is_scalar(code: u32) -> bool {
    code <= 0x10ffff && !(0xd800 <= code <= 0xdfff)
}

/// Relies on `char::from_u32`: it returns the character of a Unicode scalar
/// value and `None` for any other code.
pub assume_specification[ char::from_u32 ](i: u32) -> (r: Option<char>)
    ensures
        r is Some <==> is_scalar(i),
        r matches Some(c) ==> c as u32 == i,
;

/// Characters requested for a font: one character, or a range whose end is
/// included or not
#[derive(Debug, Clone, Copy, PartialEq, Eq)]
pub enum FontChars {
    Char(char),
    Range(char, char, bool),
}

impl FontChars {
    /// Whether the range is written so that its last character exists.
    pub open spec fn well_formed(&self) -> bool {
        match *self {
            FontChars::Range(_, last, false) => last as u32 >= 1 && is_scalar((last as u32 - 1) as u32),
            _ => true,
        }
    }

    /// The requested characters as an inclusive range
    pub fn range(&self) -> (r: RangeInclusive<char>)
        requires
            self.well_formed(),
        ensures
            *self matches FontChars::Char(c) ==> r@.start == c && r@.end == c,
            *self matches FontChars::Range(init, last, true) ==> r@.start == init && r@.end == last,
            *self matches FontChars::Range(init, last, false) ==> r@.start == init && r@.end as u32
                == last as u32 - 1,
    {
        match *self {
            FontChars::Char(chr) => RangeInclusive::new(chr, chr),
            FontChars::Range(init_chr, last_chr, inclusive) => {
                let last_chr = if inclusive {
                    last_chr
                } else {
                    match char::from_u32(last_chr as u32 - 1) {
                        Some(c) => c,
                        None => last_chr,
                    }
                };
                RangeInclusive::new(init_chr, last_chr)
            },
        }
    }
}

} // verus!
