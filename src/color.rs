use vstd::prelude::*;

verus! {

/// Gray level of an RGB triple: the truncated mean of the three channels.
pub open spec fn gray_of(r: u8, g: u8, b: u8) -> u8 {
    ((r + g + b) / 3) as u8
}

/// Truncated mean of three channels.
fn mean3(r: u8, g: u8, b: u8) -> (v: u8)
    ensures
        v == gray_of(r, g, b),
{
    ((r as u16 + g as u16 + b as u16) / 3) as u8
}

/// Color values compared channel by channel
pub trait ColorValue: Sized + Copy {
    /// Whether both colors have the same channels
    fn same(&self, other: &Self) -> (r: bool)
        ensures
            r == (*self == *other),
    ;
}

impl ColorValue for u8 {
    fn same(&self, other: &u8) -> (r: bool) {
        *self == *other
    }
}

/// Black and white color
#[derive(Debug, Clone, Copy, PartialEq, Eq, Structural)]
pub struct BW {
    pub v: bool,
}

/// Grayscale
#[derive(Debug, Clone, Copy, PartialEq, Eq, Structural)]
pub struct GS {
    pub v: u8,
}

impl GS {
    pub fn new(v: u8) -> (c: Self)
        ensures
            c == (GS { v }),
    {
        GS { v }
    }
}

/// Grayscale with alpha
#[derive(Debug, Clone, Copy, PartialEq, Eq, Structural)]
pub struct GSA {
    pub v: u8,
    pub a: u8,
}

impl GSA {
    pub fn new(v: u8, a: u8) -> (c: Self)
        ensures
            c == (GSA { v, a }),
    {
        GSA { v, a }
    }
}

/// RGB
#[derive(Debug, Clone, Copy, PartialEq, Eq, Structural)]
pub struct RGB {
    pub r: u8,
    pub g: u8,
    pub b: u8,
}

impl RGB {
    /// Create RGB color from components
    pub fn new(r: u8, g: u8, b: u8) -> (c: Self)
        ensures
            c == (RGB { r, g, b }),
    {
        RGB { r, g, b }
    }
}

/// RGB with alpha
#[derive(Debug, Clone, Copy, PartialEq, Eq, Structural)]
pub struct RGBA {
    pub r: u8,
    pub g: u8,
    pub b: u8,
    pub a: u8,
}

impl RGBA {
    /// Create RGBA color from components
    pub fn new(r: u8, g: u8, b: u8, a: u8) -> (c: Self)
        ensures
            c == (RGBA { r, g, b, a }),
    {
        RGBA { r, g, b, a }
    }
}

impl ColorValue for BW {
    fn same(&self, other: &BW) -> (r: bool) {
        *self == *other
    }
}

impl ColorValue for GS {
    fn same(&self, other: &GS) -> (r: bool) {
        *self == *other
    }
}

impl ColorValue for GSA {
    fn same(&self, other: &GSA) -> (r: bool) {
        *self == *other
    }
}

impl ColorValue for RGB {
    fn same(&self, other: &RGB) -> (r: bool) {
        *self == *other
    }
}

impl ColorValue for RGBA {
    fn same(&self, other: &RGBA) -> (r: bool) {
        *self == *other
    }
}

impl Default for BW {
    fn default() -> (c: Self)
        ensures
            c == (BW { v: false }),
    {
        BW { v: false }
    }
}

impl Default for GS {
    fn default() -> (c: Self)
        ensures
            c == (GS { v: 0 }),
    {
        GS { v: 0 }
    }
}

impl Default for GSA {
    fn default() -> (c: Self)
        ensures
            c == (GSA { v: 0, a: 255 }),
    {
        GSA { v: 0, a: 255 }
    }
}

impl Default for RGB {
    fn default() -> (c: Self)
        ensures
            c == (RGB { r: 0, g: 0, b: 0 }),
    {
        RGB { r: 0, g: 0, b: 0 }
    }
}

impl Default for RGBA {
    fn default() -> (c: Self)
        ensures
            c == (RGBA { r: 0, g: 0, b: 0, a: 255 }),
    {
        RGBA { r: 0, g: 0, b: 0, a: 255 }
    }
}

impl From<bool> for BW {
    fn from(v: bool) -> (r: Self)
        ensures
            r == (BW { v }),
    {
        BW { v }
    }
}

impl vstd::std_specs::convert::FromSpecImpl<bool> for BW {
    open spec fn obeys_from_spec() -> bool {
        true
    }

    open spec fn from_spec(v: bool) -> BW {
        BW { v }
    }
}

impl From<BW> for bool {
    fn from(c: BW) -> (r: Self)
        ensures
            r == c.v,
    {
        c.v
    }
}

impl vstd::std_specs::convert::FromSpecImpl<BW> for bool {
    open spec fn obeys_from_spec() -> bool {
        true
    }

    open spec fn from_spec(c: BW) -> bool {
        c.v
    }
}

impl From<u8> for GS {
    fn from(v: u8) -> (r: Self)
        ensures
            r == (GS { v }),
    {
        GS { v }
    }
}

impl vstd::std_specs::convert::FromSpecImpl<u8> for GS {
    open spec fn obeys_from_spec() -> bool {
        true
    }

    open spec fn from_spec(v: u8) -> GS {
        GS { v }
    }
}

impl From<GS> for u8 {
    fn from(c: GS) -> (r: Self)
        ensures
            r == c.v,
    {
        c.v
    }
}

impl vstd::std_specs::convert::FromSpecImpl<GS> for u8 {
    open spec fn obeys_from_spec() -> bool {
        true
    }

    open spec fn from_spec(c: GS) -> u8 {
        c.v
    }
}

impl From<(u8, u8)> for GSA {
    fn from(t: (u8, u8)) -> (r: Self)
        ensures
            r == (GSA { v: t.0, a: t.1 }),
    {
        GSA { v: t.0, a: t.1 }
    }
}

impl vstd::std_specs::convert::FromSpecImpl<(u8, u8)> for GSA {
    open spec fn obeys_from_spec() -> bool {
        true
    }

    open spec fn from_spec(t: (u8, u8)) -> GSA {
        GSA { v: t.0, a: t.1 }
    }
}

impl From<GSA> for (u8, u8) {
    fn from(c: GSA) -> (r: Self)
        ensures
            r == (c.v, c.a),
    {
        (c.v, c.a)
    }
}

impl vstd::std_specs::convert::FromSpecImpl<GSA> for (u8, u8) {
    open spec fn obeys_from_spec() -> bool {
        true
    }

    open spec fn from_spec(c: GSA) -> (u8, u8) {
        (c.v, c.a)
    }
}

impl From<u8> for GSA {
    fn from(v: u8) -> (r: Self)
        ensures
            r == (GSA { v, a: 255 }),
    {
        GSA { v, a: 255 }
    }
}

impl vstd::std_specs::convert::FromSpecImpl<u8> for GSA {
    open spec fn obeys_from_spec() -> bool {
        true
    }

    open spec fn from_spec(v: u8) -> GSA {
        GSA { v, a: 255 }
    }
}

impl From<GSA> for u8 {
    fn from(c: GSA) -> (r: Self)
        ensures
            r == c.v,
    {
        c.v
    }
}

impl vstd::std_specs::convert::FromSpecImpl<GSA> for u8 {
    open spec fn obeys_from_spec() -> bool {
        true
    }

    open spec fn from_spec(c: GSA) -> u8 {
        c.v
    }
}

impl From<GS> for GSA {
    fn from(c: GS) -> (r: Self)
        ensures
            r == (GSA { v: c.v, a: 255 }),
    {
        GSA { v: c.v, a: 255 }
    }
}

impl vstd::std_specs::convert::FromSpecImpl<GS> for GSA {
    open spec fn obeys_from_spec() -> bool {
        true
    }

    open spec fn from_spec(c: GS) -> GSA {
        GSA { v: c.v, a: 255 }
    }
}

impl From<GSA> for GS {
    fn from(c: GSA) -> (r: Self)
        ensures
            r == (GS { v: c.v }),
    {
        GS { v: c.v }
    }
}

impl vstd::std_specs::convert::FromSpecImpl<GSA> for GS {
    open spec fn obeys_from_spec() -> bool {
        true
    }

    open spec fn from_spec(c: GSA) -> GS {
        GS { v: c.v }
    }
}

impl From<(u8, u8, u8)> for RGB {
    fn from(t: (u8, u8, u8)) -> (r: Self)
        ensures
            r == (RGB { r: t.0, g: t.1, b: t.2 }),
    {
        RGB { r: t.0, g: t.1, b: t.2 }
    }
}

impl vstd::std_specs::convert::FromSpecImpl<(u8, u8, u8)> for RGB {
    open spec fn obeys_from_spec() -> bool {
        true
    }

    open spec fn from_spec(t: (u8, u8, u8)) -> RGB {
        RGB { r: t.0, g: t.1, b: t.2 }
    }
}

impl From<RGB> for (u8, u8, u8) {
    fn from(c: RGB) -> (r: Self)
        ensures
            r == (c.r, c.g, c.b),
    {
        (c.r, c.g, c.b)
    }
}

impl vstd::std_specs::convert::FromSpecImpl<RGB> for (u8, u8, u8) {
    open spec fn obeys_from_spec() -> bool {
        true
    }

    open spec fn from_spec(c: RGB) -> (u8, u8, u8) {
        (c.r, c.g, c.b)
    }
}

impl From<u8> for RGB {
    fn from(v: u8) -> (r: Self)
        ensures
            r == (RGB { r: v, g: v, b: v }),
    {
        RGB { r: v, g: v, b: v }
    }
}

impl vstd::std_specs::convert::FromSpecImpl<u8> for RGB {
    open spec fn obeys_from_spec() -> bool {
        true
    }

    open spec fn from_spec(v: u8) -> RGB {
        RGB { r: v, g: v, b: v }
    }
}

impl From<RGB> for u8 {
    fn from(c: RGB) -> (r: Self)
        ensures
            r == gray_of(c.r, c.g, c.b),
    {
        mean3(c.r, c.g, c.b)
    }
}

impl vstd::std_specs::convert::FromSpecImpl<RGB> for u8 {
    open spec fn obeys_from_spec() -> bool {
        true
    }

    open spec fn from_spec(c: RGB) -> u8 {
        gray_of(c.r, c.g, c.b)
    }
}

impl From<GS> for RGB {
    fn from(c: GS) -> (r: Self)
        ensures
            r == (RGB { r: c.v, g: c.v, b: c.v }),
    {
        RGB { r: c.v, g: c.v, b: c.v }
    }
}

impl vstd::std_specs::convert::FromSpecImpl<GS> for RGB {
    open spec fn obeys_from_spec() -> bool {
        true
    }

    open spec fn from_spec(c: GS) -> RGB {
        RGB { r: c.v, g: c.v, b: c.v }
    }
}

impl From<RGB> for GS {
    fn from(c: RGB) -> (r: Self)
        ensures
            r == (GS { v: gray_of(c.r, c.g, c.b) }),
    {
        GS { v: mean3(c.r, c.g, c.b) }
    }
}

impl vstd::std_specs::convert::FromSpecImpl<RGB> for GS {
    open spec fn obeys_from_spec() -> bool {
        true
    }

    open spec fn from_spec(c: RGB) -> GS {
        GS { v: gray_of(c.r, c.g, c.b) }
    }
}

impl From<(u8, u8, u8, u8)> for RGBA {
    fn from(t: (u8, u8, u8, u8)) -> (r: Self)
        ensures
            r == (RGBA { r: t.0, g: t.1, b: t.2, a: t.3 }),
    {
        RGBA { r: t.0, g: t.1, b: t.2, a: t.3 }
    }
}

impl vstd::std_specs::convert::FromSpecImpl<(u8, u8, u8, u8)> for RGBA {
    open spec fn obeys_from_spec() -> bool {
        true
    }

    open spec fn from_spec(t: (u8, u8, u8, u8)) -> RGBA {
        RGBA { r: t.0, g: t.1, b: t.2, a: t.3 }
    }
}

impl From<RGBA> for (u8, u8, u8, u8) {
    fn from(c: RGBA) -> (r: Self)
        ensures
            r == (c.r, c.g, c.b, c.a),
    {
        (c.r, c.g, c.b, c.a)
    }
}

impl vstd::std_specs::convert::FromSpecImpl<RGBA> for (u8, u8, u8, u8) {
    open spec fn obeys_from_spec() -> bool {
        true
    }

    open spec fn from_spec(c: RGBA) -> (u8, u8, u8, u8) {
        (c.r, c.g, c.b, c.a)
    }
}

impl From<(u8, u8, u8)> for RGBA {
    fn from(t: (u8, u8, u8)) -> (r: Self)
        ensures
            r == (RGBA { r: t.0, g: t.1, b: t.2, a: 255 }),
    {
        RGBA { r: t.0, g: t.1, b: t.2, a: 255 }
    }
}

impl vstd::std_specs::convert::FromSpecImpl<(u8, u8, u8)> for RGBA {
    open spec fn obeys_from_spec() -> bool {
        true
    }

    open spec fn from_spec(t: (u8, u8, u8)) -> RGBA {
        RGBA { r: t.0, g: t.1, b: t.2, a: 255 }
    }
}

impl From<RGBA> for (u8, u8, u8) {
    fn from(c: RGBA) -> (r: Self)
        ensures
            r == (c.r, c.g, c.b),
    {
        (c.r, c.g, c.b)
    }
}

impl vstd::std_specs::convert::FromSpecImpl<RGBA> for (u8, u8, u8) {
    open spec fn obeys_from_spec() -> bool {
        true
    }

    open spec fn from_spec(c: RGBA) -> (u8, u8, u8) {
        (c.r, c.g, c.b)
    }
}

impl From<u8> for RGBA {
    fn from(v: u8) -> (r: Self)
        ensures
            r == (RGBA { r: v, g: v, b: v, a: 255 }),
    {
        RGBA { r: v, g: v, b: v, a: 255 }
    }
}

impl vstd::std_specs::convert::FromSpecImpl<u8> for RGBA {
    open spec fn obeys_from_spec() -> bool {
        true
    }

    open spec fn from_spec(v: u8) -> RGBA {
        RGBA { r: v, g: v, b: v, a: 255 }
    }
}

impl From<RGBA> for u8 {
    fn from(c: RGBA) -> (r: Self)
        ensures
            r == gray_of(c.r, c.g, c.b),
    {
        mean3(c.r, c.g, c.b)
    }
}

impl vstd::std_specs::convert::FromSpecImpl<RGBA> for u8 {
    open spec fn obeys_from_spec() -> bool {
        true
    }

    open spec fn from_spec(c: RGBA) -> u8 {
        gray_of(c.r, c.g, c.b)
    }
}

impl From<GS> for RGBA {
    fn from(c: GS) -> (r: Self)
        ensures
            r == (RGBA { r: c.v, g: c.v, b: c.v, a: 255 }),
    {
        RGBA { r: c.v, g: c.v, b: c.v, a: 255 }
    }
}

impl vstd::std_specs::convert::FromSpecImpl<GS> for RGBA {
    open spec fn obeys_from_spec() -> bool {
        true
    }

    open spec fn from_spec(c: GS) -> RGBA {
        RGBA { r: c.v, g: c.v, b: c.v, a: 255 }
    }
}

impl From<RGBA> for GS {
    fn from(c: RGBA) -> (r: Self)
        ensures
            r == (GS { v: gray_of(c.r, c.g, c.b) }),
    {
        GS { v: mean3(c.r, c.g, c.b) }
    }
}

impl vstd::std_specs::convert::FromSpecImpl<RGBA> for GS {
    open spec fn obeys_from_spec() -> bool {
        true
    }

    open spec fn from_spec(c: RGBA) -> GS {
        GS { v: gray_of(c.r, c.g, c.b) }
    }
}

impl From<GSA> for RGBA {
    fn from(c: GSA) -> (r: Self)
        ensures
            r == (RGBA { r: c.v, g: c.v, b: c.v, a: c.a }),
    {
        RGBA { r: c.v, g: c.v, b: c.v, a: c.a }
    }
}

impl vstd::std_specs::convert::FromSpecImpl<GSA> for RGBA {
    open spec fn obeys_from_spec() -> bool {
        true
    }

    open spec fn from_spec(c: GSA) -> RGBA {
        RGBA { r: c.v, g: c.v, b: c.v, a: c.a }
    }
}

impl From<RGBA> for GSA {
    fn from(c: RGBA) -> (r: Self)
        ensures
            r == (GSA { v: gray_of(c.r, c.g, c.b), a: c.a }),
    {
        GSA { v: mean3(c.r, c.g, c.b), a: c.a }
    }
}

impl vstd::std_specs::convert::FromSpecImpl<RGBA> for GSA {
    open spec fn obeys_from_spec() -> bool {
        true
    }

    open spec fn from_spec(c: RGBA) -> GSA {
        GSA { v: gray_of(c.r, c.g, c.b), a: c.a }
    }
}

impl From<RGB> for RGBA {
    fn from(c: RGB) -> (r: Self)
        ensures
            r == (RGBA { r: c.r, g: c.g, b: c.b, a: 255 }),
    {
        RGBA { r: c.r, g: c.g, b: c.b, a: 255 }
    }
}

impl vstd::std_specs::convert::FromSpecImpl<RGB> for RGBA {
    open spec fn obeys_from_spec() -> bool {
        true
    }

    open spec fn from_spec(c: RGB) -> RGBA {
        RGBA { r: c.r, g: c.g, b: c.b, a: 255 }
    }
}

impl From<RGBA> for RGB {
    fn from(c: RGBA) -> (r: Self)
        ensures
            r == (RGB { r: c.r, g: c.g, b: c.b }),
    {
        RGB { r: c.r, g: c.g, b: c.b }
    }
}

impl vstd::std_specs::convert::FromSpecImpl<RGBA> for RGB {
    open spec fn obeys_from_spec() -> bool {
        true
    }

    open spec fn from_spec(c: RGBA) -> RGB {
        RGB { r: c.r, g: c.g, b: c.b }
    }
}

} // verus!
