use vstd::prelude::*;

verus! {

/// The point type
#[derive(Debug, Clone, Copy, PartialEq, Eq, Default)]
pub struct Point<Dim> {
    /// Horizontal coordinate
    pub x: Dim,
    /// Vertical coordinate
    pub y: Dim,
}

impl<Dim> Point<Dim> {
    pub fn new(x: Dim, y: Dim) -> (r: Self)
        ensures
            r.x == x,
            r.y == y,
    {
        Point { x, y }
    }
}

impl<Dim> From<(Dim, Dim)> for Point<Dim> {
    fn from(xy: (Dim, Dim)) -> (r: Self)
        ensures
            r == (Point { x: xy.0, y: xy.1 }),
    {
        Point { x: xy.0, y: xy.1 }
    }
}

impl<Dim> vstd::std_specs::convert::FromSpecImpl<(Dim, Dim)> for Point<Dim> {
    open spec fn obeys_from_spec() -> bool {
        true
    }

    open spec fn from_spec(xy: (Dim, Dim)) -> Point<Dim> {
        Point { x: xy.0, y: xy.1 }
    }
}

/// The size type
#[derive(Debug, Clone, Copy, PartialEq, Eq, Default)]
pub struct Size<Dim> {
    /// Width
    pub w: Dim,
    /// Height
    pub h: Dim,
}

impl<Dim> Size<Dim> {
    pub fn new(w: Dim, h: Dim) -> (r: Self)
        ensures
            r.w == w,
            r.h == h,
    {
        Size { w, h }
    }
}

impl Size<usize> {
    /// Whether the size covers no pixel
    pub fn is_collapsed(&self) -> (r: bool)
        ensures
            r == (self.w == 0 || self.h == 0),
    {
        self.w == 0 || self.h == 0
    }

    /// Number of pixels covered
    pub fn area(&self) -> (r: usize)
        requires
            self.w * self.h <= usize::MAX,
        ensures
            r == self.w * self.h,
    {
        self.w * self.h
    }
}

impl Size<i32> {
    /// Conversion of a size whose sides are not negative
    pub fn as_usize(&self) -> (r: Size<usize>)
        requires
            self.w >= 0,
            self.h >= 0,
        ensures
            r.w == self.w,
            r.h == self.h,
    {
        Size { w: self.w as usize, h: self.h as usize }
    }
}

impl<Dim> From<(Dim, Dim)> for Size<Dim> {
    fn from(wh: (Dim, Dim)) -> (r: Self)
        ensures
            r == (Size { w: wh.0, h: wh.1 }),
    {
        Size { w: wh.0, h: wh.1 }
    }
}

impl<Dim> vstd::std_specs::convert::FromSpecImpl<(Dim, Dim)> for Size<Dim> {
    open spec fn obeys_from_spec() -> bool {
        true
    }

    open spec fn from_spec(wh: (Dim, Dim)) -> Size<Dim> {
        Size { w: wh.0, h: wh.1 }
    }
}

/// Rectangle given by its left top point and its size
#[derive(Debug, Clone, Copy, PartialEq, Eq, Default)]
pub struct Rect<Dim> {
    /// Left top point
    pub point: Point<Dim>,
    /// Size
    pub size: Size<Dim>,
}

impl<Dim> Rect<Dim> {
    pub fn new(point: Point<Dim>, size: Size<Dim>) -> (r: Self)
        ensures
            r.point == point,
            r.size == size,
    {
        Rect { point, size }
    }
}

/// Whether the sums of `x` and `w`, and of `y` and `h`, fit in `i32`.
pub open spec fn fits_i32(x: int, y: int, w: int, h: int) -> bool {
    i32::MIN <= x + w <= i32::MAX && i32::MIN <= y + h <= i32::MAX
}

impl Rect<i32> {
    pub fn size(&self) -> (r: Size<i32>)
        ensures
            r == self.size,
    {
        self.size
    }

    pub fn left(&self) -> (r: i32)
        ensures
            r == self.point.x,
    {
        self.point.x
    }

    pub fn top(&self) -> (r: i32)
        ensures
            r == self.point.y,
    {
        self.point.y
    }

    pub fn right(&self) -> (r: i32)
        requires
            fits_i32(self.point.x as int, self.point.y as int, self.size.w as int, self.size.h as int),
        ensures
            r == self.point.x + self.size.w,
    {
        self.point.x + self.size.w
    }

    pub fn bottom(&self) -> (r: i32)
        requires
            fits_i32(self.point.x as int, self.point.y as int, self.size.w as int, self.size.h as int),
        ensures
            r == self.point.y + self.size.h,
    {
        self.point.y + self.size.h
    }

    pub fn left_top(&self) -> (r: Point<i32>)
        ensures
            r == self.point,
    {
        self.point
    }

    pub fn left_bottom(&self) -> (r: Point<i32>)
        requires
            fits_i32(self.point.x as int, self.point.y as int, self.size.w as int, self.size.h as int),
        ensures
            r.x == self.point.x,
            r.y == self.point.y + self.size.h,
    {
        Point::new(self.point.x, self.bottom())
    }

    pub fn right_top(&self) -> (r: Point<i32>)
        requires
            fits_i32(self.point.x as int, self.point.y as int, self.size.w as int, self.size.h as int),
        ensures
            r.x == self.point.x + self.size.w,
            r.y == self.point.y,
    {
        Point::new(self.right(), self.point.y)
    }

    pub fn right_bottom(&self) -> (r: Point<i32>)
        requires
            fits_i32(self.point.x as int, self.point.y as int, self.size.w as int, self.size.h as int),
        ensures
            r.x == self.point.x + self.size.w,
            r.y == self.point.y + self.size.h,
    {
        Point::new(self.right(), self.bottom())
    }

    /// Whether the rectangle covers no pixel
    pub fn is_collapsed(&self) -> (r: bool)
        ensures
            r == (self.size.w == 0 || self.size.h == 0),
    {
        self.size.w == 0 || self.size.h == 0
    }

    /// The point relative to the left top corner of the rectangle
    pub fn to_local(&self, point: Point<i32>) -> (r: Point<i32>)
        requires
            fits_i32(point.x as int, point.y as int, -self.point.x, -self.point.y),
        ensures
            r.x == point.x - self.point.x,
            r.y == point.y - self.point.y,
    {
        Point::new(point.x - self.point.x, point.y - self.point.y)
    }

    /// The point given relative to the left top corner, in the outer coordinates
    pub fn to_global(&self, point: Point<i32>) -> (r: Point<i32>)
        requires
            fits_i32(point.x as int, point.y as int, self.point.x as int, self.point.y as int),
        ensures
            r.x == point.x + self.point.x,
            r.y == point.y + self.point.y,
    {
        Point::new(point.x + self.point.x, point.y + self.point.y)
    }
}

/// Area given by its left top and right bottom points
#[derive(Debug, Clone, Copy, PartialEq, Eq, Default)]
pub struct Area<Dim> {
    /// Left top point
    pub lt: Point<Dim>,
    /// Right bottom point
    pub rb: Point<Dim>,
}

impl<Dim> Area<Dim> {
    pub fn new(lt: Point<Dim>, rb: Point<Dim>) -> (r: Self)
        ensures
            r.lt == lt,
            r.rb == rb,
    {
        Area { lt, rb }
    }
}

pub open spec fn min_i32(a: i32, b: i32) -> i32 {
    if a < b {
        a
    } else {
        b
    }
}

pub open spec fn max_i32(a: i32, b: i32) -> i32 {
    if a > b {
        a
    } else {
        b
    }
}

impl Area<i32> {
    pub fn size(&self) -> (r: Size<i32>)
        requires
            fits_i32(self.rb.x as int, self.rb.y as int, -self.lt.x, -self.lt.y),
        ensures
            r.w == self.rb.x - self.lt.x,
            r.h == self.rb.y - self.lt.y,
    {
        Size::new(self.rb.x - self.lt.x, self.rb.y - self.lt.y)
    }

    /// Whether the area covers no point
    pub fn is_empty(&self) -> (r: bool)
        ensures
            r == (self.lt.x >= self.rb.x || self.lt.y >= self.rb.y),
    {
        self.lt.x >= self.rb.x || self.lt.y >= self.rb.y
    }
}

/// The intersection of two areas.
pub open spec fn intersection(a: Area<i32>, b: Area<i32>) -> Area<i32> {
    Area {
        lt: Point { x: max_i32(a.lt.x, b.lt.x), y: max_i32(a.lt.y, b.lt.y) },
        rb: Point { x: min_i32(a.rb.x, b.rb.x), y: min_i32(a.rb.y, b.rb.y) },
    }
}

/// The smallest area that covers two areas.
pub open spec fn cover(a: Area<i32>, b: Area<i32>) -> Area<i32> {
    Area {
        lt: Point { x: min_i32(a.lt.x, b.lt.x), y: min_i32(a.lt.y, b.lt.y) },
        rb: Point { x: max_i32(a.rb.x, b.rb.x), y: max_i32(a.rb.y, b.rb.y) },
    }
}

impl std::ops::BitAnd for Area<i32> {
    type Output = Area<i32>;

    /// The intersection of two areas
    fn bitand(self, other: Area<i32>) -> (r: Area<i32>)
        ensures
            r == intersection(self, other),
    {
        let mut r = self;
        if r.lt.x < other.lt.x {
            r.lt.x = other.lt.x;
        }
        if r.lt.y < other.lt.y {
            r.lt.y = other.lt.y;
        }
        if r.rb.x > other.rb.x {
            r.rb.x = other.rb.x;
        }
        if r.rb.y > other.rb.y {
            r.rb.y = other.rb.y;
        }
        r
    }
}

impl std::ops::BitOr for Area<i32> {
    type Output = Area<i32>;

    /// The smallest area that covers both areas
    fn bitor(self, other: Area<i32>) -> (r: Area<i32>)
        ensures
            r == cover(self, other),
    {
        let mut r = self;
        if r.lt.x > other.lt.x {
            r.lt.x = other.lt.x;
        }
        if r.lt.y > other.lt.y {
            r.lt.y = other.lt.y;
        }
        if r.rb.x < other.rb.x {
            r.rb.x = other.rb.x;
        }
        if r.rb.y < other.rb.y {
            r.rb.y = other.rb.y;
        }
        r
    }
}

impl vstd::std_specs::ops::BitAndSpecImpl for Area<i32> {
    open spec fn obeys_bitand_spec() -> bool {
        true
    }

    open spec fn bitand_req(self, other: Area<i32>) -> bool {
        true
    }

    open spec fn bitand_spec(self, other: Area<i32>) -> Area<i32> {
        intersection(self, other)
    }
}

impl vstd::std_specs::ops::BitOrSpecImpl for Area<i32> {
    open spec fn obeys_bitor_spec() -> bool {
        true
    }

    open spec fn bitor_req(self, other: Area<i32>) -> bool {
        true
    }

    open spec fn bitor_spec(self, other: Area<i32>) -> Area<i32> {
        cover(self, other)
    }
}

impl<Dim> From<(Dim, Dim, Dim, Dim)> for Area<Dim> {
    fn from(ltrb: (Dim, Dim, Dim, Dim)) -> (r: Self)
        ensures
            r == (Area { lt: Point { x: ltrb.0, y: ltrb.1 }, rb: Point { x: ltrb.2, y: ltrb.3 } }),
    {
        Area { lt: Point { x: ltrb.0, y: ltrb.1 }, rb: Point { x: ltrb.2, y: ltrb.3 } }
    }
}

impl<Dim> vstd::std_specs::convert::FromSpecImpl<(Dim, Dim, Dim, Dim)> for Area<Dim> {
    open spec fn obeys_from_spec() -> bool {
        true
    }

    open spec fn from_spec(ltrb: (Dim, Dim, Dim, Dim)) -> Area<Dim> {
        Area { lt: Point { x: ltrb.0, y: ltrb.1 }, rb: Point { x: ltrb.2, y: ltrb.3 } }
    }
}

} // verus!
