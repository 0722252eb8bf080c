use vstd::prelude::*;
use crate::buf::{ColorBuf, ColorBufMut};
use crate::def::{ColorFmt, ColorGet, ColorSet};
use crate::geom::{Point, Size};

verus! {

/// Linear index of `point` in a row-major pixel map of the given size:
/// `x + y * width`.
pub open spec fn pixel_index(point: Point<usize>, size: Size<usize>) -> int {
    point.x + point.y * size.w
}

/// Two-dimensional view of a color buffer, pixels stored row after row
pub struct PixelView<Buf> {
    size: Size<usize>,
    data: Buf,
}

impl<Buf: ColorBuf> PixelView<Buf> {
    /// The viewed buffer
    pub closed spec fn buffer(&self) -> Buf {
        self.data
    }

    /// The width and height of the view
    pub closed spec fn dims(&self) -> Size<usize> {
        self.size
    }

    pub fn new(data: Buf, size: Size<usize>) -> (r: Self)
        ensures
            r.buffer() == data,
            r.dims() == size,
    {
        PixelView { data, size }
    }

    /// A view of no size
    pub fn wrap(data: Buf) -> (r: Self)
        ensures
            r.buffer() == data,
            r.dims() == (Size { w: 0usize, h: 0usize }),
    {
        PixelView::new(data, Size::new(0, 0))
    }

    /// The same view with another size
    pub fn with_size(self, size: Size<usize>) -> (r: Self)
        ensures
            r.buffer() == self.buffer(),
            r.dims() == size,
    {
        PixelView { data: self.data, size }
    }

    /// The viewed buffer, given back
    pub fn unwrap(self) -> (r: Buf)
        ensures
            r == self.buffer(),
    {
        self.data
    }

    pub fn size(&self) -> (r: Size<usize>)
        ensures
            r == self.dims(),
    {
        self.size
    }

    /// Gets the color of the pixel at `point`; a point outside the size of the
    /// view addresses whatever color its index reaches
    pub fn get(&self, point: Point<usize>) -> (c: <Buf::ColorFmt as ColorFmt>::ColorType)
        requires
            pixel_index(point, self.dims()) <= usize::MAX,
            self.buffer().format().readable(
                self.buffer().data(),
                pixel_index(point, self.dims()),
            ),
        ensures
            c == self.buffer().format().decode(
                self.buffer().data(),
                pixel_index(point, self.dims()),
            ),
    {
        proof {
            lemma_index_fits(point, self.size);
        }
        let index = point.x + point.y * self.size.w;
        self.data.get(index)
    }
}

impl<Buf: ColorBufMut> PixelView<Buf> where Buf::ColorFmt: ColorSet {
    /// Sets the color of the pixel at `point`
    pub fn set(&mut self, point: Point<usize>, color: <Buf::ColorFmt as ColorFmt>::ColorType)
        requires
            pixel_index(point, old(self).dims()) <= usize::MAX,
            old(self).buffer().format().writable(
                old(self).buffer().data().len(),
                pixel_index(point, old(self).dims()),
            ),
        ensures
            final(self).dims() == old(self).dims(),
            final(self).buffer().format() == old(self).buffer().format(),
            final(self).buffer().data() == old(self).buffer().format().encode(
                old(self).buffer().data(),
                pixel_index(point, old(self).dims()),
                color,
            ),
    {
        proof {
            lemma_index_fits(point, self.size);
        }
        let index = point.x + point.y * self.size.w;
        self.data.set(index, color)
    }
}

proof fn lemma_index_fits(point: Point<usize>, size: Size<usize>)
    requires
        pixel_index(point, size) <= usize::MAX,
    ensures
        point.y * size.w <= usize::MAX,
{
    assert(point.y * size.w >= 0) by (nonlinear_arith);
}

} // verus!
