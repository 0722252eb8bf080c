use vstd::prelude::*;
use crate::geom::{Area, Point};

verus! {

/// How a drawn pixel combines with the pixel under it
#[derive(Debug, Clone, Copy, PartialEq, Eq, Structural)]
pub enum DrawMode {
    /// The drawn pixel replaces the pixel under it
    Overwrite,
}

impl Default for DrawMode {
    fn default() -> (r: Self)
        ensures
            r == DrawMode::Overwrite,
    {
        DrawMode::Overwrite
    }
}

/// A surface that pixels are drawn on
pub trait Drawing<Dim, Pix> {
    fn draw_pixel(&mut self, mode: DrawMode, point: Point<Dim>, pixel: Pix);
}

/// Something that draws itself on a surface
pub trait Drawable<Dim, Pix> {
    fn draw<D: Drawing<Dim, Pix>>(&self, area: Area<Dim>, ctx: &mut D);
}

} // verus!
