//! Packed-pixel color codecs for memory-constrained displays.
//!
//! A color format describes how colors of one bit depth are packed into bytes;
//! a color buffer binds a format to bytes; a pixel view addresses a color
//! buffer by two-dimensional points.
pub mod attr;
mod bw;
mod buf;
mod color;
mod def;
mod draw;
mod font;
pub mod font_data;
mod geom;
mod gs;
mod gsa;
mod idx;
pub mod image;
mod pixel;
mod raw;
mod rgb;
mod rgba;

pub mod format;

pub use buf::{ColorArray, ColorBuf, ColorBufMut};
pub use color::{ColorValue, BW, GS, GSA, RGB, RGBA};
pub use def::{ColorFmt, ColorGet, ColorSet, ConstDefault};
pub use draw::{DrawMode, Drawable, Drawing};
pub use geom::{Area, Point, Rect, Size};
pub use pixel::PixelView;
pub use font::{Font, FontV1, FontV2, GlyphData};
