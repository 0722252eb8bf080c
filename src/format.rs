//! The color packing formats.
pub use crate::bw::BW1;
pub use crate::gs::{GS1, GS2, GS4, GS8};
pub use crate::gsa::{GSA11, GSA22, GSA31, GSA44, GSA71, GSA88};
pub use crate::idx::{IDX1, IDX2, IDX4, IDX8};
pub use crate::raw::{RAW1, RAW2, RAW4, RAW8};
pub use crate::rgb::{RGB332, RGB444, RGB565, RGB888};
pub use crate::rgba::{RGBA4444, RGBA5551, RGBA8888};
