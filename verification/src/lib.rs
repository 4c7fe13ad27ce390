//! Renders raster images as colorized character art for the terminal.
//!
//! The pipeline: an already-decoded image is resized to a target character
//! width (correcting for the ~2:1 height/width aspect of terminal font
//! cells), its contrast is adjusted, and each pixel is mapped either to a
//! character from a luminance-ordered ramp or to a solid block glyph, both
//! colorized with the pixel's RGB value.
//!
//! Resampling, the contrast curve and ANSI styling are computed by the
//! `image` and `owo_colors` crates behind small trusted wrappers (see
//! `raster` and `style`); the geometry, the luminance mapping, the drop-set
//! and transparency rules, and the row-major rendering around them are
//! verified.

pub mod errors;
pub mod img;
pub mod laws;
pub mod pipeline;
pub mod ramp;
pub mod raster;
pub mod render;
pub mod style;
pub mod transform;

pub use pipeline::{print_image_pixelated, print_image_with_ramp};
