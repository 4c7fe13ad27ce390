use vstd::prelude::*;

verus! {

/// Everything that can go wrong while preparing or rendering an image.
#[derive(Clone, Copy, Debug, PartialEq, Eq, Structural)]
pub enum AsciiError {
    /// The image path could not be read (missing or unreadable file).
    IoError,
    /// The file's contents could not be decoded as a raster image, or the
    /// decoded image is degenerate (zero width or height).
    DecodeError,
    /// The render configuration is invalid (empty character ramp, zero
    /// output width, or a requested output size too large to allocate).
    ConfigurationError,
}

} // verus!
