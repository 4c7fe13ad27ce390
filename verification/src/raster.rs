//! Trusted bindings to the `image` crate: decoding a `DynamicImage` into raw
//! RGBA bytes, resampling, and contrast adjustment. Each wrapper's contract
//! states only what the crate's source shows of the call.

use vstd::prelude::*;

use crate::transform::Filter;

verus! {

#[verifier::external_type_specification]
#[verifier::external_body]
pub struct ExDynamicImage(image::DynamicImage);

/// The raw 8-bit RGBA rendering of an image after resampling `data` (an
/// `ow` by `oh` RGBA buffer, row-major, four bytes per pixel) to `nw` by
/// `nh` with the given filter kernel. `image::imageops::resize` computes
/// this from its arguments alone.
pub uninterp spec fn resize_of(
    data: Seq<u8>,
    ow: nat,
    oh: nat,
    nw: nat,
    nh: nat,
    filter: Filter,
) -> Seq<u8>;

/// The 8-bit RGBA buffer after the `image` crate's contrast transform with
/// percentage `contrast` has been applied to every channel of every pixel of
/// `data`. A pure per-pixel map, computed from its arguments alone.
pub uninterp spec fn contrast_of(data: Seq<u8>, contrast: int) -> Seq<u8>;

/// The width of an image, in pixels. A fixed attribute of the image value.
pub uninterp spec fn rgba_width_of(img: &image::DynamicImage) -> nat;

/// The height of an image, in pixels. A fixed attribute of the image value.
pub uninterp spec fn rgba_height_of(img: &image::DynamicImage) -> nat;

/// The image rendered as raw 8-bit RGBA bytes, row-major, four bytes per
/// pixel. `image::DynamicImage::to_rgba8` computes this from the image value
/// alone.
pub uninterp spec fn rgba_data_of(img: &image::DynamicImage) -> Seq<u8>;

/// Relies on `image::DynamicImage::to_rgba8` (with `ImageBuffer::dimensions`
/// and `into_raw`): the result is the image converted pixel by pixel to
/// 8-bit RGBA — a deterministic function of the image value — whose raw
/// buffer is row-major with four bytes per pixel, so its length is
/// `4 * width * height`.
#[verifier::external_body]
pub(crate) fn dynimg_to_rgba(img: &image::DynamicImage) -> (r: (u32, u32, Vec<u8>))
    ensures
        r.0 as nat == rgba_width_of(img),
        r.1 as nat == rgba_height_of(img),
        r.2@ == rgba_data_of(img),
        r.2@.len() == 4 * (r.0 as nat) * (r.1 as nat),
{
    let buf = img.to_rgba8();
    let (w, h) = buf.dimensions();
    (w, h, buf.into_raw())
}

/// Relies on `image::imageops::resize` (with `ImageBuffer::from_raw` and
/// `into_raw` to pass the raw bytes through): the result is an `nw` by `nh`
/// RGBA buffer computed deterministically from the input buffer, the
/// dimensions and the filter. The size bounds keep the buffer lengths the
/// crate allocates (output, and an `ow` by `nh` intermediate) well below
/// `usize::MAX`, the crate's panic condition.
#[verifier::external_body]
pub(crate) fn resize_rgba(data: &Vec<u8>, ow: u32, oh: u32, nw: u32, nh: u32, filter: Filter) -> (r:
    Vec<u8>)
    requires
        data@.len() == 4 * (ow as nat) * (oh as nat),
        4 * (nw as nat) * (nh as nat) <= u32::MAX as nat,
        4 * (ow as nat) * (nh as nat) <= u32::MAX as nat,
    ensures
        r@.len() == 4 * (nw as nat) * (nh as nat),
        r@ == resize_of(data@, ow as nat, oh as nat, nw as nat, nh as nat, filter),
{
    let kernel = match filter {
        Filter::Nearest => image::imageops::FilterType::Nearest,
        Filter::Linear => image::imageops::FilterType::Triangle,
        Filter::Gaussian => image::imageops::FilterType::Gaussian,
    };
    let buf: image::RgbaImage = image::ImageBuffer::from_raw(ow, oh, data.clone()).unwrap();
    image::imageops::resize(&buf, nw, nh, kernel).into_raw()
}

/// Relies on `image::imageops::contrast` (with `ImageBuffer::from_raw` and
/// `into_raw`): a per-pixel, per-channel transform of the buffer, computed
/// deterministically from the bytes and the percentage, returning a buffer
/// of the same dimensions and hence the same length.
#[verifier::external_body]
pub(crate) fn contrast_rgba(data: &Vec<u8>, w: u32, h: u32, contrast: i16) -> (r: Vec<u8>)
    requires
        data@.len() == 4 * (w as nat) * (h as nat),
    ensures
        r@.len() == data@.len(),
        r@ == contrast_of(data@, contrast as int),
{
    let buf: image::RgbaImage = image::ImageBuffer::from_raw(w, h, data.clone()).unwrap();
    image::imageops::contrast(&buf, contrast.into()).into_raw()
}

} // verus!
