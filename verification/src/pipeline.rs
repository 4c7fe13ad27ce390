use vstd::prelude::*;

use crate::errors::AsciiError;
use crate::img::{Img, ImgV};
use crate::ramp::{chars_of, CharacterRamp};
use crate::raster::{dynimg_to_rgba, resize_of, rgba_data_of, rgba_height_of, rgba_width_of};
use crate::render::{render_image, render_spec, ModeV, RenderMode};
use crate::transform::{
    adjust_contrast, adjusted_spec, scale_and_resize_img_fixed_width, size_ok, target_height,
    target_height_spec, Filter,
};

verus! {

/// The image (given as decoded `ow` by `oh` RGBA data) after the full
/// transform: resized to `width` columns with aspect correction, then
/// contrast-adjusted.
pub open spec fn transformed_spec(
    ow: nat,
    oh: nat,
    data: Seq<u8>,
    width: nat,
    contrast: int,
    filter: Filter,
) -> ImgV {
    let th = target_height_spec(ow, oh, width);
    ImgV {
        width,
        height: th,
        data: adjusted_spec(resize_of(data, ow, oh, width, th, filter), contrast),
    }
}

/// The text the whole pipeline produces for a decoded image: transform, then
/// render under the given mode.
pub open spec fn pipeline_spec(
    ow: nat,
    oh: nat,
    data: Seq<u8>,
    width: nat,
    contrast: int,
    filter: Filter,
    m: ModeV,
) -> Seq<char> {
    render_spec(transformed_spec(ow, oh, data, width, contrast, filter), m)
}

/// Whether the decoded dimensions let the pipeline run for a desired width:
/// the image must not be degenerate, and the resize buffers must stay within
/// the size bound the trusted resize call asks for.
pub open spec fn dims_ok(ow: nat, oh: nat, width: nat) -> bool {
    ow >= 1 && oh >= 1 && size_ok(ow, oh, width)
}

/// The drop set a caller passed: the characters of the string, or none.
pub open spec fn drop_view(drop: Option<String>) -> Seq<char> {
    match drop {
        Some(s) => s@,
        None => Seq::empty(),
    }
}

/// Transforms and renders an image given as decoded RGBA data. This is the
/// whole pipeline on plain values, with an exact contract: it succeeds if
/// and only if the width is positive, the image is not degenerate, and the
/// output fits the size bound; the text returned is exactly `pipeline_spec`.
pub fn render_decoded(
    ow: u32,
    oh: u32,
    data: Vec<u8>,
    width: u32,
    contrast: i16,
    filter: Filter,
    mode: &RenderMode,
) -> (r: Result<String, AsciiError>)
    requires
        data@.len() == 4 * (ow as nat) * (oh as nat),
        mode.wf(),
    ensures
        width == 0 ==> r == Err::<String, AsciiError>(AsciiError::ConfigurationError),
        width >= 1 && (ow == 0 || oh == 0) ==> r == Err::<String, AsciiError>(
            AsciiError::DecodeError,
        ),
        width >= 1 && ow >= 1 && oh >= 1 && !size_ok(ow as nat, oh as nat, width as nat) ==> r
            == Err::<String, AsciiError>(AsciiError::ConfigurationError),
        width >= 1 && dims_ok(ow as nat, oh as nat, width as nat) ==> (r matches Ok(s) && s@
            == pipeline_spec(
            ow as nat,
            oh as nat,
            data@,
            width as nat,
            contrast as int,
            filter,
            mode@,
        )),
{
    if width == 0 {
        return Err(AsciiError::ConfigurationError);
    }
    if ow == 0 || oh == 0 {
        return Err(AsciiError::DecodeError);
    }
    let th = target_height(ow, oh, width);
    proof {
        assert(4 * (width as int) * (th as int) <= 0x4_0000_0000 * 0xffff_ffff_ffff_ffff)
            by (nonlinear_arith)
            requires
                width <= 0xffff_ffffu64 && th <= 0xffff_ffff_ffff_ffffu64,
        ;
        assert(4 * (ow as int) * (th as int) <= 0x4_0000_0000 * 0xffff_ffff_ffff_ffff)
            by (nonlinear_arith)
            requires
                ow <= 0xffff_ffffu64 && th <= 0xffff_ffff_ffff_ffffu64,
        ;
    }
    let quad_out: u128 = 4 * (width as u128) * (th as u128);
    let quad_mid: u128 = 4 * (ow as u128) * (th as u128);
    if quad_out > (u32::MAX as u128) || quad_mid > (u32::MAX as u128) {
        return Err(AsciiError::ConfigurationError);
    }
    let img = Img { width: ow, height: oh, data };
    let resized = scale_and_resize_img_fixed_width(img, width, filter);
    let adjusted = adjust_contrast(resized, contrast);
    Ok(render_image(&adjusted, mode))
}

/// Renders an already-decoded image as luminance-mapped character art: the
/// image is resized to `width` columns (aspect-corrected), its contrast is
/// adjusted, and every pixel becomes a colorized ramp character — a plain
/// space when the pixel is transparent or its character is in `drop`. The
/// text to print is returned; an empty ramp or a zero width is rejected.
pub fn print_image_with_ramp(
    img: &image::DynamicImage,
    width: u32,
    contrast: i16,
    character_ramp: &str,
    filter: Filter,
    drop: Option<String>,
) -> (r: Result<String, AsciiError>)
    ensures
        character_ramp@.len() == 0 ==> r == Err::<String, AsciiError>(
            AsciiError::ConfigurationError,
        ),
        width == 0 ==> r == Err::<String, AsciiError>(AsciiError::ConfigurationError),
        character_ramp@.len() >= 1 && width >= 1 && (rgba_width_of(img) == 0 || rgba_height_of(img)
            == 0) ==> r == Err::<String, AsciiError>(AsciiError::DecodeError),
        character_ramp@.len() >= 1 && width >= 1 && rgba_width_of(img) >= 1 && rgba_height_of(img)
            >= 1 && !size_ok(rgba_width_of(img), rgba_height_of(img), width as nat) ==> r
            == Err::<String, AsciiError>(AsciiError::ConfigurationError),
        character_ramp@.len() >= 1 && width >= 1 && dims_ok(
            rgba_width_of(img),
            rgba_height_of(img),
            width as nat,
        ) ==> (r matches Ok(s) && s@ == pipeline_spec(
            rgba_width_of(img),
            rgba_height_of(img),
            rgba_data_of(img),
            width as nat,
            contrast as int,
            filter,
            ModeV { pixelated: false, ramp: character_ramp@, drop: drop_view(drop) },
        )),
{
    let ramp = match CharacterRamp::new(character_ramp) {
        Ok(ramp) => ramp,
        Err(e) => {
            return Err(e);
        },
    };
    let drop_chars: Vec<char> = match &drop {
        Some(s) => chars_of(s.as_str()),
        None => Vec::new(),
    };
    let mode = RenderMode::Ramp { ramp, drop: drop_chars };
    let (ow, oh, data) = dynimg_to_rgba(img);
    render_decoded(ow, oh, data, width, contrast, filter, &mode)
}

/// Renders an already-decoded image as colorized solid blocks: the image is
/// resized to `width` columns (aspect-corrected), its contrast is adjusted,
/// and every opaque pixel becomes a full-block glyph in the pixel's color;
/// transparent pixels become plain spaces. The text to print is returned;
/// a zero width is rejected.
pub fn print_image_pixelated(
    img: &image::DynamicImage,
    width: u32,
    contrast: i16,
    filter: Filter,
) -> (r: Result<String, AsciiError>)
    ensures
        width == 0 ==> r == Err::<String, AsciiError>(AsciiError::ConfigurationError),
        width >= 1 && (rgba_width_of(img) == 0 || rgba_height_of(img) == 0) ==> r == Err::<
            String,
            AsciiError,
        >(AsciiError::DecodeError),
        width >= 1 && rgba_width_of(img) >= 1 && rgba_height_of(img) >= 1 && !size_ok(
            rgba_width_of(img),
            rgba_height_of(img),
            width as nat,
        ) ==> r == Err::<String, AsciiError>(AsciiError::ConfigurationError),
        width >= 1 && dims_ok(rgba_width_of(img), rgba_height_of(img), width as nat) ==> (r matches
            Ok(s) && s@ == pipeline_spec(
            rgba_width_of(img),
            rgba_height_of(img),
            rgba_data_of(img),
            width as nat,
            contrast as int,
            filter,
            ModeV { pixelated: true, ramp: Seq::empty(), drop: Seq::empty() },
        )),
{
    let mode = RenderMode::Pixelated;
    let (ow, oh, data) = dynimg_to_rgba(img);
    render_decoded(ow, oh, data, width, contrast, filter, &mode)
}

} // verus!
