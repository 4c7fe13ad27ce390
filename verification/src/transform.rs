use vstd::prelude::*;
use vstd::arithmetic::div_mod::{lemma_fundamental_div_mod, lemma_mod_bound};

use crate::img::Img;
use crate::raster::{contrast_of, contrast_rgba, resize_of, resize_rgba};

verus! {

/// The resampling kernel used when resizing.
#[derive(Clone, Copy, Debug, PartialEq, Eq, Structural)]
pub enum Filter {
    /// Linear interpolation (triangle kernel).
    Linear,
    /// Nearest pixel; keeps the original colors.
    Nearest,
    /// Classic gaussian kernel.
    Gaussian,
}

/// The output height for a desired character width. Terminal character cells
/// are about twice as tall as wide, so the original width counts double when
/// deriving the height-to-width ratio: `width * oh / (2 * ow)`, truncated.
/// A ratio below one row truncates to zero rows, and the image renders as
/// empty text.
pub open spec fn target_height_spec(ow: nat, oh: nat, width: nat) -> nat
    recommends
        ow >= 1,
{
    (width * oh) / (2 * ow)
}

/// The output height is exactly the aspect-corrected ratio rounded down
/// (truncation), hence within one of the exact rational value
/// `width * oh / (2 * ow)`.
pub proof fn lemma_target_height_is_floor(ow: nat, oh: nat, width: nat)
    requires
        ow >= 1,
    ensures
        (2 * ow) * target_height_spec(ow, oh, width) <= width * oh,
        width * oh < (2 * ow) * (target_height_spec(ow, oh, width) + 1),
{
    let x = (width * oh) as int;
    let d = (2 * ow) as int;
    let q = x / d;
    lemma_fundamental_div_mod(x, d);
    lemma_mod_bound(x, d);
    assert(d * q <= x < d * q + d);
    assert(d * (q + 1) == d * q + d) by (nonlinear_arith);
}

/// Computes the aspect-corrected output height for a desired width.
pub fn target_height(ow: u32, oh: u32, width: u32) -> (th: u64)
    requires
        ow >= 1,
    ensures
        th as nat == target_height_spec(ow as nat, oh as nat, width as nat),
{
    proof {
        assert((width as int) * (oh as int) <= 0xffff_ffffu64 * 0xffff_ffffu64)
            by (nonlinear_arith)
            requires
                width <= 0xffff_ffffu64 && oh <= 0xffff_ffffu64,
        ;
    }
    let prod: u64 = (width as u64) * (oh as u64);
    prod / (2 * (ow as u64))
}

/// The buffer lengths the resize allocates (the output and an `ow`-wide
/// intermediate) stay within the bound the trusted resize call asks for.
pub open spec fn size_ok(ow: nat, oh: nat, width: nat) -> bool {
    let th = target_height_spec(ow, oh, width);
    4 * width * th <= u32::MAX && 4 * ow * th <= u32::MAX
}

/// Scales an image to a fixed character width, correcting for the ~2:1
/// aspect ratio of terminal font cells: the output is exactly
/// `desired_width` pixels wide and `target_height_spec` pixels tall,
/// resampled with the chosen filter.
pub fn scale_and_resize_img_fixed_width(img: Img, desired_width: u32, filter: Filter) -> (r: Img)
    requires
        img@.wf(),
        img@.width >= 1,
        img@.height >= 1,
        desired_width >= 1,
        size_ok(img@.width, img@.height, desired_width as nat),
    ensures
        r@.wf(),
        r@.width == desired_width as nat,
        r@.height == target_height_spec(img@.width, img@.height, desired_width as nat),
        r@.data == resize_of(
            img@.data,
            img@.width,
            img@.height,
            desired_width as nat,
            r@.height,
            filter,
        ),
{
    let th64 = target_height(img.width, img.height, desired_width);
    proof {
        let th = target_height_spec(img@.width, img@.height, desired_width as nat);
        assert(th <= 4 * (desired_width as nat) * th) by (nonlinear_arith)
            requires
                desired_width >= 1 && th >= 0,
        ;
    }
    let th: u32 = th64 as u32;
    let out = resize_rgba(&img.data, img.width, img.height, desired_width, th, filter);
    Img { width: desired_width, height: th, data: out }
}

/// `c` with every pixel's alpha byte (every fourth byte) replaced by the
/// corresponding byte of `o`.
pub open spec fn merge_alpha(c: Seq<u8>, o: Seq<u8>) -> Seq<u8>
    recommends
        c.len() == o.len(),
{
    Seq::new(o.len(), |i: int| if i % 4 == 3 { o[i] } else { c[i] })
}

/// The image data after contrast adjustment: unchanged at value 0; otherwise
/// the crate's per-channel transform with every pixel's alpha restored.
pub open spec fn adjusted_spec(data: Seq<u8>, contrast: int) -> Seq<u8> {
    if contrast == 0 {
        data
    } else {
        merge_alpha(contrast_of(data, contrast), data)
    }
}

/// Adjusts the image's contrast by `contrast` percent. A value of 0 is
/// exactly a no-op, and the alpha channel is never affected; only the color
/// channels pass through the contrast transform.
pub fn adjust_contrast(img: Img, contrast: i16) -> (r: Img)
    requires
        img@.wf(),
    ensures
        r@.wf(),
        r@.width == img@.width,
        r@.height == img@.height,
        r@.data == adjusted_spec(img@.data, contrast as int),
        contrast == 0 ==> r@.data == img@.data,
        r@.data.len() == img@.data.len(),
        forall|i: int|
            0 <= i < img@.data.len() && i % 4 == 3 ==> r@.data[i] == img@.data[i],
{
    if contrast == 0 {
        return img;
    }
    let adj = contrast_rgba(&img.data, img.width, img.height, contrast);
    let n = img.data.len();
    let mut out: Vec<u8> = Vec::new();
    let mut i: usize = 0;
    while i < n
        invariant
            n == img.data@.len(),
            adj@ == contrast_of(img.data@, contrast as int),
            adj@.len() == n,
            i <= n,
            out@.len() == i,
            forall|j: int|
                0 <= j < i ==> out@[j] == (if j % 4 == 3 {
                    img.data@[j]
                } else {
                    adj@[j]
                }),
        decreases n - i,
    {
        if i % 4 == 3 {
            out.push(img.data[i]);
        } else {
            out.push(adj[i]);
        }
        i += 1;
    }
    proof {
        assert(out@ =~= merge_alpha(contrast_of(img.data@, contrast as int), img.data@));
    }
    Img { width: img.width, height: img.height, data: out }
}

} // verus!
