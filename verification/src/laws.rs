//! The library's general guarantees, stated and proved once over the spec
//! functions that the executable functions' contracts use.

use vstd::prelude::*;

use crate::img::{ImgV, Px};
use crate::pipeline::{pipeline_spec, transformed_spec};
use crate::ramp::{lemma_ramp_index_in_range, lemma_ramp_index_monotonic, luma_spec, ramp_index};
use crate::render::{glyph_spec, render_spec, row_upto, rows_upto, ModeV};
use crate::style::styled_of;
use crate::transform::Filter;

verus! {

/// For every nonempty ramp, the character a luminance selects is a member of
/// the ramp, and the selection is monotone: a brighter luminance never
/// selects an earlier ramp character.
pub proof fn lemma_get_char_in_ramp_and_monotonic(ramp: Seq<char>, l1: u8, l2: u8)
    requires
        ramp.len() >= 1,
        l1 <= l2,
    ensures
        0 <= ramp_index(l1, ramp.len() as int) < ramp.len(),
        ramp.contains(ramp[ramp_index(l1, ramp.len() as int)]),
        ramp_index(l1, ramp.len() as int) <= ramp_index(l2, ramp.len() as int),
{
    lemma_ramp_index_in_range(l1, ramp.len() as int);
    lemma_ramp_index_monotonic(l1, l2, ramp.len() as int);
    assert(ramp[ramp_index(l1, ramp.len() as int)] == ramp[ramp_index(l1, ramp.len() as int)]);
}

/// Rendering is deterministic: the pipeline's output is a pure function of
/// the decoded image and the configuration, so rendering the same image with
/// the same configuration twice produces identical text. This reaches the
/// public entry points end to end, since the decoded RGBA data they feed in
/// (`rgba_width_of`, `rgba_height_of`, `rgba_data_of`) is a fixed attribute
/// of the image value.
pub proof fn lemma_pipeline_deterministic(
    ow: nat,
    oh: nat,
    data: Seq<u8>,
    width: nat,
    contrast: int,
    filter: Filter,
    m: ModeV,
    out1: Seq<char>,
    out2: Seq<char>,
)
    requires
        out1 == pipeline_spec(ow, oh, data, width, contrast, filter, m),
        out2 == pipeline_spec(ow, oh, data, width, contrast, filter, m),
    ensures
        out1 == out2,
{
}

/// A fully transparent pixel renders as a single plain space, whatever the
/// ramp, the drop set or the mode.
pub proof fn lemma_transparent_renders_space(p: Px, m: ModeV)
    requires
        p.a == 0,
    ensures
        glyph_spec(p, m) == seq![' '],
{
}

/// Drop-set behavior in ramp mode: an opaque pixel whose luminance selects a
/// character in the drop set renders as a plain space; one whose character
/// is not in the drop set renders as that character, colorized.
pub proof fn lemma_drop_set(p: Px, m: ModeV)
    requires
        p.a != 0,
        !m.pixelated,
        m.ramp.len() >= 1,
    ensures
        ({
            let c = m.ramp[ramp_index(luma_spec(p.r, p.g, p.b), m.ramp.len() as int)];
            &&& m.drop.contains(c) ==> glyph_spec(p, m) == seq![' ']
            &&& !m.drop.contains(c) ==> glyph_spec(p, m) == styled_of(c, p.r, p.g, p.b)
        }),
{
}

/// Pixelated mode ignores the ramp and the drop set entirely: two pixelated
/// modes render every pixel identically, whatever their ramps and drop sets.
pub proof fn lemma_pixelated_ignores_ramp_and_drop(p: Px, m1: ModeV, m2: ModeV)
    requires
        m1.pixelated,
        m2.pixelated,
    ensures
        glyph_spec(p, m1) == glyph_spec(p, m2),
{
}

proof fn lemma_row_upto_pixelated_eq(v: ImgV, m1: ModeV, m2: ModeV, y: int, x: int)
    requires
        m1.pixelated,
        m2.pixelated,
    ensures
        row_upto(v, m1, y, x) == row_upto(v, m2, y, x),
    decreases x,
{
    if x > 0 {
        lemma_row_upto_pixelated_eq(v, m1, m2, y, x - 1);
        lemma_pixelated_ignores_ramp_and_drop(v.px(x - 1, y), m1, m2);
    }
}

proof fn lemma_rows_upto_pixelated_eq(v: ImgV, m1: ModeV, m2: ModeV, y: int)
    requires
        m1.pixelated,
        m2.pixelated,
    ensures
        rows_upto(v, m1, y) == rows_upto(v, m2, y),
    decreases y,
{
    if y > 0 {
        lemma_rows_upto_pixelated_eq(v, m1, m2, y - 1);
        lemma_row_upto_pixelated_eq(v, m1, m2, y - 1, v.width as int);
    }
}

/// Pixelated mode ignores the ramp and the drop set for the whole output,
/// not just one glyph: the full rendering of any image is the same under any
/// two pixelated modes.
pub proof fn lemma_pixelated_render_ignores_ramp_and_drop(v: ImgV, m1: ModeV, m2: ModeV)
    requires
        m1.pixelated,
        m2.pixelated,
    ensures
        render_spec(v, m1) == render_spec(v, m2),
{
    lemma_rows_upto_pixelated_eq(v, m1, m2, v.height as int);
}

/// The same, end to end through the pipeline: transforming is independent of
/// the mode, so the whole pixelated pipeline is independent of any ramp or
/// drop configuration.
pub proof fn lemma_pixelated_pipeline_ignores_ramp_and_drop(
    ow: nat,
    oh: nat,
    data: Seq<u8>,
    width: nat,
    contrast: int,
    filter: Filter,
    m1: ModeV,
    m2: ModeV,
)
    requires
        m1.pixelated,
        m2.pixelated,
    ensures
        pipeline_spec(ow, oh, data, width, contrast, filter, m1) == pipeline_spec(
            ow,
            oh,
            data,
            width,
            contrast,
            filter,
            m2,
        ),
{
    lemma_pixelated_render_ignores_ramp_and_drop(
        transformed_spec(ow, oh, data, width, contrast, filter),
        m1,
        m2,
    );
}

} // verus!
