use vstd::prelude::*;
use vstd::string::*;

use crate::img::{Img, ImgV, Px};
use crate::ramp::{lemma_ramp_index_in_range, luma_spec, ramp_index, CharacterRamp};
use crate::style::{styled_glyph, styled_of};

verus! {

/// Mathematical model of a rendering mode: either a solid block glyph per
/// pixel (`pixelated`), or a character picked from `ramp` by luminance,
/// suppressed (rendered as a plain space) when it lies in `drop`.
pub struct ModeV {
    pub pixelated: bool,
    pub ramp: Seq<char>,
    pub drop: Seq<char>,
}

/// How each opaque pixel is turned into text.
pub enum RenderMode {
    /// Map the pixel's luminance to a character of the ramp, dropping the
    /// characters of `drop` (they render as plain spaces).
    Ramp { ramp: CharacterRamp, drop: Vec<char> },
    /// Ignore luminance and emit a colorized full-block glyph.
    Pixelated,
}

impl View for RenderMode {
    type V = ModeV;

    open spec fn view(&self) -> ModeV {
        match self {
            RenderMode::Ramp { ramp, drop } => ModeV {
                pixelated: false,
                ramp: ramp@,
                drop: drop@,
            },
            RenderMode::Pixelated => ModeV {
                pixelated: true,
                ramp: Seq::empty(),
                drop: Seq::empty(),
            },
        }
    }
}

impl RenderMode {
    /// Ramp mode needs a nonempty ramp; pixelated mode needs nothing.
    pub open spec fn wf(&self) -> bool {
        self@.pixelated || self@.ramp.len() >= 1
    }
}

/// The text emitted for one pixel: a single plain space when the pixel is
/// fully transparent; otherwise a colorized block glyph in pixelated mode,
/// or the ramp character its luminance selects — itself replaced by a plain
/// space when that character is in the drop set.
pub open spec fn glyph_spec(p: Px, m: ModeV) -> Seq<char>
    recommends
        m.pixelated || m.ramp.len() >= 1,
{
    if p.a == 0 {
        seq![' ']
    } else if m.pixelated {
        styled_of('\u{2588}', p.r, p.g, p.b)
    } else {
        let c = m.ramp[ramp_index(luma_spec(p.r, p.g, p.b), m.ramp.len() as int)];
        if m.drop.contains(c) {
            seq![' ']
        } else {
            styled_of(c, p.r, p.g, p.b)
        }
    }
}

/// The first `x` glyphs of row `y`.
pub open spec fn row_upto(v: ImgV, m: ModeV, y: int, x: int) -> Seq<char>
    decreases x,
{
    if x <= 0 {
        Seq::empty()
    } else {
        row_upto(v, m, y, x - 1) + glyph_spec(v.px(x - 1, y), m)
    }
}

/// The first `y` full rows, each terminated by a line break.
pub open spec fn rows_upto(v: ImgV, m: ModeV, y: int) -> Seq<char>
    decreases y,
{
    if y <= 0 {
        Seq::empty()
    } else {
        rows_upto(v, m, y - 1) + row_upto(v, m, y - 1, v.width as int) + seq!['\n']
    }
}

/// The full rendering of an image: its rows top to bottom, each pixel's
/// glyph left to right, a line break after every row.
pub open spec fn render_spec(v: ImgV, m: ModeV) -> Seq<char> {
    rows_upto(v, m, v.height as int)
}

/// Returns whether `c` is one of the characters in `set`.
pub fn contains_char(set: &Vec<char>, c: char) -> (r: bool)
    ensures
        r == set@.contains(c),
{
    let n = set.len();
    let mut i: usize = 0;
    while i < n
        invariant
            n == set@.len(),
            i <= n,
            forall|j: int| 0 <= j < i ==> set@[j] != c,
        decreases n - i,
    {
        if set[i] == c {
            return true;
        }
        i += 1;
    }
    false
}

/// Builds the text for one pixel under the given mode. As long as the ramp
/// itself holds no line break, neither does any glyph: line breaks in the
/// output come only from the end of a row.
pub fn glyph_string(p: Px, mode: &RenderMode) -> (g: String)
    requires
        mode.wf(),
    ensures
        g@ == glyph_spec(p, mode@),
        !mode@.ramp.contains('\n') ==> !g@.contains('\n'),
{
    proof {
        reveal_strlit(" ");
    }
    if p.a == 0 {
        let s = String::from_str(" ");
        proof {
            assert(s@ =~= seq![' ']);
            assert(!s@.contains('\n'));
        }
        return s;
    }
    match mode {
        RenderMode::Pixelated => styled_glyph('\u{2588}', p.r, p.g, p.b),
        RenderMode::Ramp { ramp, drop } => {
            let c = ramp.get_char(p);
            proof {
                lemma_ramp_index_in_range(luma_spec(p.r, p.g, p.b), ramp@.len() as int);
                if c == '\n' {
                    assert(ramp@.contains('\n'));
                }
            }
            if contains_char(drop, c) {
                let s = String::from_str(" ");
                proof {
                    assert(s@ =~= seq![' ']);
                    assert(!s@.contains('\n'));
                }
                s
            } else {
                styled_glyph(c, p.r, p.g, p.b)
            }
        },
    }
}

/// Renders the whole image under the given mode: pixels in row-major order,
/// a line break after each row. The output is exactly `render_spec` of the
/// image — a pure function of the pixel data and the mode.
pub fn render_image(img: &Img, mode: &RenderMode) -> (out: String)
    requires
        img@.wf(),
        mode.wf(),
    ensures
        out@ == render_spec(img@, mode@),
{
    let mut out = String::new();
    let mut y: u32 = 0;
    while y < img.height
        invariant
            img@.wf(),
            mode.wf(),
            y <= img.height,
            out@ == rows_upto(img@, mode@, y as int),
        decreases img.height - y,
    {
        let mut x: u32 = 0;
        while x < img.width
            invariant
                img@.wf(),
                mode.wf(),
                y < img.height,
                x <= img.width,
                out@ == rows_upto(img@, mode@, y as int) + row_upto(
                    img@,
                    mode@,
                    y as int,
                    x as int,
                ),
            decreases img.width - x,
        {
            let p = img.get_pixel(x, y);
            let g = glyph_string(p, mode);
            out.append(g.as_str());
            proof {
                assert(out@ =~= rows_upto(img@, mode@, y as int) + row_upto(
                    img@,
                    mode@,
                    y as int,
                    x as int + 1,
                ));
            }
            x += 1;
        }
        out.append("\n");
        proof {
            reveal_strlit("\n");
            assert("\n"@ =~= seq!['\n']);
            assert(out@ =~= rows_upto(img@, mode@, y as int + 1));
        }
        y += 1;
    }
    out
}

} // verus!
