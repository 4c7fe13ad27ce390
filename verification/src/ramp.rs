use vstd::prelude::*;
use vstd::arithmetic::div_mod::{lemma_div_is_ordered, lemma_div_by_multiple};
use vstd::arithmetic::mul::lemma_mul_inequality;

use crate::errors::AsciiError;
use crate::img::Px;

verus! {

/// Integer sRGB luminance of an RGB triple: the weighted sum
/// `(2126*r + 7152*g + 722*b) / 10000`, truncated. These are the integer
/// weights the `image` crate uses for its 8-bit grayscale conversion.
pub open spec fn luma_spec(r: u8, g: u8, b: u8) -> u8 {
    ((2126 * r + 7152 * g + 722 * b) / 10000) as u8
}

/// Computes the integer sRGB luminance of an RGB triple.
pub fn luma(r: u8, g: u8, b: u8) -> (l: u8)
    ensures
        l == luma_spec(r, g, b),
{
    let v: u32 = 2126 * (r as u32) + 7152 * (g as u32) + 722 * (b as u32);
    (v / 10000) as u8
}

/// The index into a ramp of `n` characters that a luminance value selects:
/// `luma` scaled by `(n - 1) / 255` and truncated.
pub open spec fn ramp_index(luma: u8, n: int) -> int
    recommends
        n >= 1,
{
    (luma * (n - 1)) / 255
}

/// A ramp index always lies inside the ramp: for every luminance value and
/// every ramp length `n >= 1`, the index is in `[0, n)`.
pub proof fn lemma_ramp_index_in_range(luma: u8, n: int)
    requires
        n >= 1,
    ensures
        0 <= ramp_index(luma, n) < n,
{
    lemma_mul_inequality(luma as int, 255, n - 1);
    lemma_div_is_ordered(luma * (n - 1), 255 * (n - 1), 255);
    lemma_div_by_multiple(n - 1, 255);
    lemma_div_is_ordered(0, luma * (n - 1), 255);
}

/// The luminance-to-index mapping is monotone: a brighter luminance never
/// selects an earlier ramp character.
pub proof fn lemma_ramp_index_monotonic(l1: u8, l2: u8, n: int)
    requires
        n >= 1,
        l1 <= l2,
    ensures
        ramp_index(l1, n) <= ramp_index(l2, n),
{
    lemma_mul_inequality(l1 as int, l2 as int, n - 1);
    lemma_div_is_ordered(l1 * (n - 1), l2 * (n - 1), 255);
}

/// The characters of `s`, in order, as a vector.
pub fn chars_of(s: &str) -> (v: Vec<char>)
    ensures
        v@ == s@,
{
    let n = s.unicode_len();
    let mut v: Vec<char> = Vec::new();
    let mut i: usize = 0;
    while i < n
        invariant
            i <= n,
            n == s@.len(),
            v@ == s@.subrange(0, i as int),
        decreases n - i,
    {
        v.push(s.get_char(i));
        proof {
            assert(v@ =~= s@.subrange(0, i + 1));
        }
        i += 1;
    }
    proof {
        assert(v@ =~= s@);
    }
    v
}

/// An ordered sequence of characters (darkest to lightest, or any order the
/// caller chooses) used to depict luminance as text.
pub struct CharacterRamp {
    ramp: Vec<char>,
}

impl View for CharacterRamp {
    type V = Seq<char>;

    closed spec fn view(&self) -> Seq<char> {
        self.ramp@
    }
}

impl CharacterRamp {
    /// A ramp must hold at least one character.
    pub open spec fn wf(&self) -> bool {
        self@.len() >= 1
    }

    /// Builds a ramp from the characters of `character_ramp`, in order.
    /// An empty string is rejected: it would leave no character to select.
    pub fn new(character_ramp: &str) -> (r: Result<CharacterRamp, AsciiError>)
        ensures
            character_ramp@.len() == 0 <==> r is Err,
            r matches Err(e) ==> e == AsciiError::ConfigurationError,
            r matches Ok(ramp) ==> ramp@ == character_ramp@ && ramp.wf(),
    {
        let ramp = chars_of(character_ramp);
        if ramp.len() == 0 {
            return Err(AsciiError::ConfigurationError);
        }
        Ok(CharacterRamp { ramp })
    }

    /// Maps a pixel to the ramp character selected by its luminance.
    pub fn get_char(&self, pixel: Px) -> (c: char)
        requires
            self.wf(),
        ensures
            c == self@[ramp_index(luma_spec(pixel.r, pixel.g, pixel.b), self@.len() as int)],
    {
        let l = luma(pixel.r, pixel.g, pixel.b);
        let n = self.ramp.len();
        proof {
            lemma_ramp_index_in_range(l, n as int);
            lemma_mul_inequality(l as int, 255, n - 1);
        }
        let idx = (((l as u128) * ((n - 1) as u128)) / 255) as usize;
        self.ramp[idx]
    }
}

} // verus!
