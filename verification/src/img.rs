use vstd::prelude::*;
use vstd::arithmetic::mul::lemma_mul_inequality;

verus! {

/// One RGBA pixel, 8 bits per channel.
#[derive(Clone, Copy, Debug, PartialEq, Eq, Structural)]
pub struct Px {
    pub r: u8,
    pub g: u8,
    pub b: u8,
    pub a: u8,
}

/// Mathematical model of an image: dimensions in pixels and the raw RGBA
/// bytes in row-major order, four bytes per pixel.
pub struct ImgV {
    pub width: nat,
    pub height: nat,
    pub data: Seq<u8>,
}

impl ImgV {
    /// The raw buffer holds exactly four bytes for each pixel.
    pub open spec fn wf(self) -> bool {
        self.data.len() == 4 * self.width * self.height
    }

    /// The pixel at column `x`, row `y`.
    pub open spec fn px(self, x: int, y: int) -> Px
        recommends
            self.wf(),
            0 <= x < self.width,
            0 <= y < self.height,
    {
        let i = 4 * (y * self.width + x);
        Px { r: self.data[i], g: self.data[i + 1], b: self.data[i + 2], a: self.data[i + 3] }
    }
}

/// An image held as raw 8-bit RGBA data, row-major.
pub struct Img {
    pub width: u32,
    pub height: u32,
    pub data: Vec<u8>,
}

impl View for Img {
    type V = ImgV;

    open spec fn view(&self) -> ImgV {
        ImgV { width: self.width as nat, height: self.height as nat, data: self.data@ }
    }
}

impl Img {
    /// Returns the pixel at column `x`, row `y`.
    pub fn get_pixel(&self, x: u32, y: u32) -> (p: Px)
        requires
            self@.wf(),
            x < self@.width,
            y < self@.height,
        ensures
            p == self@.px(x as int, y as int),
    {
        let len: usize = self.data.len();
        proof {
            let w = self.width as int;
            let h = self.height as int;
            let yy = y as int;
            lemma_mul_inequality(yy + 1, h, w);
            assert(yy * w + w == (yy + 1) * w) by (nonlinear_arith);
            assert(h * w == w * h) by (nonlinear_arith);
            assert(4 * (w * h) == 4 * w * h) by (nonlinear_arith);
            assert(yy * w >= 0 && w * h >= 0) by (nonlinear_arith)
                requires
                    yy >= 0 && w >= 0 && h >= 0,
            ;
            assert(yy * w + (x as int) < w * h);
            assert(len == 4 * w * h);
        }
        let i: usize = 4 * ((y as usize) * (self.width as usize) + (x as usize));
        Px { r: self.data[i], g: self.data[i + 1], b: self.data[i + 2], a: self.data[i + 3] }
    }
}

} // verus!
