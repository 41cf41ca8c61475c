use vstd::prelude::*;

verus! {

/// The mathematical picture of a grey image: its dimensions and its pixels in row-major order.
pub struct Grid {
    pub width: nat,
    pub height: nat,
    pub pixels: Seq<u8>,
}

impl Grid {
    /// The pixel sequence holds exactly one value per position.
    pub open spec fn is_wf(self) -> bool {
        self.pixels.len() == self.width * self.height
    }

    /// The value at column `x` of row `y`.
    pub open spec fn at(self, x: int, y: int) -> u8 {
        self.pixels[y * self.width + x]
    }
}

/// A single-channel 8-bit image, row-major, one byte per pixel.
pub struct GrayImage {
    pub(crate) width: u32,
    pub(crate) height: u32,
    pub(crate) pixels: Vec<u8>,
}

impl GrayImage {
    #[verifier::type_invariant]
    spec fn well_formed(self) -> bool {
        self.pixels@.len() == self.width as int * self.height as int
    }

    /// Builds an image from its dimensions and its row-major pixels; `None` when the number of
    /// pixels is not `width * height`.
    pub fn new(width: u32, height: u32, pixels: Vec<u8>) -> (r: Option<GrayImage>)
        ensures
            r is Some <==> pixels@.len() == width as int * height as int,
            r matches Some(img) ==> img@ == (Grid {
                width: width as nat,
                height: height as nat,
                pixels: pixels@,
            }),
    {
        let w: usize = width as usize;
        let h: usize = height as usize;
        let len: usize = pixels.len();
        match w.checked_mul(h) {
            Some(n) => {
                if len == n {
                    Some(GrayImage { width, height, pixels })
                } else {
                    None
                }
            },
            None => None,
        }
    }

    /// The width in pixels.
    pub fn width(&self) -> (r: u32)
        ensures
            r == self@.width,
            self@.is_wf(),
    {
        proof {
            use_type_invariant(self);
        }
        self.width
    }

    /// The height in pixels.
    pub fn height(&self) -> (r: u32)
        ensures
            r == self@.height,
            self@.is_wf(),
    {
        proof {
            use_type_invariant(self);
        }
        self.height
    }

    /// The value at column `x` of row `y`.
    pub fn pixel(&self, x: u32, y: u32) -> (r: u8)
        requires
            x < self@.width,
            y < self@.height,
        ensures
            r == self@.at(x as int, y as int),
    {
        proof {
            use_type_invariant(self);
        }
        let len: usize = self.pixels.len();
        proof {
            assert(y * self.width + x < self.width * self.height) by (nonlinear_arith)
                requires
                    x < self.width,
                    y < self.height,
            ;
            assert(0 <= y * self.width) by (nonlinear_arith);
        }
        let i: usize = y as usize * self.width as usize + x as usize;
        self.pixels[i]
    }

    /// The row-major pixels.
    pub fn pixels(&self) -> (r: &Vec<u8>)
        ensures
            r@ == self@.pixels,
            self@.is_wf(),
    {
        proof {
            use_type_invariant(self);
        }
        &self.pixels
    }
}

impl View for GrayImage {
    type V = Grid;

    closed spec fn view(&self) -> Grid {
        Grid { width: self.width as nat, height: self.height as nat, pixels: self.pixels@ }
    }
}

} // verus!
