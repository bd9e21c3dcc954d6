use vstd::prelude::*;
use vstd::arithmetic::div_mod::lemma_fundamental_div_mod;
use crate::errors::EinkError;

verus! {

/// Dark threshold: a pixel whose brightness is strictly below this value is
/// dark and contributes a set bit to the packed frame.
pub const DARK_THRESHOLD: u8 = 127;

/// The single brightness classification the encoder uses.
pub open spec fn is_dark(luma: u8) -> bool {
    luma < DARK_THRESHOLD
}

/// A decoded raster image held as plain values: per-pixel brightness in
/// row-major order (top-to-bottom rows, left-to-right within a row).
#[derive(Clone, Debug)]
pub struct PixelImage {
    pub width: usize,
    pub height: usize,
    pub luma: Vec<u8>,
}

impl PixelImage {
    /// Well-formed: one brightness sample for every pixel.
    pub open spec fn wf(self) -> bool {
        self.luma@.len() == self.width * self.height
    }

    /// The brightness of the pixel at column `x` of row `y`.
    pub open spec fn luma_at(self, x: int, y: int) -> u8 {
        self.luma@[y * (self.width as int) + x]
    }

    /// Builds a pixel image, accepting exactly a sample vector that covers
    /// every coordinate of the claimed dimensions.
    pub fn new(width: usize, height: usize, luma: Vec<u8>) -> (r: Result<PixelImage, EinkError>)
        ensures
            r matches Ok(img) ==> img.width == width && img.height == height
                && img.luma@ == luma@ && img.wf(),
            r is Ok <==> luma@.len() == width * height,
            r matches Err(e) ==> e == EinkError::PixelAccessError,
    {
        if width == 0 || height == 0 {
            proof {
                assert(width * height == 0) by (nonlinear_arith)
                    requires
                        width == 0 || height == 0,
                ;
            }
            if luma.len() == 0 {
                Ok(PixelImage { width, height, luma })
            } else {
                Err(EinkError::PixelAccessError)
            }
        } else {
            let len = luma.len();
            proof {
                lemma_fundamental_div_mod(len as int, width as int);
                if len == width * height {
                    assert(len % width == 0 && len / width == height) by (nonlinear_arith)
                        requires
                            len == width * height,
                            width >= 1,
                            height >= 0,
                    ;
                }
            }
            if len % width == 0 && len / width == height {
                Ok(PixelImage { width, height, luma })
            } else {
                Err(EinkError::PixelAccessError)
            }
        }
    }

    /// Samples one pixel.
    pub fn luma_value(&self, x: usize, y: usize) -> (r: u8)
        requires
            self.wf(),
            x < self.width,
            y < self.height,
        ensures
            r == self.luma_at(x as int, y as int),
    {
        let n = self.luma.len();
        proof {
            assert(0 <= y * self.width && y * self.width + x < self.width * self.height)
                by (nonlinear_arith)
                requires
                    0 <= x < self.width,
                    0 <= y < self.height,
            ;
            assert(y * self.width + x < n);
        }
        self.luma[y * self.width + x]
    }
}

} // verus!
