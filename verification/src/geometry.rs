use vstd::prelude::*;

verus! {

/// Hard upper bound on a packed layer's size in bytes.  The reference panel
/// is 400 x 300 pixels, which packs to exactly this many bytes per layer;
/// the capacity is a fixed property of the panel buffer, not a derived value.
pub const LAYER_CAPACITY: usize = 15000;

/// Panel geometry in pixels.
#[derive(Clone, Copy, Debug, PartialEq, Eq, Structural)]
pub struct Geometry {
    pub width: usize,
    pub height: usize,
}

impl Geometry {
    /// Well-formed: the width is a multiple of 8 (one packed byte covers 8
    /// horizontal pixels), and the pixel count fits the panel's fixed buffer
    /// capacity.
    pub open spec fn wf(self) -> bool {
        &&& self.width % 8 == 0
        &&& self.width * self.height <= LAYER_CAPACITY * 8
    }

    /// Bytes per packed layer: one bit per pixel.
    pub open spec fn layer_len(self) -> int {
        (self.width as int) * (self.height as int) / 8
    }

    /// Packed bytes (8-pixel groups) per row.
    pub open spec fn groups_per_row(self) -> int {
        self.width as int / 8
    }

    /// Builds a geometry, accepting exactly the well-formed ones.
    pub fn new(width: usize, height: usize) -> (r: Option<Geometry>)
        ensures
            r matches Some(g) ==> g.width == width && g.height == height && g.wf(),
            r is None ==> !(Geometry { width, height }).wf(),
    {
        if width % 8 != 0 {
            return None;
        }
        if width == 0 || height == 0 {
            proof {
                assert(width * height == 0) by (nonlinear_arith)
                    requires
                        width == 0 || height == 0,
                ;
            }
            return Some(Geometry { width, height });
        }
        if width <= LAYER_CAPACITY * 8 && height <= LAYER_CAPACITY * 8 {
            proof {
                assert(width * height <= (LAYER_CAPACITY * 8) * (LAYER_CAPACITY * 8))
                    by (nonlinear_arith)
                    requires
                        0 <= width <= LAYER_CAPACITY * 8,
                        0 <= height <= LAYER_CAPACITY * 8,
                ;
            }
            if (width as u64) * (height as u64) <= (LAYER_CAPACITY * 8) as u64 {
                Some(Geometry { width, height })
            } else {
                None
            }
        } else {
            proof {
                assert(width * height > LAYER_CAPACITY * 8) by (nonlinear_arith)
                    requires
                        width >= 1,
                        height >= 1,
                        width > LAYER_CAPACITY * 8 || height > LAYER_CAPACITY * 8,
                ;
            }
            None
        }
    }

    /// The packed size of one layer, in bytes.
    pub fn layer_byte_count(&self) -> (r: usize)
        requires
            self.wf(),
        ensures
            r == self.layer_len(),
            r == self.groups_per_row() * self.height,
            r <= LAYER_CAPACITY,
    {
        proof {
            lemma_layer_len(*self);
        }
        (self.width / 8) * self.height
    }
}

/// For a well-formed geometry the layer size is exactly one byte per
/// 8-pixel group, row by row, and it fits the panel's buffer capacity.
pub proof fn lemma_layer_len(g: Geometry)
    requires
        g.wf(),
    ensures
        g.layer_len() == g.groups_per_row() * g.height,
        0 <= g.layer_len() <= LAYER_CAPACITY,
        8 * g.groups_per_row() == g.width,
{
    let w = g.width as int;
    let h = g.height as int;
    assert(8 * (w / 8) == w);
    assert((8 * (w / 8)) * h == 8 * ((w / 8) * h)) by (nonlinear_arith);
    assert(8 * ((w / 8) * h) / 8 == (w / 8) * h);
    assert((w / 8) * h >= 0) by (nonlinear_arith)
        requires
            w >= 0,
            h >= 0,
    ;
    assert(8 * ((w / 8) * h) <= 8 * LAYER_CAPACITY);
}

} // verus!
