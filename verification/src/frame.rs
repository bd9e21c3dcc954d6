use vstd::prelude::*;
use crate::geometry::Geometry;

verus! {

/// The two bit-packed planes a frame transfer carries.
#[derive(Clone, Copy, Debug, PartialEq, Eq, Structural)]
pub enum LayerKind {
    /// Black/white plane, selected by the first layer-select command.
    Primary,
    /// Accent-color plane, selected by the second layer-select command.
    Secondary,
}

/// A fully packed frame: the primary (black/white) layer, the secondary
/// (accent-color) layer, the geometry they were packed for, and the
/// color-mode flag.  While color mode is disabled the secondary layer is
/// all zero bytes: accent-color packing is a documented no-op placeholder,
/// not silently wrong data.
#[derive(Clone, Debug)]
pub struct FrameBuffer {
    pub primary: Vec<u8>,
    pub secondary: Vec<u8>,
    pub geometry: Geometry,
    pub color: bool,
}

impl FrameBuffer {
    /// Well-formed: both layers are exactly one packed bit per pixel, and
    /// with color mode disabled the secondary layer holds only zero bytes.
    pub open spec fn wf(self) -> bool {
        &&& self.geometry.wf()
        &&& self.primary@.len() == self.geometry.layer_len()
        &&& self.secondary@.len() == self.geometry.layer_len()
        &&& !self.color ==> forall|i: int|
                0 <= i < self.secondary@.len() ==> self.secondary@[i] == 0u8
    }
}

} // verus!
