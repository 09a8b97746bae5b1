//! The interface's colours.

use vstd::prelude::*;

verus! {

/// The fixed colours of the interface, each as red, green and blue bytes:
/// one accent, a small neutral ramp, and a warning.
pub struct Palette;

impl Palette {
    pub const BG: [u8; 3] = [18, 19, 23];
    pub const PANEL: [u8; 3] = [25, 27, 32];
    pub const RAISED: [u8; 3] = [34, 37, 44];
    pub const HOVER: [u8; 3] = [45, 49, 58];
    pub const LINE: [u8; 3] = [52, 56, 66];
    pub const TEXT: [u8; 3] = [226, 229, 236];
    pub const DIM: [u8; 3] = [139, 146, 161];
    pub const FAINT: [u8; 3] = [96, 102, 116];
    pub const ACCENT: [u8; 3] = [255, 138, 76];
    pub const ACCENT_DIM: [u8; 3] = [122, 66, 38];
    pub const WARN: [u8; 3] = [240, 180, 90];
}

} // verus!
