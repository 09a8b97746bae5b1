//! The names of the interface's vector icons.

use vstd::prelude::*;

verus! {

/// Every icon the interface paints: one per brush, then the actions.
#[derive(Clone, Copy, PartialEq, Eq, Debug, Structural)]
pub enum Icon {
    // Brushes
    Draw,
    Clay,
    Flatten,
    Smooth,
    Pinch,
    Crease,
    Inflate,
    Move,
    Drag,
    Twist,
    Scale,
    Paint,
    Smudge,
    ColorBlur,
    Fill,
    Mask,
    // Actions
    Undo,
    Redo,
    Symmetry,
    Wireframe,
    Grid,
    FrameView,
    Open,
    Save,
    New,
    Subdivide,
    Remesh,
    Decimate,
    CloseHoles,
    Mirror,
    Duplicate,
    Trash,
    Eye,
    EyeOff,
    Plus,
    Settings,
    Camera,
    Palette,
    Menu,
    Close,
    Pin,
    Reset,
}

} // verus!
