//! Camera projection modes and the named viewpoints.

use vstd::prelude::*;

verus! {

/// How the scene is projected onto the screen.
#[derive(Clone, Copy, PartialEq, Eq, Debug, Structural)]
pub enum Projection {
    Perspective,
    Orthographic,
}

/// The other projection.
pub open spec fn other_projection(p: Projection) -> Projection {
    match p {
        Projection::Perspective => Projection::Orthographic,
        Projection::Orthographic => Projection::Perspective,
    }
}

impl Projection {
    /// Switches between perspective and orthographic.
    pub fn toggled(self) -> (r: Projection)
        ensures
            r == other_projection(self),
    {
        match self {
            Projection::Perspective => Projection::Orthographic,
            Projection::Orthographic => Projection::Perspective,
        }
    }
}

/// Switching the projection always changes it, and switching twice comes
/// back to where it was.
pub proof fn toggling_twice_comes_back(p: Projection)
    ensures
        other_projection(p) != p,
        other_projection(other_projection(p)) == p,
{
}

/// Named viewpoints, matching the numeric keypad convention.
#[derive(Clone, Copy, PartialEq, Eq, Debug, Structural)]
pub enum ViewPreset {
    Front,
    Back,
    Left,
    Right,
    Top,
    Bottom,
}

/// The name a view preset is shown under.
pub open spec fn view_preset_label(p: ViewPreset) -> Seq<char> {
    match p {
        ViewPreset::Front => "Front"@,
        ViewPreset::Back => "Back"@,
        ViewPreset::Left => "Left"@,
        ViewPreset::Right => "Right"@,
        ViewPreset::Top => "Top"@,
        ViewPreset::Bottom => "Bottom"@,
    }
}

impl ViewPreset {
    pub const ALL: [ViewPreset; 6] = [
        ViewPreset::Front,
        ViewPreset::Back,
        ViewPreset::Left,
        ViewPreset::Right,
        ViewPreset::Top,
        ViewPreset::Bottom,
    ];

    pub fn label(self) -> (r: &'static str)
        ensures
            r@ == view_preset_label(self),
    {
        match self {
            ViewPreset::Front => "Front",
            ViewPreset::Back => "Back",
            ViewPreset::Left => "Left",
            ViewPreset::Right => "Right",
            ViewPreset::Top => "Top",
            ViewPreset::Bottom => "Bottom",
        }
    }
}

} // verus!
