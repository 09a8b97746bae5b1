//! The transform gizmo's modes and handles.

use vstd::prelude::*;

verus! {

/// What the transform gizmo does when dragged.
#[derive(Clone, Copy, PartialEq, Eq, Debug, Structural)]
pub enum GizmoMode {
    Off,
    Move,
    Rotate,
    Scale,
}

/// The name a gizmo mode is shown under.
pub open spec fn gizmo_mode_label(mode: GizmoMode) -> Seq<char> {
    match mode {
        GizmoMode::Off => "Off"@,
        GizmoMode::Move => "Move"@,
        GizmoMode::Rotate => "Rotate"@,
        GizmoMode::Scale => "Scale"@,
    }
}

impl GizmoMode {
    pub const ALL: [GizmoMode; 4] = [
        GizmoMode::Off,
        GizmoMode::Move,
        GizmoMode::Rotate,
        GizmoMode::Scale,
    ];

    pub fn label(self) -> (r: &'static str)
        ensures
            r@ == gizmo_mode_label(self),
    {
        match self {
            GizmoMode::Off => "Off",
            GizmoMode::Move => "Move",
            GizmoMode::Rotate => "Rotate",
            GizmoMode::Scale => "Scale",
        }
    }
}

/// The mode after this one: off, move, rotate, scale, and back to off.
pub open spec fn following_mode(mode: GizmoMode) -> GizmoMode {
    match mode {
        GizmoMode::Off => GizmoMode::Move,
        GizmoMode::Move => GizmoMode::Rotate,
        GizmoMode::Rotate => GizmoMode::Scale,
        GizmoMode::Scale => GizmoMode::Off,
    }
}

/// Off, move, rotate, scale, and back to off.
pub fn next_gizmo_mode(mode: GizmoMode) -> (r: GizmoMode)
    ensures
        r == following_mode(mode),
{
    match mode {
        GizmoMode::Off => GizmoMode::Move,
        GizmoMode::Move => GizmoMode::Rotate,
        GizmoMode::Rotate => GizmoMode::Scale,
        GizmoMode::Scale => GizmoMode::Off,
    }
}

/// Where a mode sits in the cycle.
pub open spec fn mode_position(mode: GizmoMode) -> nat {
    match mode {
        GizmoMode::Off => 0,
        GizmoMode::Move => 1,
        GizmoMode::Rotate => 2,
        GizmoMode::Scale => 3,
    }
}

/// The mode reached after pressing the cycling key `n` times.
pub open spec fn cycled(mode: GizmoMode, n: nat) -> GizmoMode
    decreases n,
{
    if n == 0 {
        mode
    } else {
        following_mode(cycled(mode, (n - 1) as nat))
    }
}

/// Cycling visits every mode: `n` presses move `n` places round the cycle of
/// four, so four presses come back to where they started and every mode is
/// reached from every other.
pub proof fn cycling_goes_round(mode: GizmoMode, n: nat)
    ensures
        mode_position(cycled(mode, n)) == (mode_position(mode) + n) % 4,
        cycled(mode, 4) == mode,
    decreases n,
{
    reveal_with_fuel(cycled, 5);
    if n > 0 {
        cycling_goes_round(mode, (n - 1) as nat);
    }
}

/// One of the gizmo's handles. `Screen` is the free handle at the centre.
#[derive(Clone, Copy, PartialEq, Eq, Debug, Structural)]
pub enum Handle {
    X,
    Y,
    Z,
    Screen,
}

/// The slot each handle occupies in per-handle tables.
pub open spec fn handle_index(h: Handle) -> usize {
    match h {
        Handle::X => 0,
        Handle::Y => 1,
        Handle::Z => 2,
        Handle::Screen => 3,
    }
}

impl Handle {
    /// The three axis handles, in axis order.
    pub const AXES: [Handle; 3] = [Handle::X, Handle::Y, Handle::Z];

    /// The slot this handle occupies in per-handle tables.
    pub fn index(self) -> (r: usize)
        ensures
            r == handle_index(self),
    {
        match self {
            Handle::X => 0,
            Handle::Y => 1,
            Handle::Z => 2,
            Handle::Screen => 3,
        }
    }
}

/// Each handle has a slot of its own, and the slots are exactly 0 to 3.
pub proof fn handle_slots_are_distinct(a: Handle, b: Handle)
    ensures
        handle_index(a) < 4,
        handle_index(a) == handle_index(b) <==> a == b,
{
}

} // verus!
