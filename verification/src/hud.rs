//! The floating controls a hand on a tablet needs within reach.

use vstd::prelude::*;

verus! {

/// The five floating controls.
#[derive(Clone, Copy, PartialEq, Eq, Debug, Structural)]
pub enum PodKind {
    Size,
    Menu,
    Force,
    Pan,
    Zoom,
}

/// The name a floating control is shown under.
pub open spec fn pod_label(kind: PodKind) -> Seq<char> {
    match kind {
        PodKind::Size => "Size"@,
        PodKind::Menu => "Menu"@,
        PodKind::Force => "Force"@,
        PodKind::Pan => "Pan"@,
        PodKind::Zoom => "Zoom"@,
    }
}

impl PodKind {
    pub const ALL: [PodKind; 5] = [
        PodKind::Size,
        PodKind::Menu,
        PodKind::Force,
        PodKind::Pan,
        PodKind::Zoom,
    ];

    pub fn label(self) -> (r: &'static str)
        ensures
            r@ == pod_label(self),
    {
        match self {
            PodKind::Size => "Size",
            PodKind::Menu => "Menu",
            PodKind::Force => "Force",
            PodKind::Pan => "Pan",
            PodKind::Zoom => "Zoom",
        }
    }

    /// Tall pills for the two values, round buttons for the rest.
    pub fn is_pill(self) -> (r: bool)
        ensures
            r == (self == PodKind::Size || self == PodKind::Force),
    {
        match self {
            PodKind::Size | PodKind::Force => true,
            _ => false,
        }
    }
}


/// How long the menu button is held before the radial menu appears, in
/// nanoseconds.
pub const HOLD_NANOS: u64 = 280_000_000;

/// The menu button's hold gesture: when the press on it began.
#[derive(Clone, Copy, PartialEq, Eq, Debug, Structural)]
pub struct MenuHold {
    pub pressed_at: Option<u64>,
}

/// One frame of the hold gesture: the state after it, and whether the menu
/// is asked for. The button only opens the menu, so while the menu is open
/// the hold is forgotten; a press held past the hold time asks for the menu,
/// and letting go forgets it.
pub open spec fn hold_step(h: MenuHold, wheel_open: bool, down: bool, now: u64) -> (MenuHold, bool) {
    if wheel_open {
        (MenuHold { pressed_at: None }, false)
    } else if down {
        let started = match h.pressed_at {
            Some(t) => t,
            None => now,
        };
        (MenuHold { pressed_at: Some(started) }, now >= started && now - started > HOLD_NANOS)
    } else {
        (MenuHold { pressed_at: None }, false)
    }
}

impl MenuHold {
    /// No press under way.
    pub fn new() -> (r: MenuHold)
        ensures
            r.pressed_at is None,
    {
        MenuHold { pressed_at: None }
    }

    /// Takes one frame: whether the menu is already open, whether the
    /// pointer is down on the button, and the time in nanoseconds. Returns
    /// whether to open the menu.
    pub fn frame(&mut self, wheel_open: bool, down: bool, now: u64) -> (open: bool)
        ensures
            (*final(self), open) == hold_step(*old(self), wheel_open, down, now),
    {
        if wheel_open {
            self.pressed_at = None;
            false
        } else if down {
            let started = match self.pressed_at {
                Some(t) => t,
                None => now,
            };
            self.pressed_at = Some(started);
            now >= started && now - started > HOLD_NANOS
        } else {
            self.pressed_at = None;
            false
        }
    }
}

/// The menu is only asked for by a press held past the hold time, never by
/// the frame a press begins on, and never while it is already open.
pub proof fn only_a_long_hold_opens_the_menu(h: MenuHold, wheel_open: bool, down: bool, now: u64)
    ensures
        hold_step(h, wheel_open, down, now).1 ==> (!wheel_open && down && (h.pressed_at matches Some(t)
            && now - t > HOLD_NANOS)),
{
}

} // verus!
