//! The radial menu's saved swatches, and how it tells a deliberate choice
//! from the event storm it opens in.
//!
//! Nothing responds to hover alone: every change takes a deliberate press or
//! a lift. Summoned by a key, the pointer is free and a press chooses.
//! Summoned by holding a button, the finger is already down and will not
//! press again without letting go, so the choice lands on the lift, and the
//! lift also closes the menu.

use vstd::prelude::*;

verus! {

/// How many swatches the palette holds.
pub const SWATCHES: usize = 10;

/// What the painting menu asks the rest of the application for.
#[derive(Clone, Copy, PartialEq, Eq, Debug, Structural)]
pub enum WheelRequest {
    /// Start picking a colour off the model.
    PickColor,
}

/// Saves a colour at the end of the palette, dropping the oldest once there
/// are more than the palette holds. A palette already over its size (one
/// read from an older file) loses only its oldest colour per addition.
pub fn add_swatch<T>(swatches: &mut Vec<T>, colour: T)
    ensures
        final(swatches)@ == (if old(swatches)@.len() < SWATCHES {
            old(swatches)@.push(colour)
        } else {
            old(swatches)@.push(colour).drop_first()
        }),
{
    swatches.push(colour);
    if swatches.len() > SWATCHES {
        swatches.remove(0);
        proof {
            assert(swatches@ =~= old(swatches)@.push(colour).drop_first());
        }
    }
}

/// Frames after opening during which a lift is never taken for a choice.
pub const SETTLE_FRAMES: u32 = 3;

/// What the menu remembers about the pointer between frames.
#[derive(Clone, Copy, PartialEq, Eq, Debug, Structural)]
pub struct MenuPointer {
    /// Whether the pointer was already down when the menu opened, settled on
    /// the first frame.
    pub opened_held: Option<bool>,
    /// Whether the pointer was down last frame, so a lift is seen as the
    /// level going from down to up rather than trusted from an event: remote
    /// desktops and pen digitisers both report lifts the hand never made.
    pub was_down: bool,
    /// Frames since the menu opened.
    pub frames: u32,
}

/// What one frame of pointer input means to the open menu.
#[derive(Clone, Copy, PartialEq, Eq, Debug, Structural)]
pub struct MenuFrame {
    /// Whatever is under the pointer is chosen this frame.
    pub choose: bool,
    /// The menu closes: the finger that opened it has lifted.
    pub close: bool,
}

/// The pointer state of a menu that has just opened.
pub open spec fn just_opened() -> MenuPointer {
    MenuPointer { opened_held: None, was_down: true, frames: 0 }
}

/// One frame of the menu's pointer logic: the state after it, and what the
/// frame means.
pub open spec fn menu_step(p: MenuPointer, down: bool, pressed: bool) -> (MenuPointer, MenuFrame) {
    let held_open = match p.opened_held {
        Some(h) => h,
        None => down,
    };
    let frames = if p.frames < u32::MAX { (p.frames + 1) as u32 } else { p.frames };
    let settled = frames > SETTLE_FRAMES;
    let release_edge = settled && p.was_down && !down;
    let choose = if held_open { release_edge } else { pressed };
    (
        MenuPointer { opened_held: Some(held_open), was_down: down, frames },
        MenuFrame { choose, close: held_open && release_edge },
    )
}

impl MenuPointer {
    /// The state of a menu that has just opened: how it was summoned is not
    /// known until its first frame.
    pub fn opened() -> (r: MenuPointer)
        ensures
            r == just_opened(),
    {
        MenuPointer { opened_held: None, was_down: true, frames: 0 }
    }

    /// Takes one frame of pointer input: whether the primary button is down
    /// and whether it was pressed this frame.
    pub fn frame(&mut self, down: bool, pressed: bool) -> (r: MenuFrame)
        ensures
            (*final(self), r) == menu_step(*old(self), down, pressed),
    {
        let held_open = match self.opened_held {
            Some(h) => h,
            None => down,
        };
        self.opened_held = Some(held_open);
        self.frames = self.frames.saturating_add(1);
        let settled = self.frames > SETTLE_FRAMES;
        let release_edge = settled && self.was_down && !down;
        self.was_down = down;
        let choose = if held_open { release_edge } else { pressed };
        MenuFrame { choose, close: held_open && release_edge }
    }
}

/// A menu summoned by a key, with the pointer up on its first frame, is
/// never closed by the pointer, and chooses exactly on a press.
pub proof fn a_key_summoned_menu_ignores_lifts(p: MenuPointer, down: bool, pressed: bool)
    requires
        p.opened_held == Some(false),
    ensures
        !menu_step(p, down, pressed).1.close,
        menu_step(p, down, pressed).1.choose == pressed,
        menu_step(p, down, pressed).0.opened_held == Some(false),
{
}

/// A menu opened by a held finger neither chooses nor closes during its
/// first frames, whatever the pointer reports, and once settled it chooses
/// and closes together, when the finger lifts.
pub proof fn a_held_menu_waits_for_the_lift(p: MenuPointer, down: bool, pressed: bool)
    requires
        p.opened_held == Some(true),
    ensures
        p.frames < SETTLE_FRAMES ==> menu_step(p, down, pressed).1 == (MenuFrame { choose: false, close: false }),
        menu_step(p, down, pressed).1.choose == menu_step(p, down, pressed).1.close,
        menu_step(p, down, pressed).1.close ==> p.was_down && !down,
{
}

/// The first frame settles for good how the menu was summoned.
pub proof fn the_first_frame_decides(down: bool, pressed: bool)
    ensures
        menu_step(just_opened(), down, pressed).0.opened_held == Some(down),
        !menu_step(just_opened(), down, pressed).1.close,
{
}

} // verus!
