//! What the keyboard does: the shortcuts, the digits that pick tools, and
//! how a key press is routed between the radial menu and the shortcuts.

use vstd::prelude::*;
use crate::camera::ViewPreset;
use crate::text::{decimal, shortcut_text};

verus! {

/// The keys the shortcuts use. Every other key is `Other`.
#[derive(Clone, Copy, PartialEq, Eq, Debug, Structural)]
pub enum Key {
    KeyZ,
    KeyY,
    KeyX,
    KeyW,
    KeyG,
    KeyF,
    KeyV,
    KeyH,
    KeyT,
    Tab,
    BracketLeft,
    BracketRight,
    Minus,
    Equal,
    Numpad1,
    Numpad3,
    Numpad5,
    Numpad7,
    Digit0,
    Digit1,
    Digit2,
    Digit3,
    Digit4,
    Digit5,
    Digit6,
    Digit7,
    Digit8,
    Digit9,
    Other,
}

/// The digit a key carries, if it is one of the digit keys.
pub open spec fn digit_of(key: Key) -> Option<nat> {
    match key {
        Key::Digit0 => Some(0),
        Key::Digit1 => Some(1),
        Key::Digit2 => Some(2),
        Key::Digit3 => Some(3),
        Key::Digit4 => Some(4),
        Key::Digit5 => Some(5),
        Key::Digit6 => Some(6),
        Key::Digit7 => Some(7),
        Key::Digit8 => Some(8),
        Key::Digit9 => Some(9),
        _ => None,
    }
}

/// The key that carries a digit.
pub open spec fn digit_key(d: nat) -> Key {
    if d == 0 {
        Key::Digit0
    } else if d == 1 {
        Key::Digit1
    } else if d == 2 {
        Key::Digit2
    } else if d == 3 {
        Key::Digit3
    } else if d == 4 {
        Key::Digit4
    } else if d == 5 {
        Key::Digit5
    } else if d == 6 {
        Key::Digit6
    } else if d == 7 {
        Key::Digit7
    } else if d == 8 {
        Key::Digit8
    } else {
        Key::Digit9
    }
}

/// The tool a digit picks: one to nine the first nine, nought the tenth,
/// and with shift one to six reach the six past those.
pub open spec fn tool_for(key: Key, shift: bool) -> Option<nat> {
    match digit_of(key) {
        Some(d) => {
            let base: nat = if d == 0 { 9 } else { (d - 1) as nat };
            Some(if shift && base < 6 { base + 10 } else { base })
        },
        None => None,
    }
}

/// The tool a digit key picks, if it is one.
pub fn tool_index(key: Key, shift: bool) -> (r: Option<usize>)
    ensures
        match r {
            Some(i) => tool_for(key, shift) == Some(i as nat),
            None => tool_for(key, shift) is None,
        },
{
    let base: usize = match key {
        Key::Digit1 => 0,
        Key::Digit2 => 1,
        Key::Digit3 => 2,
        Key::Digit4 => 3,
        Key::Digit5 => 4,
        Key::Digit6 => 5,
        Key::Digit7 => 6,
        Key::Digit8 => 7,
        Key::Digit9 => 8,
        Key::Digit0 => 9,
        _ => return None,
    };
    // Shift reaches the tools past the tenth.
    Some(if shift && base < 6 { base + 10 } else { base })
}

/// The label a key is shown under in the tool shortcuts.
pub open spec fn key_label(d: nat, shift: bool) -> Seq<char> {
    if shift {
        "Shift+"@ + decimal(d)
    } else {
        decimal(d)
    }
}

/// The digit whose key picks a tool, as the shortcut list shows it.
pub open spec fn shortcut_digit(i: nat) -> nat {
    if i <= 8 {
        i + 1
    } else if i == 9 {
        0
    } else {
        (i - 9) as nat
    }
}

/// The shortcut shown beside a tool is the key that picks it, for every
/// place the shortcut list labels (the first sixteen; the toolbox fills
/// thirteen of them): its digit, with shift for those past the tenth.
pub proof fn shown_shortcuts_pick_their_tool(i: nat)
    requires
        i < 16,
    ensures
        tool_for(digit_key(shortcut_digit(i)), i >= 10) == Some(i),
        shortcut_text(i) == key_label(shortcut_digit(i), i >= 10),
{
    reveal_strlit("0");
    assert(decimal(0) =~= "0"@);
}

/// What a key press asks for.
#[derive(Clone, Copy, PartialEq, Eq, Debug, Structural)]
pub enum KeyCommand {
    Undo,
    Redo,
    ToggleSymmetry,
    ToggleWireframe,
    ToggleGrid,
    FrameView,
    ToggleVoxel,
    ToggleHelp,
    NextGizmoMode,
    TogglePanel,
    /// Brush radius down a step.
    ShrinkBrush,
    /// Brush radius up a step.
    GrowBrush,
    /// Brush strength down a step.
    Weaken,
    /// Brush strength up a step.
    Strengthen,
    SetView(ViewPreset),
    ToggleProjection,
    PickTool(usize),
    Nothing,
}

/// The shortcut table.
pub open spec fn command_spec(key: Key, ctrl: bool, shift: bool, wireframe_available: bool) -> KeyCommand {
    if key == Key::KeyZ && ctrl && shift {
        KeyCommand::Redo
    } else if key == Key::KeyZ && ctrl {
        KeyCommand::Undo
    } else if key == Key::KeyY && ctrl {
        KeyCommand::Redo
    } else if key == Key::KeyX {
        KeyCommand::ToggleSymmetry
    } else if key == Key::KeyW && wireframe_available {
        KeyCommand::ToggleWireframe
    } else if key == Key::KeyG {
        KeyCommand::ToggleGrid
    } else if key == Key::KeyF {
        KeyCommand::FrameView
    } else if key == Key::KeyV {
        KeyCommand::ToggleVoxel
    } else if key == Key::KeyH {
        KeyCommand::ToggleHelp
    } else if key == Key::KeyT {
        KeyCommand::NextGizmoMode
    } else if key == Key::Tab {
        KeyCommand::TogglePanel
    } else if key == Key::BracketLeft {
        KeyCommand::ShrinkBrush
    } else if key == Key::BracketRight {
        KeyCommand::GrowBrush
    } else if key == Key::Minus {
        KeyCommand::Weaken
    } else if key == Key::Equal {
        KeyCommand::Strengthen
    } else if key == Key::Numpad1 {
        KeyCommand::SetView(ViewPreset::Front)
    } else if key == Key::Numpad3 {
        KeyCommand::SetView(ViewPreset::Right)
    } else if key == Key::Numpad7 {
        KeyCommand::SetView(ViewPreset::Top)
    } else if key == Key::Numpad5 {
        KeyCommand::ToggleProjection
    } else {
        match tool_for(key, shift) {
            Some(i) => KeyCommand::PickTool(i as usize),
            None => KeyCommand::Nothing,
        }
    }
}

/// What a key press asks for, given the modifiers held and whether the
/// wireframe can be drawn at all.
pub fn command_for(key: Key, ctrl: bool, shift: bool, wireframe_available: bool) -> (r: KeyCommand)
    ensures
        r == command_spec(key, ctrl, shift, wireframe_available),
{
    match key {
        Key::KeyZ if ctrl && shift => KeyCommand::Redo,
        Key::KeyZ if ctrl => KeyCommand::Undo,
        Key::KeyY if ctrl => KeyCommand::Redo,
        Key::KeyX => KeyCommand::ToggleSymmetry,
        Key::KeyW if wireframe_available => KeyCommand::ToggleWireframe,
        Key::KeyG => KeyCommand::ToggleGrid,
        Key::KeyF => KeyCommand::FrameView,
        Key::KeyV => KeyCommand::ToggleVoxel,
        Key::KeyH => KeyCommand::ToggleHelp,
        Key::KeyT => KeyCommand::NextGizmoMode,
        Key::Tab => KeyCommand::TogglePanel,
        Key::BracketLeft => KeyCommand::ShrinkBrush,
        Key::BracketRight => KeyCommand::GrowBrush,
        Key::Minus => KeyCommand::Weaken,
        Key::Equal => KeyCommand::Strengthen,
        Key::Numpad1 => KeyCommand::SetView(ViewPreset::Front),
        Key::Numpad3 => KeyCommand::SetView(ViewPreset::Right),
        Key::Numpad7 => KeyCommand::SetView(ViewPreset::Top),
        Key::Numpad5 => KeyCommand::ToggleProjection,
        _ => match tool_index(key, shift) {
            Some(i) => KeyCommand::PickTool(i),
            None => KeyCommand::Nothing,
        },
    }
}

/// Where a key event goes.
#[derive(Clone, Copy, PartialEq, Eq, Debug, Structural)]
pub enum KeyRoute {
    /// The key becomes the one that summons the radial menu.
    Rebind,
    /// The radial menu opens.
    OpenWheel,
    /// The radial menu closes.
    CloseWheel,
    /// The key goes to the shortcuts.
    Shortcut,
    /// Nothing happens.
    Ignore,
}

/// How a key event is routed: while waiting for a new menu key, the next
/// press is taken, whatever it is; the menu key opens the menu on a fresh
/// press and closes it on release, so it lives exactly as long as the key is
/// held; any other press goes to the shortcuts unless the menu is open.
pub open spec fn route_spec(rebinding: bool, pressed: bool, repeat: bool, is_wheel_key: bool, wheel_open: bool) -> KeyRoute {
    if rebinding && pressed {
        KeyRoute::Rebind
    } else if is_wheel_key {
        if pressed {
            if !wheel_open && !repeat {
                KeyRoute::OpenWheel
            } else {
                KeyRoute::Ignore
            }
        } else {
            KeyRoute::CloseWheel
        }
    } else if pressed && !wheel_open {
        KeyRoute::Shortcut
    } else {
        KeyRoute::Ignore
    }
}

/// Routes a key event.
pub fn route_key(rebinding: bool, pressed: bool, repeat: bool, is_wheel_key: bool, wheel_open: bool) -> (r: KeyRoute)
    ensures
        r == route_spec(rebinding, pressed, repeat, is_wheel_key, wheel_open),
{
    if rebinding && pressed {
        return KeyRoute::Rebind;
    }
    if is_wheel_key {
        if pressed {
            if !wheel_open && !repeat {
                KeyRoute::OpenWheel
            } else {
                KeyRoute::Ignore
            }
        } else {
            KeyRoute::CloseWheel
        }
    } else if pressed && !wheel_open {
        KeyRoute::Shortcut
    } else {
        KeyRoute::Ignore
    }
}

/// Holding shift swaps to the smoothing tool for as long as it is down.
///
/// Between strokes, shift going down remembers the tool in hand and takes up
/// smoothing (unless smoothing is already in hand), and shift coming up puts
/// the remembered tool back. A stroke in progress keeps its tool until it
/// ends. The answer is what to remember now, and which tool to take up, if
/// any.
pub open spec fn shift_swap<K>(
    stroking: bool,
    shift: bool,
    remembered: Option<K>,
    current: K,
    current_smooths: bool,
    smooth: K,
) -> (Option<K>, Option<K>) {
    if stroking {
        (remembered, None)
    } else if shift && remembered is None && !current_smooths {
        (Some(current), Some(smooth))
    } else if !shift && remembered is Some {
        (None, remembered)
    } else {
        (remembered, None)
    }
}

/// Decides the shift swap; see [`shift_swap`].
pub fn modifier_tool<K: Copy>(
    stroking: bool,
    shift: bool,
    remembered: Option<K>,
    current: K,
    current_smooths: bool,
    smooth: K,
) -> (r: (Option<K>, Option<K>))
    ensures
        r == shift_swap(stroking, shift, remembered, current, current_smooths, smooth),
{
    if stroking {
        return (remembered, None);
    }
    match remembered {
        None => {
            if shift && !current_smooths {
                (Some(current), Some(smooth))
            } else {
                (None, None)
            }
        },
        Some(previous) => {
            if !shift {
                (None, Some(previous))
            } else {
                (remembered, None)
            }
        },
    }
}

/// Pressing shift and letting it go again between strokes comes back to the
/// tool that was in hand, and remembers nothing afterwards.
pub proof fn letting_go_of_shift_brings_the_tool_back<K>(current: K, current_smooths: bool, smooth: K, smooth_smooths: bool)
    requires
        !current_smooths,
    ensures
        ({
            let (kept, taken) = shift_swap(false, true, None, current, current_smooths, smooth);
            let (after, back) = shift_swap(false, false, kept, smooth, smooth_smooths, smooth);
            &&& taken == Some(smooth)
            &&& back == Some(current)
            &&& after is None
        }),
{
}

/// The keypad's view keys follow the numeric keypad's layout whatever
/// modifiers are held: 1 looks from the front, 3 from the right and 7 from
/// the top, three different views, and 5 switches the projection.
pub proof fn keypad_views_follow_the_keypad(ctrl: bool, shift: bool, wireframe_available: bool)
    ensures
        command_spec(Key::Numpad1, ctrl, shift, wireframe_available) == KeyCommand::SetView(ViewPreset::Front),
        command_spec(Key::Numpad3, ctrl, shift, wireframe_available) == KeyCommand::SetView(ViewPreset::Right),
        command_spec(Key::Numpad7, ctrl, shift, wireframe_available) == KeyCommand::SetView(ViewPreset::Top),
        command_spec(Key::Numpad5, ctrl, shift, wireframe_available) == KeyCommand::ToggleProjection,
{
}

/// Undo and redo sit on Ctrl+Z, with shift for redo, and on Ctrl+Y for
/// redo; without ctrl neither letter undoes anything. The brush keys come in
/// opposite pairs that work with any modifier held: [ and ] shrink and grow
/// the brush, - and = weaken and strengthen it. The wireframe key does
/// nothing where no wireframe can be drawn.
pub proof fn undo_redo_and_brush_keys(ctrl: bool, shift: bool, wireframe_available: bool)
    ensures
        ctrl ==> command_spec(Key::KeyZ, ctrl, shift, wireframe_available) == (if shift {
            KeyCommand::Redo
        } else {
            KeyCommand::Undo
        }),
        ctrl ==> command_spec(Key::KeyY, ctrl, shift, wireframe_available) == KeyCommand::Redo,
        !ctrl ==> command_spec(Key::KeyZ, ctrl, shift, wireframe_available) != KeyCommand::Undo
            && command_spec(Key::KeyZ, ctrl, shift, wireframe_available) != KeyCommand::Redo
            && command_spec(Key::KeyY, ctrl, shift, wireframe_available) != KeyCommand::Redo,
        command_spec(Key::BracketLeft, ctrl, shift, wireframe_available) == KeyCommand::ShrinkBrush,
        command_spec(Key::BracketRight, ctrl, shift, wireframe_available) == KeyCommand::GrowBrush,
        command_spec(Key::Minus, ctrl, shift, wireframe_available) == KeyCommand::Weaken,
        command_spec(Key::Equal, ctrl, shift, wireframe_available) == KeyCommand::Strengthen,
        command_spec(Key::KeyX, ctrl, shift, wireframe_available) == KeyCommand::ToggleSymmetry,
        command_spec(Key::KeyW, ctrl, shift, wireframe_available) == (if wireframe_available {
            KeyCommand::ToggleWireframe
        } else {
            KeyCommand::Nothing
        }),
{
}

/// The key whose shortcut is shown beside a tool picks that tool, whether
/// or not ctrl is held.
pub proof fn shown_shortcuts_are_commands(i: nat, ctrl: bool, wireframe_available: bool)
    requires
        i < 16,
    ensures
        command_spec(digit_key(shortcut_digit(i)), ctrl, i >= 10, wireframe_available) == KeyCommand::PickTool(
            i as usize,
        ),
{
    shown_shortcuts_pick_their_tool(i);
}

} // verus!
