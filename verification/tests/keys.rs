use sculpt_app::camera::ViewPreset;
use sculpt_app::keys::{command_for, modifier_tool, route_key, tool_index, Key, KeyCommand, KeyRoute};
use sculpt_app::text::shortcut_for;

const DIGITS: [Key; 10] = [
    Key::Digit0,
    Key::Digit1,
    Key::Digit2,
    Key::Digit3,
    Key::Digit4,
    Key::Digit5,
    Key::Digit6,
    Key::Digit7,
    Key::Digit8,
    Key::Digit9,
];

#[test]
fn digits_pick_tools_and_shift_reaches_past_the_tenth() {
    assert_eq!(tool_index(Key::Digit1, false), Some(0));
    assert_eq!(tool_index(Key::Digit9, false), Some(8));
    assert_eq!(tool_index(Key::Digit0, false), Some(9));
    assert_eq!(tool_index(Key::Digit1, true), Some(10));
    assert_eq!(tool_index(Key::Digit6, true), Some(15));
    assert_eq!(tool_index(Key::Digit7, true), Some(6));
    assert_eq!(tool_index(Key::Digit0, true), Some(9));
    assert_eq!(tool_index(Key::KeyZ, false), None);
}

#[test]
fn the_shortcut_shown_picks_its_tool() {
    for i in 0..16usize {
        let label = shortcut_for(i);
        let shift = label.starts_with("Shift+");
        let digit: usize = label.trim_start_matches("Shift+").parse().unwrap();
        assert_eq!(tool_index(DIGITS[digit], shift), Some(i), "{label}");
    }
}

#[test]
fn shortcuts_map_to_commands() {
    assert_eq!(command_for(Key::KeyZ, true, true, true), KeyCommand::Redo);
    assert_eq!(command_for(Key::KeyZ, true, false, true), KeyCommand::Undo);
    assert_eq!(command_for(Key::KeyZ, false, false, true), KeyCommand::Nothing);
    assert_eq!(command_for(Key::KeyY, true, false, true), KeyCommand::Redo);
    assert_eq!(command_for(Key::KeyY, false, false, true), KeyCommand::Nothing);
    assert_eq!(command_for(Key::KeyW, false, false, true), KeyCommand::ToggleWireframe);
    assert_eq!(command_for(Key::KeyW, false, false, false), KeyCommand::Nothing);
    assert_eq!(command_for(Key::KeyT, false, false, true), KeyCommand::NextGizmoMode);
    assert_eq!(command_for(Key::Numpad7, false, false, true), KeyCommand::SetView(ViewPreset::Top));
    assert_eq!(command_for(Key::Numpad5, false, false, true), KeyCommand::ToggleProjection);
    assert_eq!(command_for(Key::Digit3, true, true, true), KeyCommand::PickTool(12));
    assert_eq!(command_for(Key::Other, false, false, true), KeyCommand::Nothing);
}

#[test]
fn the_menu_key_lives_as_long_as_it_is_held() {
    assert_eq!(route_key(true, true, false, false, false), KeyRoute::Rebind);
    assert_eq!(route_key(false, true, false, true, false), KeyRoute::OpenWheel);
    assert_eq!(route_key(false, true, true, true, false), KeyRoute::Ignore);
    assert_eq!(route_key(false, true, false, true, true), KeyRoute::Ignore);
    assert_eq!(route_key(false, false, false, true, true), KeyRoute::CloseWheel);
    assert_eq!(route_key(false, true, false, false, false), KeyRoute::Shortcut);
    assert_eq!(route_key(false, true, false, false, true), KeyRoute::Ignore);
    assert_eq!(route_key(false, false, false, false, false), KeyRoute::Ignore);
}

/// Holding shift between strokes swaps to smoothing, and letting go brings
/// the tool back; a stroke in progress keeps its tool.
#[test]
fn shift_swaps_to_smoothing_while_held() {
    const CLAY: u8 = 1;
    const SMOOTH: u8 = 2;
    assert_eq!(modifier_tool(false, true, None, CLAY, false, SMOOTH), (Some(CLAY), Some(SMOOTH)));
    assert_eq!(modifier_tool(false, true, Some(CLAY), SMOOTH, true, SMOOTH), (Some(CLAY), None));
    assert_eq!(modifier_tool(false, false, Some(CLAY), SMOOTH, true, SMOOTH), (None, Some(CLAY)));
    assert_eq!(modifier_tool(false, true, None, SMOOTH, true, SMOOTH), (None, None));
    assert_eq!(modifier_tool(true, false, Some(CLAY), SMOOTH, true, SMOOTH), (Some(CLAY), None));
    assert_eq!(modifier_tool(true, true, None, CLAY, false, SMOOTH), (None, None));
    assert_eq!(modifier_tool(false, false, None, CLAY, false, SMOOTH), (None, None));
}
