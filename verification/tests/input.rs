use sculpt_app::input::{
    press_target, Bindings, Button, GestureKind, Input, Navigation, PressTarget, Role, TouchEvent,
    TouchOutcome, TouchPhase,
};

#[test]
fn auto_sculpts_on_the_model_and_orbits_off_it() {
    assert_eq!(Role::Auto.resolve(PressTarget::Model), Role::Sculpt);
    assert_eq!(Role::Auto.resolve(PressTarget::Space), Role::Orbit);
}

/// A fixed binding must not start meaning something else because of where
/// the press landed. Only `Auto` asks the question.
#[test]
fn a_fixed_binding_ignores_where_the_press_landed() {
    for role in [Role::Sculpt, Role::Orbit, Role::Pan, Role::Zoom, Role::Nothing] {
        assert_eq!(role.resolve(PressTarget::Model), role);
        assert_eq!(role.resolve(PressTarget::Space), role);
    }
}

/// Dragging a slider must never also move the camera behind it.
#[test]
fn a_press_the_interface_took_does_nothing_else() {
    for role in Role::ALL {
        assert_eq!(role.resolve(PressTarget::Ui), Role::Nothing);
    }
}

/// The decision is made once, on contact. A stroke that starts on the model
/// and wanders off it has to keep sculpting.
#[test]
fn the_press_decides_once_and_the_drag_keeps_it() {
    let mut input: Input<(f32, f32)> = Input::default();
    let b = Bindings::default();
    input.lmb = true;
    assert!(input.sculpts(Button::Left, &b, true, PressTarget::Model));
    // Off the silhouette now, but still the same press.
    assert!(input.mouse_navigation(&b).is_none());

    input.lmb = false;
    input.sculpts(Button::Left, &b, false, PressTarget::Space);
    input.lmb = true;
    assert!(!input.sculpts(Button::Left, &b, true, PressTarget::Space));
    assert!(matches!(input.mouse_navigation(&b), Some(GestureKind::Orbit)));
}

/// Picking costs real time on a dense model, so it must not happen for
/// bindings that were never going to look at the answer.
#[test]
fn only_the_automatic_binding_asks_for_a_pick() {
    let fixed = Bindings {
        left: Role::Sculpt,
        middle: Role::Orbit,
        right: Role::Orbit,
        touch: Role::Sculpt,
        pen: Role::Sculpt,
    };
    assert!(!Input::<(f32, f32)>::needs_pick(&fixed));
    assert!(Input::<(f32, f32)>::needs_pick(&Bindings::default()));
}

#[test]
fn shift_turns_an_orbit_into_a_pan_and_alt_always_navigates() {
    let mut input: Input<u8> = Input::new();
    let b = Bindings { left: Role::Sculpt, ..Bindings::default() };
    input.set_button(Button::Left, true);
    assert_eq!(input.mouse_navigation(&b), None);
    input.set_modifiers(false, false, true);
    assert_eq!(input.mouse_navigation(&b), Some(GestureKind::Orbit));
    input.set_modifiers(true, false, true);
    assert_eq!(input.mouse_navigation(&b), Some(GestureKind::Pan));
    // A sculpting press with alt held never draws.
    assert!(!input.sculpts(Button::Left, &b, true, PressTarget::Model));
}

#[test]
fn zoom_and_pan_bindings_drag_the_camera() {
    let mut input: Input<u8> = Input::new();
    let b = Bindings { middle: Role::Zoom, right: Role::Pan, ..Bindings::default() };
    input.set_button(Button::Middle, true);
    assert_eq!(input.mouse_navigation(&b), Some(GestureKind::Wheel));
    input.set_button(Button::Middle, false);
    input.set_button(Button::Right, true);
    assert_eq!(input.mouse_navigation(&b), Some(GestureKind::Pan));
    input.set_button(Button::Right, false);
    assert_eq!(input.mouse_navigation(&b), None);
    input.set_button(Button::Other, true);
    assert_eq!(input.mouse_navigation(&b), None);
}

/// Losing focus lets go of everything: the press decided on the model is
/// forgotten, so the next drag of the automatic button orbits.
#[test]
fn losing_focus_lets_go_of_every_button_and_modifier() {
    let mut input: Input<u8> = Input::new();
    let b = Bindings::default();
    input.set_button(Button::Left, true);
    input.set_modifiers(true, true, false);
    assert!(input.sculpts(Button::Left, &b, true, PressTarget::Model));
    input.release_all();
    assert!(!input.lmb && !input.mmb && !input.rmb);
    assert!(!input.shift && !input.ctrl && !input.alt);
    assert_eq!(input.mouse_navigation(&b), None);
    input.set_button(Button::Left, true);
    assert_eq!(input.mouse_navigation(&b), Some(GestureKind::Orbit));
}

#[test]
fn press_targets_follow_the_interface_then_the_model() {
    assert_eq!(press_target(true, true), PressTarget::Ui);
    assert_eq!(press_target(false, true), PressTarget::Model);
    assert_eq!(press_target(false, false), PressTarget::Space);
}

fn touch(id: u64, phase: TouchPhase, at: (i32, i32), now: u64) -> TouchEvent<(i32, i32)> {
    TouchEvent { id, phase, contact: at, is_pen: false, strayed: false, now }
}

#[test]
fn one_finger_sculpts_and_lifting_ends_the_stroke() {
    let mut input: Input<(i32, i32)> = Input::new();
    let b = Bindings { touch: Role::Sculpt, ..Bindings::default() };
    let r = input.on_touch(touch(1, TouchPhase::Started, (5, 5), 0), false, &b, true);
    assert!(matches!(r, Some(TouchOutcome::StrokeStart((5, 5)))));
    assert!(input.touch_active());
    let r = input.on_touch(touch(1, TouchPhase::Moved, (6, 7), 10), false, &b, true);
    assert!(matches!(r, Some(TouchOutcome::StrokeMove((6, 7)))));
    assert_eq!(input.start_of(1), Some((5, 5)));
    let r = input.on_touch(touch(1, TouchPhase::Ended, (6, 7), 2_000_000_000), false, &b, true);
    assert!(matches!(r, Some(TouchOutcome::StrokeEnd)));
    assert!(!input.touch_active());
}

#[test]
fn a_quick_second_finger_cancels_the_stroke() {
    let mut input: Input<(i32, i32)> = Input::new();
    let b = Bindings { touch: Role::Sculpt, ..Bindings::default() };
    input.on_touch(touch(1, TouchPhase::Started, (0, 0), 0), false, &b, true);
    let r = input.on_touch(touch(2, TouchPhase::Started, (50, 0), 100_000_000), false, &b, true);
    assert!(matches!(r, Some(TouchOutcome::CancelStroke)));
    // Two fingers navigate.
    let r = input.on_touch(touch(2, TouchPhase::Moved, (60, 0), 110_000_000), false, &b, true);
    match r {
        Some(TouchOutcome::Navigate(Navigation::Pair { first, second, moved, previous })) => {
            assert_eq!(first.id, 1);
            assert_eq!(second.id, 2);
            assert_eq!(second.at, (60, 0));
            assert_eq!(moved, 2);
            assert_eq!(previous, (50, 0));
        }
        _ => panic!("two fingers should navigate"),
    }
    // Back to one finger: no stroke resumes mid-air.
    assert!(input.on_touch(touch(2, TouchPhase::Ended, (60, 0), 2_000_000_000), false, &b, true).is_none());
    let r = input.on_touch(touch(1, TouchPhase::Moved, (1, 1), 2_100_000_000), false, &b, true);
    assert!(!matches!(r, Some(TouchOutcome::StrokeMove(_))));
}

#[test]
fn a_slow_second_finger_only_ends_the_stroke() {
    let mut input: Input<(i32, i32)> = Input::new();
    let b = Bindings { touch: Role::Sculpt, ..Bindings::default() };
    input.on_touch(touch(1, TouchPhase::Started, (0, 0), 0), false, &b, true);
    let r = input.on_touch(touch(2, TouchPhase::Started, (50, 0), 900_000_000), false, &b, true);
    assert!(matches!(r, Some(TouchOutcome::StrokeEnd)));
}

#[test]
fn two_finger_double_tap_undoes_and_three_redo() {
    let b = Bindings::default();
    for (fingers, undo) in [(2u64, true), (3u64, false)] {
        let mut input: Input<(i32, i32)> = Input::new();
        let mut last = None;
        for (round, start) in [(0u64, 0u64), (1, 200_000_000)] {
            for f in 0..fingers {
                input.on_touch(touch(f + 10 * round, TouchPhase::Started, (0, 0), start), false, &b, false);
            }
            for f in 0..fingers {
                last = input.on_touch(touch(f + 10 * round, TouchPhase::Ended, (0, 0), start + 50_000_000), false, &b, false);
            }
            if round == 0 {
                // A single tap never undoes.
                assert!(last.is_none());
            }
        }
        if undo {
            assert!(matches!(last, Some(TouchOutcome::Undo)));
        } else {
            assert!(matches!(last, Some(TouchOutcome::Redo)));
        }
    }
}

#[test]
fn a_touch_on_the_interface_starts_nothing() {
    let mut input: Input<(i32, i32)> = Input::new();
    let b = Bindings { touch: Role::Sculpt, ..Bindings::default() };
    let r = input.on_touch(touch(1, TouchPhase::Started, (0, 0), 0), true, &b, true);
    assert!(r.is_none());
    let r = input.on_touch(touch(1, TouchPhase::Moved, (5, 0), 10), true, &b, true);
    assert!(r.is_none());
}

#[test]
fn a_navigating_finger_drives_the_camera() {
    let mut input: Input<(i32, i32)> = Input::new();
    let b = Bindings::default();
    // Auto off the model orbits.
    assert!(input.on_touch(touch(1, TouchPhase::Started, (0, 0), 0), false, &b, false).is_none());
    let r = input.on_touch(touch(1, TouchPhase::Moved, (3, 4), 10), false, &b, false);
    match r {
        Some(TouchOutcome::Navigate(Navigation::Single { kind, from, to })) => {
            assert_eq!(kind, GestureKind::Orbit);
            assert_eq!(from, (0, 0));
            assert_eq!(to, (3, 4));
        }
        _ => panic!("a navigating finger should orbit"),
    }
    // Unknown fingers change nothing.
    assert!(input.on_touch(touch(9, TouchPhase::Moved, (3, 4), 20), false, &b, false).is_none());
}

#[test]
fn a_palm_pans() {
    let mut input: Input<(i32, i32)> = Input::new();
    let b = Bindings::default();
    for id in 0..3 {
        input.on_touch(touch(id, TouchPhase::Started, (id as i32, 0), 0), false, &b, false);
    }
    let r = input.on_touch(touch(1, TouchPhase::Moved, (9, 9), 10), false, &b, false);
    match r {
        Some(TouchOutcome::Navigate(Navigation::Palm { from, to, fingers })) => {
            assert_eq!(from, (1, 0));
            assert_eq!(to, (9, 9));
            assert_eq!(fingers, 3);
        }
        _ => panic!("three fingers should pan"),
    }
}

#[test]
fn role_labels_and_hints_read_as_written() {
    assert_eq!(Role::Auto.label(), "Auto");
    assert_eq!(Role::Nothing.label(), "Nothing");
    assert_eq!(Role::Orbit.hint(), "Always spins the view.");
    assert_eq!(Role::Zoom.gesture(), Some(GestureKind::Wheel));
    assert_eq!(Role::Sculpt.gesture(), None);
}
