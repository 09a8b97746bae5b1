use sculpt_app::brush_library::Stamp;
use sculpt_app::input::{
    Bindings, GestureKind, Input, Navigation, Role, TouchEvent, TouchOutcome, TouchPhase,
};
use sculpt_app::sampling::{
    adapt_sampling, clamp_sample_count, max_sample_count, offered_counts, restore_sample_count,
    sampling_message, starting_sample_count,
};
use sculpt_app::ui::Tab;
use sculpt_app::workspace::{check_workspace, unique_tabs, WorkspaceError};

fn stamp(width: u32, height: u32, values: usize) -> Stamp {
    Stamp { name: "Imported".to_string(), width, height, data: vec![0; values] }
}

/// The library's side of restoring a saved workspace: the file written for
/// an imported 2x2 stamp and two floating tabs passes the checks, its stamp
/// values come back exactly, the floating tabs come back in their order, and
/// a saved sample count the hardware still offers stands. (The interface
/// scale, the brush list and the engine's brush are restored by the
/// application and its engine.)
#[test]
fn workspace_restores_brush_assets_bindings_and_layout() {
    let values = [0.0f32, 0.2, 0.7, 1.0];
    let saved = Stamp {
        name: "Imported".to_string(),
        width: 2,
        height: 2,
        data: values.iter().map(|v| v.to_bits()).collect(),
    };
    let floating = vec![Tab::Brush, Tab::View];
    let stamps = vec![saved];
    assert_eq!(check_workspace(1, &stamps, None), Ok(()));
    let restored: Vec<f32> = stamps[0].data.iter().map(|&b| f32::from_bits(b)).collect();
    assert_eq!(restored, vec![0.0, 0.2, 0.7, 1.0]);
    assert_eq!(unique_tabs(&floating), vec![Tab::Brush, Tab::View]);
    assert_eq!(restore_sample_count(4, 8), 4);
    // The restored touch binding is the one the recogniser then goes by: a
    // finger landing on the model pans instead of starting a stroke.
    let bindings = Bindings { touch: Role::Pan, ..Bindings::default() };
    let mut input: Input<(i32, i32)> = Input::new();
    let ev = |phase, contact, now| TouchEvent { id: 1, phase, contact, is_pen: false, strayed: false, now };
    assert!(input.on_touch(ev(TouchPhase::Started, (0, 0), 0), false, &bindings, true).is_none());
    let moved = input.on_touch(ev(TouchPhase::Moved, (3, 4), 10), false, &bindings, true);
    assert!(matches!(
        moved,
        Some(TouchOutcome::Navigate(Navigation::Single { kind: GestureKind::Pan, from: (0, 0), to: (3, 4) }))
    ));
}

#[test]
fn damaged_workspaces_are_refused_before_anything_changes() {
    assert_eq!(check_workspace(2, &vec![], None), Err(WorkspaceError::UnsupportedVersion(2)));
    assert_eq!(WorkspaceError::UnsupportedVersion(27).message(), "unsupported workspace version 27");
    assert_eq!(check_workspace(1, &vec![stamp(2, 2, 3)], None), Err(WorkspaceError::InvalidAlpha));
    assert_eq!(check_workspace(1, &vec![stamp(0, 2, 0)], None), Err(WorkspaceError::InvalidAlpha));
    assert_eq!(check_workspace(1, &vec![stamp(2049, 1, 2049)], None), Err(WorkspaceError::InvalidAlpha));
    assert_eq!(WorkspaceError::InvalidAlpha.message(), "invalid saved alpha dimensions");
    assert_eq!(check_workspace(1, &vec![], Some((2, 16))), Ok(()));
    assert_eq!(check_workspace(1, &vec![], Some((2, 15))), Err(WorkspaceError::InvalidMatcap));
    assert_eq!(check_workspace(1, &vec![], Some((0, 0))), Err(WorkspaceError::InvalidMatcap));
    assert_eq!(check_workspace(1, &vec![], Some((1025, 1025 * 1025 * 4))), Err(WorkspaceError::InvalidMatcap));
    assert_eq!(WorkspaceError::InvalidMatcap.message(), "invalid saved matcap dimensions");
}

#[test]
fn a_tab_floats_once() {
    let saved = vec![Tab::View, Tab::Brush, Tab::View, Tab::Scene, Tab::Brush];
    assert_eq!(unique_tabs(&saved), vec![Tab::View, Tab::Brush, Tab::Scene]);
    assert!(unique_tabs(&vec![]).is_empty());
}

#[test]
fn sample_counts_stay_within_the_hardware() {
    assert_eq!(max_sample_count(true, true, true), 8);
    assert_eq!(max_sample_count(false, true, true), 4);
    assert_eq!(max_sample_count(false, false, true), 2);
    assert_eq!(max_sample_count(false, false, false), 1);
    assert_eq!(starting_sample_count(8), 4);
    assert_eq!(starting_sample_count(2), 2);
    assert_eq!(offered_counts(4), vec![1, 2, 4]);
    assert_eq!(offered_counts(8), vec![1, 2, 4, 8]);
    assert_eq!(offered_counts(1), vec![1]);
    assert_eq!(clamp_sample_count(8, 4), 4);
    assert_eq!(clamp_sample_count(0, 4), 1);
    assert_eq!(restore_sample_count(8, 4), 4);
    assert_eq!(restore_sample_count(3, 8), 2);
    assert_eq!(restore_sample_count(0, 8), 1);
    assert_eq!(restore_sample_count(8, 8), 8);
}

#[test]
fn dense_models_turn_multisampling_off_and_sparse_ones_back_on() {
    assert_eq!(adapt_sampling(true, true, 3_000_001, 4, 8, 4), Some(1));
    assert_eq!(adapt_sampling(true, true, 3_000_001, 4, 8, 1), None);
    assert_eq!(adapt_sampling(true, true, 2_000_000, 4, 8, 1), None);
    assert_eq!(adapt_sampling(true, true, 1_000_000, 4, 8, 1), Some(4));
    assert_eq!(adapt_sampling(true, true, 1_000_000, 8, 2, 1), Some(2));
    assert_eq!(adapt_sampling(false, true, 5_000_000, 4, 8, 4), None);
    assert_eq!(adapt_sampling(true, false, 5_000_000, 4, 8, 4), None);
    assert_eq!(sampling_message(1), "multisampling off: the triangles are smaller than a pixel");
    assert_eq!(sampling_message(4), "multisampling back on");
}
