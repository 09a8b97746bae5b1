use sculpt_app::camera::{Projection, ViewPreset};
use sculpt_app::gizmo::{next_gizmo_mode, GizmoMode, Handle};
use sculpt_app::hud::{MenuHold, PodKind, HOLD_NANOS};
use sculpt_app::matcap::Preset;
use sculpt_app::renderer::Shading;
use sculpt_app::ui::{Anchor, Dock, Harmony, MatcapSource, Primitive, Tab};
use sculpt_app::wheel::{add_swatch, MenuFrame, MenuPointer, SWATCHES};

/// A tab that is floating must not also be listed in the dock, and closing
/// its window has to put it back rather than lose it.
#[test]
fn a_floating_tab_leaves_the_dock() {
    let mut st = Dock::new();
    st.floating.push(Tab::Colour);
    let docked = st.docked();
    assert!(!docked.contains(&Tab::Colour));
    assert_eq!(docked.len(), Tab::ALL.len() - 1);
}

#[test]
fn closing_a_floating_window_brings_its_tab_back() {
    let mut dock = Dock::new();
    dock.tab = Tab::Scene;
    dock.float_current();
    assert_eq!(dock.floating, vec![Tab::Scene]);
    dock.settle();
    assert_eq!(dock.tab, Tab::Brush);
    dock.close_floating(Tab::Scene);
    assert_eq!(dock.tab, Tab::Scene);
    assert!(dock.floating.is_empty());
    assert_eq!(dock.docked().len(), 7);
}

#[test]
fn a_dock_with_every_tab_floating_leaves_the_tab_alone() {
    let mut dock = Dock::new();
    dock.floating = Tab::ALL.to_vec();
    dock.tab = Tab::View;
    assert!(dock.docked().is_empty());
    dock.settle();
    assert_eq!(dock.tab, Tab::View);
}

#[test]
fn the_gizmo_cycles_through_its_modes() {
    let mut mode = GizmoMode::Off;
    let mut seen = Vec::new();
    for _ in 0..4 {
        mode = next_gizmo_mode(mode);
        seen.push(mode);
    }
    assert_eq!(seen, vec![GizmoMode::Move, GizmoMode::Rotate, GizmoMode::Scale, GizmoMode::Off]);
    assert_eq!(GizmoMode::Rotate.label(), "Rotate");
    let slots: Vec<usize> = [Handle::X, Handle::Y, Handle::Z, Handle::Screen].iter().map(|h| h.index()).collect();
    assert_eq!(slots, vec![0, 1, 2, 3]);
    assert_eq!(Handle::AXES, [Handle::X, Handle::Y, Handle::Z]);
}

#[test]
fn labels_read_as_the_interface_shows_them() {
    assert_eq!(ViewPreset::Bottom.label(), "Bottom");
    assert_eq!(PodKind::Zoom.label(), "Zoom");
    assert!(PodKind::Size.is_pill() && PodKind::Force.is_pill());
    assert!(!PodKind::Menu.is_pill() && !PodKind::Pan.is_pill() && !PodKind::Zoom.is_pill());
    assert_eq!(Preset::Jade.label(), "Jade");
    assert_eq!(Shading::Pbr.label(), "Lit");
    assert_eq!(Primitive::UvSphere.label(), "UV sphere");
    assert_eq!(Anchor::Center.label(), "In the middle");
    assert_eq!(Tab::Interface.label(), "UI");
    assert_eq!(Harmony::Off.label(), "Off");
    assert_eq!(Harmony::Off.hint(), "");
    assert_eq!(Harmony::Triad.hint(), "Three evenly spaced hues. Balanced without being flat.");
    assert_eq!(MatcapSource::Lightcap.label(), "Lights");
    assert_eq!(Projection::Perspective.toggled(), Projection::Orthographic);
    assert_eq!(Projection::Perspective.toggled().toggled(), Projection::Perspective);
}

#[test]
fn the_palette_keeps_the_newest_swatches() {
    let mut swatches: Vec<[f32; 3]> = Vec::new();
    for i in 0..(SWATCHES + 3) {
        add_swatch(&mut swatches, [i as f32, 0.0, 0.0]);
    }
    assert_eq!(swatches.len(), SWATCHES);
    assert_eq!(swatches[0][0], 3.0);
    assert_eq!(swatches[SWATCHES - 1][0], (SWATCHES + 2) as f32);
}

/// A palette read back over its size loses only its oldest colour per new one.
#[test]
fn an_oversized_palette_sheds_one_colour_per_addition() {
    let mut swatches: Vec<u32> = (0..14).collect();
    add_swatch(&mut swatches, 99);
    assert_eq!(swatches.len(), 14);
    assert_eq!(swatches[0], 1);
    assert_eq!(swatches[13], 99);
}

#[test]
fn a_menu_opened_by_a_held_finger_chooses_on_the_lift() {
    let mut p = MenuPointer::opened();
    // The finger is down on the first frame: held open.
    assert_eq!(p.frame(true, false), MenuFrame { choose: false, close: false });
    // A stray lift in the first frames is ignored.
    assert_eq!(p.frame(false, false), MenuFrame { choose: false, close: false });
    assert_eq!(p.frame(true, false), MenuFrame { choose: false, close: false });
    assert_eq!(p.frame(true, true), MenuFrame { choose: false, close: false });
    // Settled: the lift chooses and closes.
    assert_eq!(p.frame(false, false), MenuFrame { choose: true, close: true });
}

#[test]
fn a_menu_summoned_by_a_key_chooses_on_a_press() {
    let mut p = MenuPointer::opened();
    assert_eq!(p.frame(false, false), MenuFrame { choose: false, close: false });
    assert_eq!(p.frame(true, true), MenuFrame { choose: true, close: false });
    for _ in 0..5 {
        assert!(!p.frame(false, false).close);
    }
}

#[test]
fn holding_the_menu_button_opens_the_menu() {
    let mut hold = MenuHold::new();
    assert!(!hold.frame(false, true, 1_000));
    assert!(!hold.frame(false, true, 1_000 + HOLD_NANOS));
    assert!(hold.frame(false, true, 1_001 + HOLD_NANOS));
    // Once open, the button forgets the press.
    assert!(!hold.frame(true, true, 2_000_000_000));
    assert_eq!(hold.pressed_at, None);
    // Letting go before the time asks for nothing.
    assert!(!hold.frame(false, true, 3_000_000_000));
    assert!(!hold.frame(false, false, 3_100_000_000));
    assert!(!hold.frame(false, true, 3_300_000_000));
}
