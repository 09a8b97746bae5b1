//! Verified core of a sculpting application's interface: input bindings,
//! keyboard shortcuts, docks, brush packs, upload bookkeeping and the
//! settings that are restored between sessions.

pub mod brush_icon;
pub mod brush_library;
pub mod camera;
pub mod gizmo;
pub mod gpu_vertex;
pub mod hud;
pub mod icons;
pub mod input;
pub mod keys;
pub mod matcap;
pub mod partitions;
pub mod renderer;
pub mod sampling;
pub mod stroke_samples;
pub mod text;
pub mod theme;
pub mod ui;
pub mod wheel;
pub mod workspace;
