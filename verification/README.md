# sculpt-app

The desktop shell of a dynamic-topology sculpting tool, with the decisions it
makes proved correct by Verus.

- `src/` is the verified library: how a press, a finger, a pen or a key is
  interpreted (`input`, `keys`), how the radial menu and the on-screen pods
  tell a deliberate choice from a stray event (`wheel`, `hud`; the program
  here does not draw those two yet), which settings tabs are
  docked (`ui`), how brush packs carry and adopt their stamps
  (`brush_library`), what a saved workspace must hold (`workspace`), how
  multisampling follows the hardware and the model (`sampling`), how vertex
  data is laid out and uploaded (`gpu_vertex`, `renderer`, `partitions`),
  the stroke sample queue (`stroke_samples`), and the text the interface
  prints (`text`). Each public function states its result in its contract,
  and the properties that span several calls are proof functions beside
  them.
- `tests/` runs the library on concrete values.
- `app/` is the program around it: the window, the GPU, egui, the files,
  and the floating-point geometry (how far a finger moved, how two fingers
  spread, how far a sample lies off the stroke), which hand plain values to
  the library and act on what it decides. The radial menu, the on-screen
  pods, the navigation ball, the transform gizmo and the drawn tool icons
  are not part of this program.
