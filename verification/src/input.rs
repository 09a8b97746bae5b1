//! Pointer, pen and touch handling.
//!
//! Touch is not an afterthought here. One finger sculpts, two fingers navigate
//! (drag to orbit, spread to zoom, move together to pan), and a second finger
//! landing mid-stroke cancels the stroke rather than smearing the model while
//! the view swings around.
//!
//! Positions and pressures are whatever the caller measures them in: they are
//! carried through as an opaque contact sample `C`, and every decision here is
//! made from which device, which finger, where a press landed and when.

use vstd::prelude::*;

verus! {

/// A camera move asked for by the pointer or by fingers. The amount of the move
/// is measured by the caller from the contacts handed back with it.
#[derive(Clone, Copy, PartialEq, Eq, Debug, Structural)]
pub enum GestureKind {
    /// Spin the view by the drag.
    Orbit,
    /// Slide the view by the drag.
    Pan,
    /// Multiplicative zoom, from the spread of two fingers.
    Zoom,
    /// Wheel notches, from vertical travel.
    Wheel,
}

/// What a device does when it is dragged.
///
/// Everyone holds a tablet differently and every application trains a different
/// reflex, so rather than pick one, each device gets a job you can change.
#[derive(Clone, Copy, PartialEq, Eq, Debug, Structural)]
pub enum Role {
    /// Sculpt on the model, spin the view off it. Decided where the press
    /// landed, once, and held for the rest of that press.
    Auto,
    Sculpt,
    Orbit,
    Pan,
    Zoom,
    Nothing,
}

/// Where a press landed, which is all the automatic binding needs to know.
#[derive(Clone, Copy, PartialEq, Eq, Debug, Structural)]
pub enum PressTarget {
    /// On the model, or close enough to it for the brush to reach.
    Model,
    /// On empty space in the viewport.
    Space,
    /// On the interface, which has already claimed it.
    Ui,
}

/// The mouse buttons a binding can be given to.
#[derive(Clone, Copy, PartialEq, Eq, Debug, Structural)]
pub enum Button {
    Left,
    Middle,
    Right,
    /// Any other button, which is bound to nothing.
    Other,
}

/// What a role means for a press that landed where it did.
pub open spec fn resolved(role: Role, target: PressTarget) -> Role {
    match target {
        PressTarget::Ui => Role::Nothing,
        PressTarget::Model => if role == Role::Auto { Role::Sculpt } else { role },
        PressTarget::Space => if role == Role::Auto { Role::Orbit } else { role },
    }
}

/// The camera move a settled role turns a drag into, if any.
pub open spec fn gesture_of(role: Role) -> Option<GestureKind> {
    match role {
        Role::Orbit => Some(GestureKind::Orbit),
        Role::Pan => Some(GestureKind::Pan),
        Role::Zoom => Some(GestureKind::Wheel),
        _ => None,
    }
}

pub open spec fn role_label(role: Role) -> Seq<char> {
    match role {
        Role::Auto => "Auto"@,
        Role::Sculpt => "Sculpt"@,
        Role::Orbit => "Orbit"@,
        Role::Pan => "Pan"@,
        Role::Zoom => "Zoom"@,
        Role::Nothing => "Nothing"@,
    }
}

pub open spec fn role_hint(role: Role) -> Seq<char> {
    match role {
        Role::Auto => "Press on the model to sculpt it, press off it to spin the view."@,
        Role::Sculpt => "Always draws with the current tool."@,
        Role::Orbit => "Always spins the view."@,
        Role::Pan => "Always slides the view."@,
        Role::Zoom => "Drag up and down to move closer and further."@,
        Role::Nothing => "Ignored."@,
    }
}

impl Role {
    pub const ALL: [Role; 6] = [
        Role::Auto,
        Role::Sculpt,
        Role::Orbit,
        Role::Pan,
        Role::Zoom,
        Role::Nothing,
    ];

    pub fn label(self) -> (r: &'static str)
        ensures
            r@ == role_label(self),
    {
        match self {
            Role::Auto => "Auto",
            Role::Sculpt => "Sculpt",
            Role::Orbit => "Orbit",
            Role::Pan => "Pan",
            Role::Zoom => "Zoom",
            Role::Nothing => "Nothing",
        }
    }

    pub fn hint(self) -> (r: &'static str)
        ensures
            r@ == role_hint(self),
    {
        match self {
            Role::Auto => "Press on the model to sculpt it, press off it to spin the view.",
            Role::Sculpt => "Always draws with the current tool.",
            Role::Orbit => "Always spins the view.",
            Role::Pan => "Always slides the view.",
            Role::Zoom => "Drag up and down to move closer and further.",
            Role::Nothing => "Ignored.",
        }
    }

    /// What this role means for a press that landed where it did.
    ///
    /// Only `Auto` cares where. The model is the canvas and the space around
    /// it is the turntable. A press the interface has taken belongs to the
    /// interface, whatever the device is otherwise for.
    pub fn resolve(self, target: PressTarget) -> (r: Role)
        ensures
            r == resolved(self, target),
    {
        match (self, target) {
            (_, PressTarget::Ui) => Role::Nothing,
            (Role::Auto, PressTarget::Model) => Role::Sculpt,
            (Role::Auto, PressTarget::Space) => Role::Orbit,
            (other, _) => other,
        }
    }

    /// The camera move a drag under this role makes, or `None` when this role
    /// sculpts or does nothing. Vertical travel under `Zoom` reads as the wheel.
    pub fn gesture(self) -> (r: Option<GestureKind>)
        ensures
            r == gesture_of(self),
    {
        match self {
            Role::Orbit => Some(GestureKind::Orbit),
            Role::Pan => Some(GestureKind::Pan),
            Role::Zoom => Some(GestureKind::Wheel),
            Role::Auto | Role::Sculpt | Role::Nothing => None,
        }
    }
}

/// What each device does. Pen and touch are separate because a stylus usually
/// wants to draw while a finger usually wants to move the model.
#[derive(Clone, Copy, PartialEq, Eq, Debug, Structural)]
pub struct Bindings {
    pub left: Role,
    pub middle: Role,
    pub right: Role,
    /// A single finger.
    pub touch: Role,
    /// A stylus, told apart from a finger by the pressure it reports.
    pub pen: Role,
}

impl Default for Bindings {
    /// The three that touch the model decide on contact; the other two buttons
    /// orbit.
    fn default() -> (r: Self)
        ensures
            r == (Bindings {
                left: Role::Auto,
                middle: Role::Orbit,
                right: Role::Orbit,
                touch: Role::Auto,
                pen: Role::Auto,
            }),
    {
        Bindings {
            left: Role::Auto,
            middle: Role::Orbit,
            right: Role::Orbit,
            touch: Role::Auto,
            pen: Role::Auto,
        }
    }
}

/// The role a binding gives a mouse button.
pub open spec fn button_role(b: Bindings, button: Button) -> Role {
    match button {
        Button::Left => b.left,
        Button::Middle => b.middle,
        Button::Right => b.right,
        Button::Other => Role::Nothing,
    }
}

/// Whether some device is bound to the automatic role.
pub open spec fn asks_where(b: Bindings) -> bool {
    b.left == Role::Auto || b.middle == Role::Auto || b.right == Role::Auto || b.touch
        == Role::Auto || b.pen == Role::Auto
}

/// One finger or pen on the glass: where it is now and where it landed.
#[derive(Clone, Copy)]
pub struct Finger<C> {
    pub id: u64,
    pub at: C,
    pub start: C,
}

/// The phase of a touch event.
#[derive(Clone, Copy, PartialEq, Eq, Debug, Structural)]
pub enum TouchPhase {
    Started,
    Moved,
    Ended,
    Cancelled,
}

/// One touch event, as the recogniser needs it.
#[derive(Clone, Copy)]
pub struct TouchEvent<C> {
    pub id: u64,
    pub phase: TouchPhase,
    pub contact: C,
    /// A digitiser reports pressure and a fingertip does not: that is what
    /// tells a pen from a finger.
    pub is_pen: bool,
    /// Whether this contact has strayed from where its finger landed by more
    /// than a tap may travel.
    pub strayed: bool,
    /// When the event happened, in nanoseconds on a monotonic clock.
    pub now: u64,
}

/// A tap lasts at most this long, in nanoseconds.
pub const TAP_MAX_NANOS: u64 = 300_000_000;
/// How long the second tap of a double tap may take to arrive, in nanoseconds.
pub const DOUBLE_TAP_NANOS: u64 = 450_000_000;
/// A second finger landing this soon means the first one was never meant to
/// draw, in nanoseconds.
pub const STROKE_GRACE_NANOS: u64 = 250_000_000;

/// Recognises taps across a whole touch sequence.
#[derive(Clone, Copy, Debug)]
pub struct TapTracker {
    /// When the first finger of the current sequence landed.
    pub began: Option<u64>,
    /// Most fingers down at once during it.
    pub fingers: usize,
    /// Whether any finger strayed too far from where it landed.
    pub strayed: bool,
    /// Finger count and time of the last completed tap.
    pub last: Option<(usize, u64)>,
}

/// A multi-finger move, handed back with what the caller needs to measure it.
#[derive(Clone, Copy)]
pub enum Navigation<C> {
    /// A single device bound to navigation drives the camera.
    Single { kind: GestureKind, from: C, to: C },
    /// Two fingers: orbit, pan and pinch, read from both of them and from
    /// where the one that moved was before.
    Pair { first: Finger<C>, second: Finger<C>, moved: u64, previous: C },
    /// Three or more fingers pan, by the moved finger's travel shared among
    /// them, so a palm on the screen never spins the model.
    Palm { from: C, to: C, fingers: usize },
}

/// What a touch event turned into.
#[derive(Clone, Copy)]
pub enum TouchOutcome<C> {
    StrokeStart(C),
    StrokeMove(C),
    StrokeEnd,
    /// A second finger arrived on the heels of the first: the stroke it began
    /// was not meant, and should be rolled back rather than merely stopped.
    CancelStroke,
    Navigate(Navigation<C>),
    Undo,
    Redo,
}

/// Everything the recogniser remembers, as plain values.
pub struct InputView<C> {
    pub lmb: bool,
    pub mmb: bool,
    pub rmb: bool,
    pub shift: bool,
    pub ctrl: bool,
    pub alt: bool,
    pub held: Option<Role>,
    pub fingers: Seq<Finger<C>>,
    pub held_touch: Option<Role>,
    pub finger_stroke: bool,
    pub gesture_lock: bool,
    pub taps: TapTracker,
}

/// Pointer and touch state.
pub struct Input<C> {
    pub lmb: bool,
    pub mmb: bool,
    pub rmb: bool,
    pub shift: bool,
    pub ctrl: bool,
    pub alt: bool,
    /// What the mouse button now down settled on, held for the whole press: a
    /// drag that starts on the model keeps sculpting once it wanders off the
    /// silhouette, and a drag that starts in space does not start carving.
    held: Option<Role>,
    fingers: Vec<Finger<C>>,
    /// The same, for the finger or pen currently down.
    held_touch: Option<Role>,
    /// True once a stroke was handed to the sculptor from a single finger.
    finger_stroke: bool,
    /// Set when a multi-finger gesture starts, so lifting back to one finger
    /// does not resume sculpting mid-air.
    gesture_lock: bool,
    taps: TapTracker,
}

impl<C> View for Input<C> {
    type V = InputView<C>;

    closed spec fn view(&self) -> InputView<C> {
        InputView {
            lmb: self.lmb,
            mmb: self.mmb,
            rmb: self.rmb,
            shift: self.shift,
            ctrl: self.ctrl,
            alt: self.alt,
            held: self.held,
            fingers: self.fingers@,
            held_touch: self.held_touch,
            finger_stroke: self.finger_stroke,
            gesture_lock: self.gesture_lock,
            taps: self.taps,
        }
    }
}

/// The role the held mouse buttons ask for, before shift is applied.
pub open spec fn pressed_role<C>(i: InputView<C>, b: Bindings) -> Option<Role> {
    if i.lmb && i.alt {
        Some(Role::Orbit)
    } else if i.lmb {
        Some(b.left)
    } else if i.mmb {
        Some(b.middle)
    } else if i.rmb {
        Some(b.right)
    } else {
        None
    }
}

/// The camera move the held buttons make. An automatic binding goes by what
/// its press settled on, and shift turns an orbit into a pan.
pub open spec fn navigation<C>(i: InputView<C>, b: Bindings) -> Option<GestureKind> {
    match pressed_role(i, b) {
        None => None,
        Some(raw) => {
            let role = if raw == Role::Auto {
                match i.held {
                    Some(h) => h,
                    None => Role::Orbit,
                }
            } else {
                raw
            };
            if role == Role::Orbit && i.shift {
                Some(GestureKind::Pan)
            } else {
                gesture_of(role)
            }
        },
    }
}

/// What a mouse button going down or up settles on, and whether it draws.
///
/// On the way down the button's role is resolved against where the press
/// landed and held. On the way up the held decision is read back, and kept
/// for any other button still down. A press with alt held never draws.
pub open spec fn press_step<C>(i: InputView<C>, b: Bindings, button: Button, down: bool, target: PressTarget) -> (
    Option<Role>,
    bool,
) {
    let raw = button_role(b, button);
    let settled = if down {
        resolved(raw, target)
    } else {
        match i.held {
            Some(h) => h,
            None => raw,
        }
    };
    (
        if down || i.lmb || i.mmb || i.rmb {
            Some(settled)
        } else {
            None
        },
        settled == Role::Sculpt && !i.alt,
    )
}

/// A state with nothing pressed and nothing remembered.
pub open spec fn at_rest<C>(i: InputView<C>) -> bool {
    &&& !i.lmb && !i.mmb && !i.rmb && !i.shift && !i.ctrl && !i.alt
    &&& i.held is None && i.fingers.len() == 0 && i.held_touch is None
    &&& !i.finger_stroke && !i.gesture_lock
    &&& i.taps == TapTracker { began: None, fingers: 0, strayed: false, last: None }
}

/// Where a touch landed.
pub open spec fn touch_target(over_ui: bool, on_model: bool) -> PressTarget {
    if over_ui {
        PressTarget::Ui
    } else if on_model {
        PressTarget::Model
    } else {
        PressTarget::Space
    }
}

/// Where a press landed: on the interface when it has claimed the press,
/// otherwise on the model when a pick found it under the pointer, and in
/// space when not.
pub fn press_target(over_ui: bool, on_model: bool) -> (r: PressTarget)
    ensures
        r == touch_target(over_ui, on_model),
{
    if over_ui {
        PressTarget::Ui
    } else if on_model {
        PressTarget::Model
    } else {
        PressTarget::Space
    }
}

/// How long has passed since `then`, never less than nothing.
pub open spec fn elapsed(now: u64, then: u64) -> int {
    if now >= then { now - then } else { 0 }
}

/// The fingers left after one lifts.
pub open spec fn without_finger<C>(fingers: Seq<Finger<C>>, id: u64) -> Seq<Finger<C>> {
    fingers.filter(|f: Finger<C>| f.id != id)
}

/// Index of the first finger with this id.
pub open spec fn finger_index<C>(fingers: Seq<Finger<C>>, id: u64) -> Option<int> {
    if exists|k: int| 0 <= k < fingers.len() && fingers[k].id == id {
        Some(
            choose|k: int|
                0 <= k < fingers.len() && fingers[k].id == id && forall|j: int|
                    0 <= j < k ==> fingers[j].id != id,
        )
    } else {
        None
    }
}

/// The tap tracker after a finger lands.
pub open spec fn taps_on_landing(t: TapTracker, empty_before: bool, count: nat, now: u64) -> TapTracker {
    let base = if empty_before {
        TapTracker { began: Some(now), fingers: 0, strayed: false, last: t.last }
    } else {
        t
    };
    TapTracker { fingers: if base.fingers >= count { base.fingers } else { count as usize }, ..base }
}

/// A finished sequence counts as a tap when it was short, still, and used two
/// or three fingers.
pub open spec fn was_tap(t: TapTracker, now: u64) -> bool {
    &&& t.began matches Some(b) && elapsed(now, b) < TAP_MAX_NANOS
    &&& !t.strayed
    &&& 2 <= t.fingers <= 3
}

/// Whether this tap is the second of a pair with the same finger count.
pub open spec fn pairs_with_last(t: TapTracker, now: u64) -> bool {
    t.last matches Some((n, at)) && n == t.fingers && elapsed(now, at) < DOUBLE_TAP_NANOS
}

/// The tap tracker once every finger is off the glass.
pub open spec fn taps_after_sequence(t: TapTracker, now: u64) -> TapTracker {
    match t.began {
        None => t,
        Some(_) => {
            let last = if !was_tap(t, now) {
                None
            } else if pairs_with_last(t, now) {
                None
            } else {
                Some((t.fingers, now))
            };
            TapTracker { began: None, fingers: 0, strayed: false, last }
        },
    }
}

/// What a finished sequence asks for: two fingers tapped twice undo, three redo.
pub open spec fn double_tap(t: TapTracker, now: u64) -> Option<bool> {
    if t.began is Some && was_tap(t, now) && pairs_with_last(t, now) {
        Some(t.fingers == 2)
    } else {
        None
    }
}

/// The role a touch contact's device is bound to.
pub open spec fn touch_role(b: Bindings, is_pen: bool) -> Role {
    if is_pen { b.pen } else { b.touch }
}

/// The mouse side of the state, which touch events leave alone.
pub open spec fn same_buttons<C>(o: InputView<C>, n: InputView<C>) -> bool {
    &&& n.lmb == o.lmb && n.mmb == o.mmb && n.rmb == o.rmb && n.held == o.held
    &&& n.shift == o.shift && n.ctrl == o.ctrl && n.alt == o.alt
}

/// A contact landing: it settles its role, joins the fingers, and either
/// starts a stroke, waits to navigate, or, as a second finger, ends or cancels
/// the stroke the first one began.
pub open spec fn landed<C>(
    o: InputView<C>,
    n: InputView<C>,
    ev: TouchEvent<C>,
    raw: Role,
    target: PressTarget,
    r: Option<TouchOutcome<C>>,
) -> bool {
    let settled = resolved(raw, target);
    let grace = o.taps.began matches Some(t) && elapsed(ev.now, t) < STROKE_GRACE_NANOS;
    &&& same_buttons(o, n)
    &&& n.held_touch == Some(settled)
    &&& n.fingers == o.fingers.push(Finger { id: ev.id, at: ev.contact, start: ev.contact })
    &&& n.taps == taps_on_landing(o.taps, o.fingers.len() == 0, n.fingers.len(), ev.now)
    &&& if o.fingers.len() == 0 {
        if target == PressTarget::Ui {
            r is None && n.finger_stroke == o.finger_stroke && n.gesture_lock == o.gesture_lock
        } else if settled != Role::Sculpt {
            r is None && !n.finger_stroke && n.gesture_lock
        } else {
            r == Some(TouchOutcome::StrokeStart(ev.contact)) && n.finger_stroke && !n.gesture_lock
        }
    } else {
        &&& n.gesture_lock
        &&& !n.finger_stroke
        &&& if o.finger_stroke {
            if grace {
                r == Some(TouchOutcome::<C>::CancelStroke)
            } else {
                r == Some(TouchOutcome::<C>::StrokeEnd)
            }
        } else {
            r is None
        }
    }
}

/// A contact moving: one stroking finger continues the stroke, one navigating
/// device moves the camera by its role, two fingers orbit, pan and pinch, and
/// more pan. A contact that is not down changes nothing.
pub open spec fn travelled<C>(
    o: InputView<C>,
    n: InputView<C>,
    ev: TouchEvent<C>,
    raw: Role,
    r: Option<TouchOutcome<C>>,
) -> bool {
    let role = match o.held_touch {
        Some(h) => h,
        None => raw,
    };
    match finger_index(o.fingers, ev.id) {
        None => r is None && n == o,
        Some(k) => {
            let previous = o.fingers[k].at;
            let count = o.fingers.len();
            &&& same_buttons(o, n)
            &&& n.fingers == o.fingers.update(k, Finger { at: ev.contact, ..o.fingers[k] })
            &&& n.taps == TapTracker { strayed: o.taps.strayed || ev.strayed, ..o.taps }
            &&& n.held_touch == o.held_touch && n.finger_stroke == o.finger_stroke
                && n.gesture_lock == o.gesture_lock
            &&& if count == 1 {
                if o.finger_stroke {
                    r == Some(TouchOutcome::StrokeMove(ev.contact))
                } else {
                    match gesture_of(role) {
                        Some(kind) => r == Some(
                            TouchOutcome::Navigate(
                                Navigation::Single { kind, from: previous, to: ev.contact },
                            ),
                        ),
                        None => r is None,
                    }
                }
            } else if count == 2 {
                r == Some(
                    TouchOutcome::Navigate(
                        Navigation::Pair {
                            first: n.fingers[0],
                            second: n.fingers[1],
                            moved: ev.id,
                            previous,
                        },
                    ),
                )
            } else {
                r == Some(
                    TouchOutcome::Navigate(
                        Navigation::Palm { from: previous, to: ev.contact, fingers: count as usize },
                    ),
                )
            }
        },
    }
}

/// A contact lifting: while fingers remain nothing happens; once the last one
/// is off, the sequence is closed, a double tap undoes or redoes, and a stroke
/// that was running ends.
pub open spec fn lifted<C>(
    o: InputView<C>,
    n: InputView<C>,
    ev: TouchEvent<C>,
    r: Option<TouchOutcome<C>>,
) -> bool {
    let left = without_finger(o.fingers, ev.id);
    &&& same_buttons(o, n)
    &&& n.fingers == left
    &&& if left.len() > 0 {
        r is None && n.held_touch == o.held_touch && n.finger_stroke == o.finger_stroke
            && n.gesture_lock == o.gesture_lock && n.taps == o.taps
    } else {
        &&& n.held_touch is None && !n.finger_stroke && !n.gesture_lock
        &&& n.taps == taps_after_sequence(o.taps, ev.now)
        &&& r == match double_tap(o.taps, ev.now) {
            Some(true) => Some(TouchOutcome::<C>::Undo),
            Some(false) => Some(TouchOutcome::<C>::Redo),
            None => if o.finger_stroke {
                Some(TouchOutcome::<C>::StrokeEnd)
            } else {
                None
            },
        }
    }
}

/// One step of the touch recogniser.
pub open spec fn touch_step<C>(
    o: InputView<C>,
    n: InputView<C>,
    ev: TouchEvent<C>,
    raw: Role,
    target: PressTarget,
    r: Option<TouchOutcome<C>>,
) -> bool {
    match ev.phase {
        TouchPhase::Started => landed(o, n, ev, raw, target, r),
        TouchPhase::Moved => travelled(o, n, ev, raw, r),
        TouchPhase::Ended | TouchPhase::Cancelled => lifted(o, n, ev, r),
    }
}

impl<C: Copy> Input<C> {
    /// Nothing pressed, nothing held, no finger down.
    pub fn new() -> (r: Self)
        ensures
            at_rest(r@),
    {
        Input {
            lmb: false,
            mmb: false,
            rmb: false,
            shift: false,
            ctrl: false,
            alt: false,
            held: None,
            fingers: Vec::new(),
            held_touch: None,
            finger_stroke: false,
            gesture_lock: false,
            taps: TapTracker { began: None, fingers: 0, strayed: false, last: None },
        }
    }

    /// Turns the held buttons into a camera move, if any of them asks for one.
    ///
    /// Alt always navigates whatever the left button is bound to, which is the
    /// escape hatch when every button has been given to sculpting. Shift turns
    /// an orbit into a pan, the way it does in most viewers.
    pub fn mouse_navigation(&self, b: &Bindings) -> (r: Option<GestureKind>)
        ensures
            r == navigation(self@, *b),
    {
        let role = if self.lmb && self.alt {
            Role::Orbit
        } else if self.lmb {
            b.left
        } else if self.mmb {
            b.middle
        } else if self.rmb {
            b.right
        } else {
            return None;
        };
        // Whatever the press decided stands until it is let go.
        let role = match role {
            Role::Auto => match self.held {
                Some(h) => h,
                None => Role::Orbit,
            },
            other => other,
        };
        let role = match (role, self.shift) {
            (Role::Orbit, true) => Role::Pan,
            (r, _) => r,
        };
        role.gesture()
    }

    /// Settles what a press of this button does and reports whether it draws.
    ///
    /// On the way down the role is resolved against where the press landed and
    /// held. On the way up the held decision is read back, and kept for any
    /// other button still down.
    pub fn sculpts(&mut self, button: Button, b: &Bindings, down: bool, target: PressTarget) -> (r:
        bool)
        ensures
            (final(self)@.held, r) == press_step(old(self)@, *b, button, down, target),
            final(self)@ == (InputView { held: final(self)@.held, ..old(self)@ }),
    {
        let role = match button {
            Button::Left => b.left,
            Button::Middle => b.middle,
            Button::Right => b.right,
            Button::Other => Role::Nothing,
        };
        let role = if down {
            let settled = role.resolve(target);
            self.held = Some(settled);
            settled
        } else {
            let settled = match self.held {
                Some(h) => h,
                None => role,
            };
            self.held = None;
            // A button going up while another is still down leaves that other
            // one without its decision, so put it back for it.
            if self.lmb || self.mmb || self.rmb {
                self.held = Some(settled);
            }
            settled
        };
        role == Role::Sculpt && !self.alt
    }

    /// Whether the pointer needs a pick before the next press can be decided.
    /// Picking is not free on a dense model, so it happens only for the
    /// bindings that actually ask a question.
    pub fn needs_pick(b: &Bindings) -> (r: bool)
        ensures
            r == asks_where(*b),
    {
        b.left == Role::Auto || b.middle == Role::Auto || b.right == Role::Auto || b.touch
            == Role::Auto || b.pen == Role::Auto
    }

    /// Records a mouse button going down or up. Only the three bound buttons
    /// are remembered; any other changes nothing.
    pub fn set_button(&mut self, button: Button, down: bool)
        ensures
            final(self)@ == (match button {
                Button::Left => InputView { lmb: down, ..old(self)@ },
                Button::Middle => InputView { mmb: down, ..old(self)@ },
                Button::Right => InputView { rmb: down, ..old(self)@ },
                Button::Other => old(self)@,
            }),
    {
        match button {
            Button::Left => self.lmb = down,
            Button::Middle => self.mmb = down,
            Button::Right => self.rmb = down,
            Button::Other => {},
        }
    }

    /// Records the modifier keys now held.
    pub fn set_modifiers(&mut self, shift: bool, ctrl: bool, alt: bool)
        ensures
            final(self)@ == (InputView { shift, ctrl, alt, ..old(self)@ }),
    {
        self.shift = shift;
        self.ctrl = ctrl;
        self.alt = alt;
    }

    /// Lets go of every mouse button and modifier at once, as when the window
    /// loses focus and will not hear the keys come up: nothing stays held and
    /// no press decision is kept. Touch contacts are left to their own lifts.
    pub fn release_all(&mut self)
        ensures
            final(self)@ == (InputView {
                lmb: false,
                mmb: false,
                rmb: false,
                shift: false,
                ctrl: false,
                alt: false,
                held: None,
                ..old(self)@
            }),
    {
        self.lmb = false;
        self.mmb = false;
        self.rmb = false;
        self.shift = false;
        self.ctrl = false;
        self.alt = false;
        self.held = None;
    }

    pub fn touch_active(&self) -> (r: bool)
        ensures
            r == (self@.fingers.len() > 0),
    {
        self.fingers.len() > 0
    }

    /// Where the first finger with this id landed, for measuring how far it
    /// has strayed.
    pub fn start_of(&self, id: u64) -> (r: Option<C>)
        ensures
            r == match finger_index(self@.fingers, id) {
                Some(k) => Some(self@.fingers[k].start),
                None => None,
            },
    {
        match self.find_finger(id) {
            Some(k) => Some(self.fingers[k].start),
            None => None,
        }
    }

    /// Index of the first finger with this id.
    fn find_finger(&self, id: u64) -> (r: Option<usize>)
        ensures
            r matches Some(k) ==> finger_index(self@.fingers, id) == Some(k as int) && k
                < self@.fingers.len() && self@.fingers[k as int].id == id,
            r is None ==> finger_index(self@.fingers, id) is None,
    {
        let mut k: usize = 0;
        while k < self.fingers.len()
            invariant
                k <= self.fingers@.len(),
                forall|j: int| 0 <= j < k ==> self.fingers@[j].id != id,
            decreases self.fingers@.len() - k,
        {
            if self.fingers[k].id == id {
                proof {
                    let ks = k as int;
                    let fs = self@.fingers;
                    assert(0 <= ks < fs.len() && fs[ks].id == id && forall|j: int|
                        0 <= j < ks ==> fs[j].id != id);
                    let c = choose|c: int|
                        0 <= c < fs.len() && fs[c].id == id && forall|j: int|
                            0 <= j < c ==> fs[j].id != id;
                    if c < ks {
                        assert(fs[c].id != id);
                    }
                    if ks < c {
                        assert(fs[ks].id != id);
                    }
                }
                return Some(k);
            }
            k = k + 1;
        }
        None
    }

    /// Drops every finger with this id.
    fn lift_finger(&mut self, id: u64)
        ensures
            final(self)@ == (InputView {
                fingers: without_finger(old(self)@.fingers, id),
                ..old(self)@
            }),
    {
        let ghost pred = |f: Finger<C>| f.id != id;
        let mut kept: Vec<Finger<C>> = Vec::new();
        let mut k: usize = 0;
        while k < self.fingers.len()
            invariant
                k <= self.fingers@.len(),
                kept@ == self.fingers@.take(k as int).filter(pred),
                pred == (|g: Finger<C>| g.id != id),
            decreases self.fingers@.len() - k,
        {
            let f = self.fingers[k];
            proof {
                let next = self.fingers@.take(k + 1);
                reveal_with_fuel(Seq::<_>::filter, 1);
                assert(next.drop_last() =~= self.fingers@.take(k as int));
                assert(next.last() == f);
                assert(next.filter(pred) == if pred(f) {
                    self.fingers@.take(k as int).filter(pred).push(f)
                } else {
                    self.fingers@.take(k as int).filter(pred)
                });
            }
            let ghost before = kept@;
            if f.id != id {
                kept.push(f);
                assert(kept@ == before.push(f));
            } else {
                assert(!pred(f));
            }
            k = k + 1;
        }
        proof {
            assert(self.fingers@.take(self.fingers@.len() as int) =~= self.fingers@);
        }
        self.fingers = kept;
    }

    /// Feeds one touch event through the gesture recogniser.
    ///
    /// `over_ui` is whether the interface owns the contact, and `on_model`
    /// whether the model lies under it, which only the automatic binding reads.
    pub fn on_touch(&mut self, ev: TouchEvent<C>, over_ui: bool, b: &Bindings, on_model: bool) -> (r:
        Option<TouchOutcome<C>>)
        ensures
            touch_step(old(self)@, final(self)@, ev, touch_role(*b, ev.is_pen), touch_target(over_ui, on_model), r),
    {
        let target = if over_ui {
            PressTarget::Ui
        } else if on_model {
            PressTarget::Model
        } else {
            PressTarget::Space
        };
        let raw = if ev.is_pen {
            b.pen
        } else {
            b.touch
        };
        match ev.phase {
            TouchPhase::Started => self.touch_started(ev, raw, target),
            TouchPhase::Moved => self.touch_moved(ev, raw),
            TouchPhase::Ended | TouchPhase::Cancelled => self.touch_ended(ev),
        }
    }

    fn touch_started(&mut self, ev: TouchEvent<C>, raw: Role, target: PressTarget) -> (r: Option<
        TouchOutcome<C>,
    >)
        ensures
            landed(old(self)@, final(self)@, ev, raw, target, r),
    {
        // A new contact decides now, and keeps what it decided.
        let role = raw.resolve(target);
        self.held_touch = Some(role);
        let now = ev.now;
        let was_empty = self.fingers.len() == 0;
        if was_empty {
            self.taps = TapTracker {
                began: Some(now),
                fingers: 0,
                strayed: false,
                last: self.taps.last,
            };
        }
        self.fingers.push(Finger { id: ev.id, at: ev.contact, start: ev.contact });
        let count = self.fingers.len();
        if self.taps.fingers < count {
            self.taps.fingers = count;
        }
        if count == 1 {
            if target == PressTarget::Ui {
                // The interface owns this one.
                return None;
            }
            if role != Role::Sculpt {
                // This device navigates; nothing to do until it moves.
                self.finger_stroke = false;
                self.gesture_lock = true;
                return None;
            }
            self.finger_stroke = true;
            self.gesture_lock = false;
            return Some(TouchOutcome::StrokeStart(ev.contact));
        }
        // A second finger means the user wants to navigate, or to tap.
        self.gesture_lock = true;
        if self.finger_stroke {
            self.finger_stroke = false;
            // Landing this fast means the first finger was part of the same
            // gesture, not a stroke someone wanted to keep.
            let quick = match self.taps.began {
                Some(t) => {
                    let since = if now >= t {
                        now - t
                    } else {
                        0
                    };
                    since < STROKE_GRACE_NANOS
                },
                None => false,
            };
            return Some(
                if quick {
                    TouchOutcome::CancelStroke
                } else {
                    TouchOutcome::StrokeEnd
                },
            );
        }
        None
    }

    fn touch_moved(&mut self, ev: TouchEvent<C>, raw: Role) -> (r: Option<TouchOutcome<C>>)
        ensures
            travelled(old(self)@, final(self)@, ev, raw, r),
    {
        // A finger that is already down keeps the job it landed with.
        let role = match self.held_touch {
            Some(h) => h,
            None => raw,
        };
        let k = match self.find_finger(ev.id) {
            Some(k) => k,
            None => return None,
        };
        let previous = self.fingers[k].at;
        let moved = Finger { at: ev.contact, ..self.fingers[k] };
        self.fingers.set(k, moved);
        self.taps.strayed = self.taps.strayed || ev.strayed;
        let count = self.fingers.len();
        if count == 1 {
            if self.finger_stroke {
                Some(TouchOutcome::StrokeMove(ev.contact))
            } else {
                match role.gesture() {
                    Some(kind) => Some(
                        TouchOutcome::Navigate(
                            Navigation::Single { kind, from: previous, to: ev.contact },
                        ),
                    ),
                    None => None,
                }
            }
        } else if count == 2 {
            Some(
                TouchOutcome::Navigate(
                    Navigation::Pair {
                        first: self.fingers[0],
                        second: self.fingers[1],
                        moved: ev.id,
                        previous,
                    },
                ),
            )
        } else {
            Some(
                TouchOutcome::Navigate(
                    Navigation::Palm { from: previous, to: ev.contact, fingers: count },
                ),
            )
        }
    }

    fn touch_ended(&mut self, ev: TouchEvent<C>) -> (r: Option<TouchOutcome<C>>)
        ensures
            lifted(old(self)@, final(self)@, ev, r),
    {
        self.lift_finger(ev.id);
        if self.fingers.len() > 0 {
            return None;
        }
        let was_stroking = self.finger_stroke;
        self.finger_stroke = false;
        self.gesture_lock = false;
        self.held_touch = None;
        // Every finger is off: the sequence is over, so decide whether it was
        // a tap, and whether it was the second of a pair.
        match self.finish_tap(ev.now) {
            Some(action) => Some(action),
            None => if was_stroking {
                Some(TouchOutcome::StrokeEnd)
            } else {
                None
            },
        }
    }

    /// Closes off a touch sequence and reports the double tap it completed.
    ///
    /// Two fingers undo, three redo. A double tap rather than a single one,
    /// because two fingers resting briefly on the way to an orbit is far too
    /// easy to do by accident.
    fn finish_tap(&mut self, now: u64) -> (r: Option<TouchOutcome<C>>)
        ensures
            final(self)@ == (InputView {
                taps: taps_after_sequence(old(self)@.taps, now),
                ..old(self)@
            }),
            r == match double_tap(old(self)@.taps, now) {
                Some(true) => Some(TouchOutcome::<C>::Undo),
                Some(false) => Some(TouchOutcome::<C>::Redo),
                None => None,
            },
    {
        let began = match self.taps.began {
            Some(t) => t,
            None => return None,
        };
        self.taps.began = None;
        let since = if now >= began {
            now - began
        } else {
            0
        };
        let quick = since < TAP_MAX_NANOS;
        let still = !self.taps.strayed;
        let fingers = self.taps.fingers;
        self.taps.strayed = false;
        self.taps.fingers = 0;
        if !quick || !still || !(2 <= fingers && fingers <= 3) {
            self.taps.last = None;
            return None;
        }
        let paired = match self.taps.last {
            Some((n, at)) => {
                let gap = if now >= at {
                    now - at
                } else {
                    0
                };
                n == fingers && gap < DOUBLE_TAP_NANOS
            },
            None => false,
        };
        if !paired {
            self.taps.last = Some((fingers, now));
            return None;
        }
        self.taps.last = None;
        Some(
            if fingers == 2 {
                TouchOutcome::Undo
            } else {
                TouchOutcome::Redo
            },
        )
    }
}


impl<C: Copy> Default for Input<C> {
    fn default() -> (r: Self)
        ensures
            at_rest(r@),
    {
        Input::new()
    }
}

/// A press the interface has taken belongs to the interface: whatever a
/// device is bound to, it neither sculpts nor moves the camera.
pub proof fn a_press_the_interface_took_does_nothing_else(role: Role)
    ensures
        resolved(role, PressTarget::Ui) == Role::Nothing,
        gesture_of(resolved(role, PressTarget::Ui)) is None,
{
}

/// Only the automatic binding asks where a press landed: it sculpts on the
/// model and orbits off it, and every other binding means the same wherever
/// the press lands outside the interface.
pub proof fn only_auto_asks_where(role: Role, target: PressTarget)
    requires
        target != PressTarget::Ui,
    ensures
        role != Role::Auto ==> resolved(role, target) == role,
        resolved(Role::Auto, PressTarget::Model) == Role::Sculpt,
        resolved(Role::Auto, PressTarget::Space) == Role::Orbit,
        resolved(role, target) != Role::Auto,
{
}

/// The press decides once and the drag keeps it: while the left button that
/// landed on the model is held, dragging never moves the camera, wherever
/// the pointer goes; one that landed in space orbits, or pans with shift.
pub proof fn the_press_decides_once_and_the_drag_keeps_it<C>(i: InputView<C>, b: Bindings, target: PressTarget)
    requires
        i.lmb,
        !i.alt,
        b.left == Role::Auto,
        target != PressTarget::Ui,
        i.held == Some(resolved(Role::Auto, target)),
    ensures
        navigation(i, b) == (if target == PressTarget::Model {
            None
        } else if i.shift {
            Some(GestureKind::Pan)
        } else {
            Some(GestureKind::Orbit)
        }),
{
}

/// A second finger landing while the first one is drawing stops the stroke:
/// it is cancelled when the finger follows within the grace period and ended
/// otherwise, and no finger draws again until every finger has lifted.
pub proof fn a_second_finger_stops_the_stroke<C>(
    o: InputView<C>,
    n: InputView<C>,
    ev: TouchEvent<C>,
    raw: Role,
    target: PressTarget,
    r: Option<TouchOutcome<C>>,
)
    requires
        ev.phase == TouchPhase::Started,
        o.fingers.len() >= 1,
        o.finger_stroke,
        touch_step(o, n, ev, raw, target, r),
    ensures
        r == Some(TouchOutcome::<C>::CancelStroke) || r == Some(TouchOutcome::<C>::StrokeEnd),
        !n.finger_stroke,
        n.gesture_lock,
{
}

/// Once a contact is not drawing, moving or lifting fingers never starts or
/// continues a stroke: lifting back to one finger after a gesture does not
/// resume sculpting mid-air.
pub proof fn no_stroke_resumes_mid_air<C>(
    o: InputView<C>,
    n: InputView<C>,
    ev: TouchEvent<C>,
    raw: Role,
    target: PressTarget,
    r: Option<TouchOutcome<C>>,
)
    requires
        ev.phase != TouchPhase::Started,
        !o.finger_stroke,
        touch_step(o, n, ev, raw, target, r),
    ensures
        !n.finger_stroke,
        !(r matches Some(TouchOutcome::StrokeStart(_))),
        !(r matches Some(TouchOutcome::StrokeMove(_))),
        r != Some(TouchOutcome::<C>::StrokeEnd),
{
}

/// When the last finger lifts, the sequence is over: nothing is held, no
/// stroke runs, no gesture is locked in, and the finger that lifted is gone.
pub proof fn the_last_lift_ends_the_sequence<C>(
    o: InputView<C>,
    n: InputView<C>,
    ev: TouchEvent<C>,
    raw: Role,
    target: PressTarget,
    r: Option<TouchOutcome<C>>,
)
    requires
        ev.phase == TouchPhase::Ended || ev.phase == TouchPhase::Cancelled,
        touch_step(o, n, ev, raw, target, r),
    ensures
        forall|k: int| 0 <= k < n.fingers.len() ==> (#[trigger] n.fingers[k]).id != ev.id,
        n.fingers.len() == 0 ==> n.held_touch is None && !n.finger_stroke && !n.gesture_lock
            && n.taps.began is None,
{
    let pred = |f: Finger<C>| f.id != ev.id;
    assert forall|k: int| 0 <= k < n.fingers.len() implies (#[trigger] n.fingers[k]).id != ev.id by {
        o.fingers.lemma_filter_pred(pred, k);
    }
}

/// Undoing takes a double tap: a tap with no tap before it never undoes or
/// redoes; it is remembered, and a second tap with as many fingers soon
/// after completes the pair, two fingers undoing and three redoing.
pub proof fn undo_takes_a_double_tap(first: TapTracker, second: TapTracker, then: u64, now: u64)
    requires
        first.last is None,
        second.last == taps_after_sequence(first, then).last,
        second.began is Some,
        was_tap(first, then),
        was_tap(second, now),
        second.fingers == first.fingers,
        then <= now,
        now - then < DOUBLE_TAP_NANOS,
    ensures
        double_tap(first, then) is None,
        double_tap(second, now) == Some(first.fingers == 2),
{
}


/// The release reads back what the press decided: letting go of the button
/// that was pressed reports the same answer the press gave, wherever the
/// pointer is by then, and leaves nothing held once no button is down, so a
/// later drag of an automatic left button without a new press orbits.
pub proof fn the_release_reads_back_the_press<C>(
    pressed: InputView<C>,
    released: InputView<C>,
    b: Bindings,
    button: Button,
    landed: PressTarget,
    lifted: PressTarget,
)
    requires
        released.held == press_step(pressed, b, button, true, landed).0,
        released.alt == pressed.alt,
        !released.lmb && !released.mmb && !released.rmb,
    ensures
        press_step(released, b, button, false, lifted).1 == press_step(pressed, b, button, true, landed).1,
        press_step(released, b, button, false, lifted).0 is None,
        b.left == Role::Auto && !released.alt && !released.shift ==> navigation(
            InputView { lmb: true, held: press_step(released, b, button, false, lifted).0, ..released },
            b,
        ) == Some(GestureKind::Orbit),
{
}

/// Each event took the recogniser from one state to the next, answering as
/// it did: `raws[i]` is the role the event's device is bound to and
/// `targets[i]` where it landed.
pub open spec fn recognised<C>(
    states: Seq<InputView<C>>,
    events: Seq<TouchEvent<C>>,
    raws: Seq<Role>,
    targets: Seq<PressTarget>,
    outs: Seq<Option<TouchOutcome<C>>>,
) -> bool {
    &&& states.len() == events.len() + 1
    &&& raws.len() == events.len() && targets.len() == events.len() && outs.len() == events.len()
    &&& forall|i: int|
        #![trigger events[i]]
        0 <= i < events.len() ==> touch_step(states[i], states[i + 1], events[i], raws[i], targets[i], outs[i])
}

/// What a finished sequence answers, read off its tracker.
pub open spec fn tap_answer<C>(t: TapTracker, now: u64) -> Option<TouchOutcome<C>> {
    match double_tap(t, now) {
        Some(true) => Some(TouchOutcome::<C>::Undo),
        Some(false) => Some(TouchOutcome::<C>::Redo),
        None => None,
    }
}

/// The tracker of a sequence of `k` fingers that began at `began`.
pub open spec fn sequence_tracker(began: u64, k: int, last: Option<(usize, u64)>) -> TapTracker {
    TapTracker { began: Some(began), fingers: k as usize, strayed: false, last }
}

/// The most fingers down at once in `states[lo..hi]`.
pub open spec fn peak<C>(states: Seq<InputView<C>>, lo: int, hi: int) -> int
    decreases hi - lo,
{
    if hi <= lo {
        0
    } else {
        let p = peak(states, lo, hi - 1);
        let n = states[hi - 1].fingers.len() as int;
        if p >= n {
            p
        } else {
            n
        }
    }
}

/// One touch sequence: the events `a..b` take the glass from no finger down,
/// through states with fingers down, back to no finger down, and no finger
/// that moves strays further than a tap may travel. Fingers may land, move
/// and lift in any order in between.
pub open spec fn touch_sequence<C>(states: Seq<InputView<C>>, events: Seq<TouchEvent<C>>, a: int, b: int) -> bool {
    &&& 0 <= a < b <= events.len()
    &&& states[a].fingers.len() == 0
    &&& states[b].fingers.len() == 0
    &&& forall|i: int| a < i < b ==> #[trigger] states[i].fingers.len() > 0
    &&& forall|i: int| a <= i < b && (#[trigger] events[i]).phase is Moved ==> !events[i].strayed
}

/// A quick tap of `k` fingers: one touch sequence with at most `k` fingers
/// down at once, reaching `k`, whose last lift comes within a tap's time of
/// its first landing.
pub open spec fn quick_tap<C>(states: Seq<InputView<C>>, events: Seq<TouchEvent<C>>, a: int, b: int, k: int) -> bool {
    &&& touch_sequence(states, events, a, b)
    &&& peak(states, a + 1, b) == k
    &&& events[a].now <= events[b - 1].now
    &&& events[b - 1].now - events[a].now < TAP_MAX_NANOS
}

/// Every state in a range counts towards its peak, and a range's peak is no
/// less than that of any range it starts.
proof fn peak_bounds<C>(states: Seq<InputView<C>>, lo: int, hi: int, j: int)
    requires
        lo <= j < hi,
    ensures
        states[j].fingers.len() <= peak(states, lo, hi),
        peak(states, lo, j + 1) <= peak(states, lo, hi),
    decreases hi - lo,
{
    if j < hi - 1 {
        peak_bounds(states, lo, hi - 1, j);
    }
}

/// Inside a sequence the tracker holds its start, the most fingers down so
/// far and the last tap, nothing has strayed, and once a second finger has
/// landed no stroke runs.
proof fn tracking_a_sequence<C>(
    states: Seq<InputView<C>>,
    events: Seq<TouchEvent<C>>,
    raws: Seq<Role>,
    targets: Seq<PressTarget>,
    outs: Seq<Option<TouchOutcome<C>>>,
    a: int,
    b: int,
    i: int,
)
    requires
        recognised(states, events, raws, targets, outs),
        touch_sequence(states, events, a, b),
        peak(states, a + 1, b) <= 3,
        a < i < b,
    ensures
        states[i].taps.began == Some(events[a].now),
        states[i].taps.fingers as int == peak(states, a + 1, i + 1),
        !states[i].taps.strayed,
        states[i].taps.last == states[a].taps.last,
        peak(states, a + 1, i + 1) >= 2 ==> !states[i].finger_stroke,
    decreases i,
{
    let e = events[i - 1];
    let o = states[i - 1];
    let n = states[i];
    let pred = |f: Finger<C>| f.id != e.id;
    o.fingers.lemma_filter_len(pred);
    peak_bounds(states, a + 1, b, i);
    assert(n.fingers.len() > 0);
    if i == a + 1 {
        assert(peak(states, a + 1, a + 1) == 0);
        assert(peak(states, a + 1, a + 2) == n.fingers.len());
    } else {
        tracking_a_sequence(states, events, raws, targets, outs, a, b, i - 1);
        peak_bounds(states, a + 1, b, i - 1);
        assert(o.fingers.len() > 0);
        assert(o.fingers.len() <= peak(states, a + 1, i));
    }
}

/// A quick tap ends with its tracker closed over the whole sequence, and its
/// last lift answers only what a double tap asks.
proof fn ending_a_tap<C>(
    states: Seq<InputView<C>>,
    events: Seq<TouchEvent<C>>,
    raws: Seq<Role>,
    targets: Seq<PressTarget>,
    outs: Seq<Option<TouchOutcome<C>>>,
    a: int,
    b: int,
    k: int,
)
    requires
        recognised(states, events, raws, targets, outs),
        quick_tap(states, events, a, b, k),
        2 <= k <= 3,
    ensures
        ({
            let t = sequence_tracker(events[a].now, k, states[a].taps.last);
            let now = events[b - 1].now;
            &&& states[b].taps == taps_after_sequence(t, now)
            &&& outs[b - 1] == tap_answer::<C>(t, now)
        }),
{
    assert(b - 1 > a) by {
        if b - 1 == a {
            assert(peak(states, a + 1, a + 1) == 0);
        }
    }
    tracking_a_sequence(states, events, raws, targets, outs, a, b, b - 1);
    let e = events[b - 1];
    let o = states[b - 1];
    assert(o.fingers.len() > 0);
    assert(b - 1 + 1 == b);
}

/// Two quick taps of two fingers undo, and of three fingers redo.
///
/// Two touch sequences run back to back, the first from nothing down and no
/// tap remembered. In each, at most the same number of fingers (two or
/// three) are down at once and that many are reached; fingers land, move
/// and lift in any order, none strays, and each sequence lasts less than a
/// tap's time. When the second ends within a double tap's time of the first,
/// the lift that ends the first answers nothing, and the one that ends the
/// second answers undo for two fingers and redo for three.
pub proof fn two_quick_taps_undo_or_redo<C>(
    states: Seq<InputView<C>>,
    events: Seq<TouchEvent<C>>,
    raws: Seq<Role>,
    targets: Seq<PressTarget>,
    outs: Seq<Option<TouchOutcome<C>>>,
    a: int,
    m: int,
    b: int,
    k: int,
)
    requires
        recognised(states, events, raws, targets, outs),
        2 <= k <= 3,
        states[a].taps.last is None,
        quick_tap(states, events, a, m, k),
        quick_tap(states, events, m, b, k),
        events[m - 1].now <= events[b - 1].now,
        events[b - 1].now - events[m - 1].now < DOUBLE_TAP_NANOS,
    ensures
        outs[m - 1] is None,
        outs[b - 1] == (if k == 2 {
            Some(TouchOutcome::<C>::Undo)
        } else {
            Some(TouchOutcome::<C>::Redo)
        }),
{
    ending_a_tap(states, events, raws, targets, outs, a, m, k);
    ending_a_tap(states, events, raws, targets, outs, m, b, k);
}

/// A contact that reports pressure goes by the pen's binding, and a
/// fingertip by the touch binding. Landing on the model with nothing else
/// down, a device bound to sculpting (or to the automatic role, which
/// sculpts on the model) starts a stroke right there, and a device bound to
/// anything else does not, whatever the other device is bound to.
pub proof fn each_device_follows_its_own_binding<C>(
    o: InputView<C>,
    n: InputView<C>,
    ev: TouchEvent<C>,
    b: Bindings,
    r: Option<TouchOutcome<C>>,
)
    requires
        touch_step(o, n, ev, touch_role(b, ev.is_pen), touch_target(false, true), r),
        ev.phase is Started,
        o.fingers.len() == 0,
    ensures
        ev.is_pen ==> ((b.pen == Role::Sculpt || b.pen == Role::Auto) <==> r == Some(
            TouchOutcome::StrokeStart(ev.contact),
        )),
        !ev.is_pen ==> ((b.touch == Role::Sculpt || b.touch == Role::Auto) <==> r == Some(
            TouchOutcome::StrokeStart(ev.contact),
        )),
{
}

/// Shift turns every orbit into a pan, whichever button (or alt) asks for
/// the orbit, and changes no other move: the move with shift held is the
/// move without it, an orbit becoming a pan. So with shift held the view
/// never orbits.
pub proof fn shift_pans_every_orbit<C>(i: InputView<C>, b: Bindings)
    ensures
        navigation(InputView { shift: true, ..i }, b) == (match navigation(InputView { shift: false, ..i }, b) {
            Some(GestureKind::Orbit) => Some(GestureKind::Pan),
            other => other,
        }),
        navigation(InputView { shift: true, ..i }, b) != Some(GestureKind::Orbit),
        i.shift && !i.lmb && i.mmb && b.middle == Role::Orbit ==> navigation(i, b) == Some(GestureKind::Pan),
        i.shift && !i.lmb && !i.mmb && i.rmb && b.right == Role::Orbit ==> navigation(i, b) == Some(
            GestureKind::Pan,
        ),
        i.shift && i.lmb && (i.alt || b.left == Role::Orbit) ==> navigation(i, b) == Some(GestureKind::Pan),
{
}

/// How held mouse buttons move the view, without shift. The left button
/// with alt always orbits, whatever it is bound to. Otherwise the left
/// button goes first, then the middle, then the right, each by its own
/// binding: orbit, pan and zoom move the view, sculpting and nothing do not,
/// and the automatic binding moves it as its press decided, orbiting when
/// nothing was decided and not moving it when the press sculpts. No button
/// held, no move.
pub proof fn held_buttons_move_the_view<C>(i: InputView<C>, b: Bindings)
    requires
        !i.shift,
    ensures
        i.lmb && i.alt ==> navigation(i, b) == Some(GestureKind::Orbit),
        !i.lmb && !i.mmb && !i.rmb ==> navigation(i, b) is None,
        ({
            let role = if i.lmb && !i.alt {
                b.left
            } else if !i.lmb && i.mmb {
                b.middle
            } else {
                b.right
            };
            (i.lmb && !i.alt || !i.lmb && (i.mmb || i.rmb)) ==> {
                &&& role == Role::Orbit ==> navigation(i, b) == Some(GestureKind::Orbit)
                &&& role == Role::Pan ==> navigation(i, b) == Some(GestureKind::Pan)
                &&& role == Role::Zoom ==> navigation(i, b) == Some(GestureKind::Wheel)
                &&& (role == Role::Sculpt || role == Role::Nothing) ==> navigation(i, b) is None
                &&& role == Role::Auto && i.held is None ==> navigation(i, b) == Some(GestureKind::Orbit)
                &&& role == Role::Auto && i.held == Some(Role::Sculpt) ==> navigation(i, b) is None
                &&& role == Role::Auto && i.held == Some(Role::Orbit) ==> navigation(i, b) == Some(GestureKind::Orbit)
            }
        }),
{
}

} // verus!
