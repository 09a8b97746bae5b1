//! The interface's choices, and which settings tabs sit in the dock.
//!
//! A tab is either in the dock or torn out into a floating window of its
//! own, never both, and closing a floating window puts its tab back.

use vstd::prelude::*;

verus! {

/// The shapes a new object can start from.
#[derive(Clone, Copy, PartialEq, Eq, Debug, Structural)]
pub enum Primitive {
    Sphere,
    UvSphere,
    Cube,
    Cylinder,
    Torus,
    Plane,
}

/// The name a primitive is shown under.
pub open spec fn primitive_label(p: Primitive) -> Seq<char> {
    match p {
        Primitive::Sphere => "Sphere"@,
        Primitive::UvSphere => "UV sphere"@,
        Primitive::Cube => "Cube"@,
        Primitive::Cylinder => "Cylinder"@,
        Primitive::Torus => "Torus"@,
        Primitive::Plane => "Plane"@,
    }
}

impl Primitive {
    pub const ALL: [Primitive; 6] = [
        Primitive::Sphere,
        Primitive::UvSphere,
        Primitive::Cube,
        Primitive::Cylinder,
        Primitive::Torus,
        Primitive::Plane,
    ];

    pub fn label(self) -> (r: &'static str)
        ensures
            r@ == primitive_label(self),
    {
        match self {
            Primitive::Sphere => "Sphere",
            Primitive::UvSphere => "UV sphere",
            Primitive::Cube => "Cube",
            Primitive::Cylinder => "Cylinder",
            Primitive::Torus => "Torus",
            Primitive::Plane => "Plane",
        }
    }
}

/// Where things that pop up should appear.
#[derive(Clone, Copy, PartialEq, Eq, Debug, Structural)]
pub enum Anchor {
    /// Wherever the pointer is, which is where you are already looking.
    Cursor,
    /// The middle of the viewport, which never moves and never lands under a
    /// dock. Easier to reach on a tablet held in two hands.
    Center,
}

/// The name an anchor is shown under.
pub open spec fn anchor_label(a: Anchor) -> Seq<char> {
    match a {
        Anchor::Cursor => "At the cursor"@,
        Anchor::Center => "In the middle"@,
    }
}

impl Anchor {
    pub const ALL: [Anchor; 2] = [Anchor::Cursor, Anchor::Center];

    pub fn label(self) -> (r: &'static str)
        ensures
            r@ == anchor_label(self),
    {
        match self {
            Anchor::Cursor => "At the cursor",
            Anchor::Center => "In the middle",
        }
    }

    /// Resolves to a point, given where the pointer is and where the middle
    /// of the viewport is.
    pub fn resolve<P>(self, cursor: P, center: P) -> (r: P)
        ensures
            r == (match self {
                Anchor::Cursor => cursor,
                Anchor::Center => center,
            }),
    {
        match self {
            Anchor::Cursor => cursor,
            Anchor::Center => center,
        }
    }
}

/// The tabs of the settings dock.
#[derive(Clone, Copy, PartialEq, Eq, Debug, Hash, Structural)]
pub enum Tab {
    Brush,
    Colour,
    Materials,
    Model,
    Scene,
    View,
    Interface,
}

/// The name a tab is shown under.
pub open spec fn tab_label(t: Tab) -> Seq<char> {
    match t {
        Tab::Brush => "Brush"@,
        Tab::Colour => "Colour"@,
        Tab::Materials => "Materials"@,
        Tab::Model => "Model"@,
        Tab::Scene => "Scene"@,
        Tab::View => "View"@,
        Tab::Interface => "UI"@,
    }
}

/// Every tab, in the order the dock lists them.
pub open spec fn tab_order() -> Seq<Tab> {
    seq![Tab::Brush, Tab::Colour, Tab::Materials, Tab::Model, Tab::Scene, Tab::View, Tab::Interface]
}

impl Tab {
    pub const ALL: [Tab; 7] = [
        Tab::Brush,
        Tab::Colour,
        Tab::Materials,
        Tab::Model,
        Tab::Scene,
        Tab::View,
        Tab::Interface,
    ];

    pub fn label(self) -> (r: &'static str)
        ensures
            r@ == tab_label(self),
    {
        match self {
            Tab::Brush => "Brush",
            Tab::Colour => "Colour",
            Tab::Materials => "Materials",
            Tab::Model => "Model",
            Tab::Scene => "Scene",
            Tab::View => "View",
            Tab::Interface => "UI",
        }
    }
}

/// Colour schemes built off the hue in hand.
#[derive(Clone, Copy, PartialEq, Eq, Debug, Structural)]
pub enum Harmony {
    /// No scheme: nothing is shown alongside the colour in hand.
    Off,
    Complement,
    Analogous,
    Triad,
    Split,
    Shades,
}

/// The name a colour scheme is shown under.
pub open spec fn harmony_label(h: Harmony) -> Seq<char> {
    match h {
        Harmony::Off => "Off"@,
        Harmony::Complement => "Opposite"@,
        Harmony::Analogous => "Near"@,
        Harmony::Triad => "Triad"@,
        Harmony::Split => "Split"@,
        Harmony::Shades => "Shades"@,
    }
}

/// The sentence that explains a colour scheme.
pub open spec fn harmony_hint(h: Harmony) -> Seq<char> {
    match h {
        Harmony::Off => ""@,
        Harmony::Complement => "The hue across the wheel. Loud, and the fastest way to make one colour read."@,
        Harmony::Analogous => "The neighbours. Quiet, and what most of a painting is made of."@,
        Harmony::Triad => "Three evenly spaced hues. Balanced without being flat."@,
        Harmony::Split => "The two either side of the opposite. Most of the contrast, less of the shouting."@,
        Harmony::Shades => "The same hue at other values, which is what a form needs before it needs another hue."@,
    }
}

impl Harmony {
    pub const ALL: [Harmony; 6] = [
        Harmony::Off,
        Harmony::Complement,
        Harmony::Analogous,
        Harmony::Triad,
        Harmony::Split,
        Harmony::Shades,
    ];

    pub fn label(self) -> (r: &'static str)
        ensures
            r@ == harmony_label(self),
    {
        match self {
            Harmony::Off => "Off",
            Harmony::Complement => "Opposite",
            Harmony::Analogous => "Near",
            Harmony::Triad => "Triad",
            Harmony::Split => "Split",
            Harmony::Shades => "Shades",
        }
    }

    pub fn hint(self) -> (r: &'static str)
        ensures
            r@ == harmony_hint(self),
    {
        match self {
            Harmony::Off => "",
            Harmony::Complement => "The hue across the wheel. Loud, and the fastest way to make one colour read.",
            Harmony::Analogous => "The neighbours. Quiet, and what most of a painting is made of.",
            Harmony::Triad => "Three evenly spaced hues. Balanced without being flat.",
            Harmony::Split => "The two either side of the opposite. Most of the contrast, less of the shouting.",
            Harmony::Shades => "The same hue at other values, which is what a form needs before it needs another hue.",
        }
    }
}

/// The three ways to get a matcap.
#[derive(Clone, Copy, PartialEq, Eq, Debug, Structural)]
pub enum MatcapSource {
    /// One of the built-in materials, lit the built-in way.
    Preset,
    /// The same thing taken apart: material and three lights, all editable.
    Lightcap,
    /// An image someone else baked.
    Image,
}

/// The name a matcap source is shown under.
pub open spec fn matcap_source_label(m: MatcapSource) -> Seq<char> {
    match m {
        MatcapSource::Preset => "Preset"@,
        MatcapSource::Lightcap => "Lights"@,
        MatcapSource::Image => "Image"@,
    }
}

impl MatcapSource {
    pub const ALL: [MatcapSource; 3] = [MatcapSource::Preset, MatcapSource::Lightcap, MatcapSource::Image];

    pub fn label(self) -> (r: &'static str)
        ensures
            r@ == matcap_source_label(self),
    {
        match self {
            MatcapSource::Preset => "Preset",
            MatcapSource::Lightcap => "Lights",
            MatcapSource::Image => "Image",
        }
    }
}


/// The tab at this place in the dock's order.
fn tab_at(i: usize) -> (t: Tab)
    requires
        i < 7,
    ensures
        t == tab_order()[i as int],
{
    match i {
        0 => Tab::Brush,
        1 => Tab::Colour,
        2 => Tab::Materials,
        3 => Tab::Model,
        4 => Tab::Scene,
        5 => Tab::View,
        _ => Tab::Interface,
    }
}

/// Whether the list holds this tab.
fn holds(tabs: &Vec<Tab>, t: Tab) -> (r: bool)
    ensures
        r == tabs@.contains(t),
{
    let mut i: usize = 0;
    while i < tabs.len()
        invariant
            i <= tabs@.len(),
            forall|j: int| 0 <= j < i ==> tabs@[j] != t,
        decreases tabs@.len() - i,
    {
        if tabs[i] == t {
            return true;
        }
        i = i + 1;
    }
    false
}

/// The tabs the dock lists: every tab that is not floating, in order.
pub open spec fn docked_tabs(floating: Seq<Tab>) -> Seq<Tab> {
    tab_order().filter(|t: Tab| !floating.contains(t))
}

/// Which tabs are docked and which float, and the tab the dock shows.
pub struct Dock {
    /// The tab the dock shows.
    pub tab: Tab,
    /// Tabs torn out of the dock, each in a window of its own, in the order
    /// they were torn out.
    pub floating: Vec<Tab>,
}

impl Dock {
    /// Everything docked, the brush tab showing.
    pub fn new() -> (d: Dock)
        ensures
            d.tab == Tab::Brush,
            d.floating@ == Seq::<Tab>::empty(),
    {
        Dock { tab: Tab::Brush, floating: Vec::new() }
    }

    /// The tabs the dock lists. A tab that has been torn off is already on
    /// screen, and listing it twice would leave the dock showing a copy of a
    /// window sitting next to it.
    pub fn docked(&self) -> (r: Vec<Tab>)
        ensures
            r@ == docked_tabs(self.floating@),
    {
        let ghost pred = |t: Tab| !self.floating@.contains(t);
        let mut r: Vec<Tab> = Vec::new();
        let mut i: usize = 0;
        while i < 7
            invariant
                i <= 7,
                pred == (|t: Tab| !self.floating@.contains(t)),
                r@ == tab_order().take(i as int).filter(pred),
            decreases 7 - i,
        {
            let t = tab_at(i);
            proof {
                let next = tab_order().take(i + 1);
                reveal_with_fuel(Seq::<_>::filter, 1);
                assert(next.drop_last() =~= tab_order().take(i as int));
                assert(next.last() == t);
            }
            if !holds(&self.floating, t) {
                r.push(t);
            }
            i = i + 1;
        }
        proof {
            assert(tab_order().take(7) =~= tab_order());
        }
        r
    }

    /// Makes sure the dock shows a docked tab: when the tab it showed has
    /// floated away, the first docked tab takes its place. When every tab
    /// floats nothing changes, and the dock says so instead.
    pub fn settle(&mut self)
        ensures
            final(self).floating@ == old(self).floating@,
            final(self).tab == (if docked_tabs(old(self).floating@).len() == 0
                || docked_tabs(old(self).floating@).contains(old(self).tab) {
                old(self).tab
            } else {
                docked_tabs(old(self).floating@)[0]
            }),
    {
        let docked = self.docked();
        if docked.len() > 0 && !holds(&docked, self.tab) {
            self.tab = docked[0];
        }
    }

    /// Tears the tab the dock shows out into a window of its own.
    pub fn float_current(&mut self)
        ensures
            final(self).tab == old(self).tab,
            final(self).floating@ == old(self).floating@.push(old(self).tab),
    {
        let tab = self.tab;
        self.floating.push(tab);
    }

    /// Closes a floating tab's window. That puts the tab back in the dock,
    /// showing, rather than hiding it: there is no other way to get it back.
    pub fn close_floating(&mut self, tab: Tab)
        ensures
            final(self).tab == tab,
            final(self).floating@ == old(self).floating@.filter(|t: Tab| t != tab),
    {
        let ghost pred = |t: Tab| t != tab;
        let mut kept: Vec<Tab> = Vec::new();
        let mut i: usize = 0;
        while i < self.floating.len()
            invariant
                i <= self.floating@.len(),
                pred == (|t: Tab| t != tab),
                kept@ == self.floating@.take(i as int).filter(pred),
            decreases self.floating@.len() - i,
        {
            let t = self.floating[i];
            proof {
                let next = self.floating@.take(i + 1);
                reveal_with_fuel(Seq::<_>::filter, 1);
                assert(next.drop_last() =~= self.floating@.take(i as int));
                assert(next.last() == t);
            }
            if t != tab {
                kept.push(t);
            }
            i = i + 1;
        }
        proof {
            assert(self.floating@.take(i as int) =~= self.floating@);
        }
        self.floating = kept;
        self.tab = tab;
    }
}

/// A floating tab is never listed in the dock, and every other tab is.
pub proof fn floating_tabs_leave_the_dock(floating: Seq<Tab>, t: Tab)
    ensures
        docked_tabs(floating).contains(t) <==> !floating.contains(t),
{
    let pred = |t: Tab| !floating.contains(t);
    if !floating.contains(t) {
        assert(tab_order().contains(t)) by {
            match t {
                Tab::Brush => assert(tab_order()[0] == t),
                Tab::Colour => assert(tab_order()[1] == t),
                Tab::Materials => assert(tab_order()[2] == t),
                Tab::Model => assert(tab_order()[3] == t),
                Tab::Scene => assert(tab_order()[4] == t),
                Tab::View => assert(tab_order()[5] == t),
                Tab::Interface => assert(tab_order()[6] == t),
            }
        }
        let i = choose|i: int| 0 <= i < tab_order().len() && tab_order()[i] == t;
        tab_order().lemma_filter_contains(pred, i);
    } else if docked_tabs(floating).contains(t) {
        let j = choose|j: int| 0 <= j < docked_tabs(floating).len() && docked_tabs(floating)[j] == t;
        tab_order().lemma_filter_pred(pred, j);
    }
}

/// Closing a floating window docks its tab again and shows it, and leaves
/// the other floating tabs floating.
pub proof fn closing_a_window_docks_its_tab(floating: Seq<Tab>, tab: Tab, other: Tab)
    ensures
        ({
            let after = floating.filter(|t: Tab| t != tab);
            &&& !after.contains(tab)
            &&& docked_tabs(after).contains(tab)
            &&& (other != tab ==> (after.contains(other) <==> floating.contains(other)))
        }),
{
    let pred = |t: Tab| t != tab;
    let after = floating.filter(pred);
    floating_tabs_leave_the_dock(after, tab);
    if after.contains(tab) {
        let j = choose|j: int| 0 <= j < after.len() && after[j] == tab;
        floating.lemma_filter_pred(pred, j);
    }
    if other != tab && floating.contains(other) {
        let i = choose|i: int| 0 <= i < floating.len() && floating[i] == other;
        floating.lemma_filter_contains(pred, i);
    }
    if after.contains(other) {
        floating.lemma_filter_contains_rev(pred, other);
    }
}

/// After settling, the dock shows a tab it lists, unless every tab floats.
pub proof fn settling_shows_a_docked_tab(floating: Seq<Tab>, tab: Tab)
    ensures
        ({
            let docked = docked_tabs(floating);
            let shown = if docked.len() == 0 || docked.contains(tab) {
                tab
            } else {
                docked[0]
            };
            docked.len() > 0 ==> docked.contains(shown)
        }),
{
    let docked = docked_tabs(floating);
    if docked.len() > 0 {
        assert(docked.contains(docked[0]));
    }
}


/// Tearing out the tab a settled dock shows never floats a tab twice.
pub proof fn floating_a_settled_tab_never_repeats(floating: Seq<Tab>, tab: Tab)
    requires
        floating.no_duplicates(),
        docked_tabs(floating).len() > 0,
    ensures
        ({
            let docked = docked_tabs(floating);
            let shown = if docked.contains(tab) {
                tab
            } else {
                docked[0]
            };
            floating.push(shown).no_duplicates()
        }),
{
    let docked = docked_tabs(floating);
    let shown = if docked.contains(tab) {
        tab
    } else {
        docked[0]
    };
    settling_shows_a_docked_tab(floating, tab);
    floating_tabs_leave_the_dock(floating, shown);
    let pushed = floating.push(shown);
    assert forall|i: int, j: int| 0 <= i < pushed.len() && 0 <= j < pushed.len() && i != j implies pushed[i]
        != pushed[j] by {
        if i == floating.len() {
            assert(floating[j] == pushed[j]);
        } else if j == floating.len() {
            assert(floating[i] == pushed[i]);
        }
    }
}

} // verus!
