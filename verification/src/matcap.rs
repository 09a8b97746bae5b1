//! The built-in matcap materials.

use vstd::prelude::*;

verus! {

/// Side of a generated matcap texture, in pixels.
pub const SIZE: u32 = 256;

/// The built-in materials a matcap can be generated from.
#[derive(Clone, Copy, PartialEq, Eq, Debug, Structural)]
pub enum Preset {
    Clay,
    Pearl,
    Skin,
    Jade,
    Metal,
}

/// The name a material is shown under.
pub open spec fn preset_label(p: Preset) -> Seq<char> {
    match p {
        Preset::Clay => "Clay"@,
        Preset::Pearl => "Pearl"@,
        Preset::Skin => "Skin"@,
        Preset::Jade => "Jade"@,
        Preset::Metal => "Metal"@,
    }
}

impl Preset {
    pub const ALL: [Preset; 5] = [Preset::Clay, Preset::Pearl, Preset::Skin, Preset::Jade, Preset::Metal];

    pub fn label(self) -> (r: &'static str)
        ensures
            r@ == preset_label(self),
    {
        match self {
            Preset::Clay => "Clay",
            Preset::Pearl => "Pearl",
            Preset::Skin => "Skin",
            Preset::Jade => "Jade",
            Preset::Metal => "Metal",
        }
    }
}

} // verus!
