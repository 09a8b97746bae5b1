//! Multisampling: which sample counts are offered, which one a saved
//! workspace comes back with, and when dense models turn it off by itself.

use vstd::prelude::*;

verus! {

/// Above this many faces the triangles are smaller than a pixel and
/// multisampling is turned off.
pub const DENSE_FACES: usize = 3_000_000;

/// Below this many faces multisampling comes back on. Between the two
/// nothing changes, so a model near the line does not flicker between them.
pub const SPARSE_FACES: usize = 1_500_000;

/// The sample counts there are at all.
pub open spec fn sample_counts() -> Seq<u32> {
    seq![1u32, 2, 4, 8]
}

/// Whether a number is one of the sample counts.
pub open spec fn is_sample_count(n: u32) -> bool {
    n == 1 || n == 2 || n == 4 || n == 8
}

/// The highest sample count that both the colour and the depth format
/// accept, given whether they accept eight, four and two; one when none.
pub open spec fn best_count(ok8: bool, ok4: bool, ok2: bool) -> u32 {
    if ok8 {
        8
    } else if ok4 {
        4
    } else if ok2 {
        2
    } else {
        1
    }
}

/// The highest sample count usable for both colour and depth: asking for
/// one the depth buffer cannot do is a validation error, not a soft failure.
pub fn max_sample_count(ok8: bool, ok4: bool, ok2: bool) -> (r: u32)
    ensures
        r == best_count(ok8, ok4, ok2),
{
    if ok8 {
        8
    } else if ok4 {
        4
    } else if ok2 {
        2
    } else {
        1
    }
}

/// The sample count a session starts with: the most the hardware takes, but
/// no more than four.
pub fn starting_sample_count(max: u32) -> (r: u32)
    ensures
        r == (if max < 4 { max } else { 4 }),
{
    if max < 4 {
        max
    } else {
        4
    }
}

/// The sample counts the settings offer: those the hardware takes, lowest
/// first.
pub fn offered_counts(max: u32) -> (r: Vec<u32>)
    ensures
        r@ == sample_counts().filter(|c: u32| c <= max),
{
    let mut r: Vec<u32> = Vec::new();
    proof {
        reveal_with_fuel(Seq::<_>::filter, 5);
        assert(sample_counts().drop_last().drop_last().drop_last() =~= seq![1u32]);
        assert(sample_counts().drop_last().drop_last() =~= seq![1u32, 2]);
        assert(sample_counts().drop_last() =~= seq![1u32, 2, 4]);
        assert(seq![1u32].drop_last() =~= Seq::<u32>::empty());
    }
    if 1 <= max {
        r.push(1);
    }
    if 2 <= max {
        r.push(2);
    }
    if 4 <= max {
        r.push(4);
    }
    if 8 <= max {
        r.push(8);
    }
    r
}

/// A sample count kept within what the hardware takes and never below one.
pub open spec fn clamped_count(n: u32, max: u32) -> u32 {
    let m = if n < max { n } else { max };
    if m < 1 {
        1
    } else {
        m
    }
}

/// A sample count asked for from the settings, kept within what the
/// hardware takes and never below one.
pub fn clamp_sample_count(n: u32, max: u32) -> (r: u32)
    ensures
        r == clamped_count(n, max),
{
    let m = if n < max { n } else { max };
    if m < 1 {
        1
    } else {
        m
    }
}

/// The sample count a saved workspace comes back with: the highest of eight,
/// four, two that is no more than both the saved count and the most the
/// hardware takes, and one otherwise.
pub open spec fn restored_count(saved: u32, max: u32) -> u32 {
    let limit = if saved < max { saved } else { max };
    if 8 <= limit {
        8
    } else if 4 <= limit {
        4
    } else if 2 <= limit {
        2
    } else {
        1
    }
}

/// Restores a saved sample count.
pub fn restore_sample_count(saved: u32, max: u32) -> (r: u32)
    ensures
        r == restored_count(saved, max),
{
    let limit = if saved < max { saved } else { max };
    if 8 <= limit {
        8
    } else if 4 <= limit {
        4
    } else if 2 <= limit {
        2
    } else {
        1
    }
}

/// A restored sample count is always one the hardware takes (or one, which
/// every device does), and a count that was saved from this hardware comes
/// back unchanged.
pub proof fn saved_counts_come_back(saved: u32, max: u32)
    ensures
        is_sample_count(restored_count(saved, max)),
        restored_count(saved, max) == 1 || restored_count(saved, max) <= max,
        restored_count(saved, max) == 1 || restored_count(saved, max) <= saved,
        is_sample_count(saved) && saved <= max ==> restored_count(saved, max) == saved,
{
}

/// What the automatic switch wants for a model this dense, or none when it
/// leaves the count alone: off above the dense line, the chosen count below
/// the sparse one, and no change between them.
pub open spec fn wanted_count(adaptive: bool, available: bool, faces: nat, chosen: u32, max: u32) -> Option<u32> {
    if !adaptive || !available {
        None
    } else if faces > DENSE_FACES {
        Some(1)
    } else if faces < SPARSE_FACES {
        Some(clamped_count(chosen, max))
    } else {
        None
    }
}

/// Turns multisampling off by itself once the triangles are smaller than a
/// pixel, where it costs four times the rasterising for no visible gain, and
/// back on when the model thins out again. Returns the count to switch to,
/// or none when nothing changes.
pub fn adapt_sampling(adaptive: bool, available: bool, faces: usize, chosen: u32, max: u32, current: u32) -> (r: Option<u32>)
    ensures
        r == (match wanted_count(adaptive, available, faces as nat, chosen, max) {
            Some(w) => if w != current {
                Some(w)
            } else {
                None
            },
            None => None,
        }),
{
    if !adaptive || !available {
        return None;
    }
    let want = if faces > DENSE_FACES {
        1
    } else if faces < SPARSE_FACES {
        clamp_sample_count(chosen, max)
    } else {
        return None;
    };
    if want != current {
        Some(want)
    } else {
        None
    }
}

/// The status line shown when the automatic switch changes the count.
pub open spec fn switch_message(count: u32) -> Seq<char> {
    if count == 1 {
        "multisampling off: the triangles are smaller than a pixel"@
    } else {
        "multisampling back on"@
    }
}

/// The status line shown when the automatic switch changes the count.
pub fn sampling_message(count: u32) -> (r: &'static str)
    ensures
        r@ == switch_message(count),
{
    if count == 1 {
        "multisampling off: the triangles are smaller than a pixel"
    } else {
        "multisampling back on"
    }
}

/// The switch has a dead band: a model whose face count lies between the
/// two lines never changes the sample count. What it switches to is off, or
/// a count of at least one the hardware takes.
pub proof fn the_switch_settles(adaptive: bool, available: bool, faces: nat, chosen: u32, max: u32)
    ensures
        SPARSE_FACES <= faces <= DENSE_FACES ==> wanted_count(adaptive, available, faces, chosen, max) is None,
        wanted_count(adaptive, available, faces, chosen, max) matches Some(w) ==> w >= 1 && (w == 1 || w <= max),
{
}

} // verus!
