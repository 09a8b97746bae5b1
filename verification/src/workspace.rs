//! What a saved workspace must hold before any of it is applied, and how its
//! list of floating tabs is restored.

use vstd::prelude::*;
use crate::brush_library::{Stamp, StampModel, MAX_STAMP_SIDE};
use crate::text::{decimal, decimal_string};
use crate::ui::Tab;

verus! {

/// The workspace format this library reads and writes.
pub const WORKSPACE_VERSION: u32 = 1;

/// The largest saved matcap image side, in pixels.
pub const MAX_MATCAP_SIDE: u32 = 1024;

/// Why a saved workspace was refused.
#[derive(Clone, Copy, PartialEq, Eq, Debug, Structural)]
pub enum WorkspaceError {
    /// Written in a format this library does not read; the format it was.
    UnsupportedVersion(u32),
    /// A saved stamp is empty, too large, or has the wrong number of values.
    InvalidAlpha,
    /// The saved matcap image is empty, too large, or has the wrong number
    /// of bytes.
    InvalidMatcap,
}

/// The message shown for each refusal.
pub open spec fn workspace_error_text(e: WorkspaceError) -> Seq<char> {
    match e {
        WorkspaceError::UnsupportedVersion(v) => "unsupported workspace version "@ + decimal(v as nat),
        WorkspaceError::InvalidAlpha => "invalid saved alpha dimensions"@,
        WorkspaceError::InvalidMatcap => "invalid saved matcap dimensions"@,
    }
}

impl WorkspaceError {
    /// The message shown for this refusal.
    pub fn message(self) -> (r: String)
        ensures
            r@ == workspace_error_text(self),
    {
        match self {
            WorkspaceError::UnsupportedVersion(v) => String::from_str("unsupported workspace version ").concat(
                decimal_string(v as u128).as_str(),
            ),
            WorkspaceError::InvalidAlpha => String::from_str("invalid saved alpha dimensions"),
            WorkspaceError::InvalidMatcap => String::from_str("invalid saved matcap dimensions"),
        }
    }
}

/// Whether a saved stamp has usable dimensions: both sides between one and
/// the limit, and one value per cell.
pub open spec fn stamp_fits(s: StampModel) -> bool {
    &&& 1 <= s.width <= MAX_STAMP_SIDE
    &&& 1 <= s.height <= MAX_STAMP_SIDE
    &&& s.data.len() == s.width * s.height
}

/// Whether a saved matcap image, given as its side and its byte count, is
/// usable: a side between one and the limit, and four bytes per pixel.
pub open spec fn matcap_fits(side: u32, bytes: nat) -> bool {
    1 <= side <= MAX_MATCAP_SIDE && bytes == side * side * 4
}

/// What checking a saved workspace finds: the format first, then the
/// stamps, then the matcap image.
pub open spec fn workspace_verdict(version: u32, stamps: Seq<Stamp>, matcap: Option<(u32, usize)>) -> Result<(), WorkspaceError> {
    if version != WORKSPACE_VERSION {
        Err(WorkspaceError::UnsupportedVersion(version))
    } else if exists|i: int| 0 <= i < stamps.len() && !stamp_fits(#[trigger] stamps[i]@) {
        Err(WorkspaceError::InvalidAlpha)
    } else if matcap matches Some((side, bytes)) && !matcap_fits(side, bytes as nat) {
        Err(WorkspaceError::InvalidMatcap)
    } else {
        Ok(())
    }
}

/// Checks one saved stamp's dimensions.
fn stamp_dimensions_ok(s: &Stamp) -> (r: bool)
    ensures
        r == stamp_fits(s@),
{
    if s.width == 0 || s.height == 0 || s.width > MAX_STAMP_SIDE || s.height > MAX_STAMP_SIDE {
        return false;
    }
    assert(s.width as u64 * s.height as u64 <= 2048 * 2048) by (nonlinear_arith)
        requires
            s.width <= 2048,
            s.height <= 2048,
    ;
    s.data.len() as u64 == s.width as u64 * s.height as u64
}

/// Checks a saved workspace before anything in it is applied, so that a
/// damaged file changes neither the live library nor what the GPU is given.
pub fn check_workspace(version: u32, stamps: &Vec<Stamp>, matcap: Option<(u32, usize)>) -> (r: Result<(), WorkspaceError>)
    ensures
        r == workspace_verdict(version, stamps@, matcap),
{
    if version != WORKSPACE_VERSION {
        return Err(WorkspaceError::UnsupportedVersion(version));
    }
    let mut i: usize = 0;
    while i < stamps.len()
        invariant
            version == WORKSPACE_VERSION,
            i <= stamps@.len(),
            forall|j: int| 0 <= j < i ==> stamp_fits(#[trigger] stamps@[j]@),
        decreases stamps@.len() - i,
    {
        if !stamp_dimensions_ok(&stamps[i]) {
            assert(!stamp_fits(stamps@[i as int]@));
            return Err(WorkspaceError::InvalidAlpha);
        }
        i = i + 1;
    }
    if let Some((side, bytes)) = matcap {
        if side == 0 || side > MAX_MATCAP_SIDE {
            return Err(WorkspaceError::InvalidMatcap);
        }
        assert(side as u64 * side as u64 * 4 <= 1024 * 1024 * 4) by (nonlinear_arith)
            requires
                side <= 1024,
        ;
        if bytes as u64 != side as u64 * side as u64 * 4 {
            return Err(WorkspaceError::InvalidMatcap);
        }
    }
    Ok(())
}

/// A list with each entry kept only where it first appears.
pub open spec fn first_occurrences(v: Seq<Tab>) -> Seq<Tab>
    decreases v.len(),
{
    if v.len() == 0 {
        v
    } else {
        let before = first_occurrences(v.drop_last());
        if before.contains(v.last()) {
            before
        } else {
            before.push(v.last())
        }
    }
}

/// Restores the floating tabs: a tab listed twice floats once, in the place
/// it was first listed.
pub fn unique_tabs(tabs: &Vec<Tab>) -> (r: Vec<Tab>)
    ensures
        r@ == first_occurrences(tabs@),
{
    let mut r: Vec<Tab> = Vec::new();
    let mut i: usize = 0;
    while i < tabs.len()
        invariant
            i <= tabs@.len(),
            r@ == first_occurrences(tabs@.take(i as int)),
        decreases tabs@.len() - i,
    {
        let t = tabs[i];
        proof {
            assert(tabs@.take(i + 1).drop_last() =~= tabs@.take(i as int));
            assert(tabs@.take(i + 1).last() == t);
        }
        let mut seen = false;
        let mut j: usize = 0;
        while j < r.len()
            invariant
                j <= r@.len(),
                seen == (exists|k: int| 0 <= k < j && r@[k] == t),
            decreases r@.len() - j,
        {
            if r[j] == t {
                seen = true;
            }
            j = j + 1;
        }
        if !seen {
            r.push(t);
        }
        i = i + 1;
    }
    proof {
        assert(tabs@.take(i as int) =~= tabs@);
    }
    r
}

/// Restoring floating tabs leaves no tab twice, loses none, and gives back a
/// list that had no repeats exactly as it was saved.
pub proof fn restored_tabs_are_distinct(v: Seq<Tab>)
    ensures
        first_occurrences(v).no_duplicates(),
        forall|t: Tab| first_occurrences(v).contains(t) <==> v.contains(t),
        v.no_duplicates() ==> first_occurrences(v) == v,
    decreases v.len(),
{
    if v.len() > 0 {
        let d = v.drop_last();
        restored_tabs_are_distinct(d);
        let before = first_occurrences(d);
        let x = v.last();
        let after = first_occurrences(v);
        assert forall|t: Tab| after.contains(t) <==> v.contains(t) by {
            if after.contains(t) {
                let k = choose|k: int| 0 <= k < after.len() && after[k] == t;
                if k < before.len() {
                    assert(before[k] == t);
                    assert(before.contains(t));
                    assert(d.contains(t));
                    let i = choose|i: int| 0 <= i < d.len() && d[i] == t;
                    assert(v[i] == t);
                } else {
                    assert(t == x);
                    assert(v[v.len() - 1] == t);
                }
            }
            if v.contains(t) {
                if t == x {
                    if before.contains(x) {
                        assert(after == before);
                    } else {
                        assert(after[before.len() as int] == x);
                    }
                } else {
                    let i = choose|i: int| 0 <= i < v.len() && v[i] == t;
                    assert(i < d.len());
                    assert(d[i] == t);
                    assert(d.contains(t));
                    assert(before.contains(t));
                    let k = choose|k: int| 0 <= k < before.len() && before[k] == t;
                    assert(after[k] == t);
                }
            }
        }
        if !before.contains(x) {
            let pushed = before.push(x);
            assert forall|i: int, j: int| 0 <= i < pushed.len() && 0 <= j < pushed.len() && i != j implies pushed[i]
                != pushed[j] by {
                if i == before.len() {
                    assert(before[j] == pushed[j]);
                } else if j == before.len() {
                    assert(before[i] == pushed[i]);
                }
            }
        }
        if v.no_duplicates() {
            assert(d.no_duplicates()) by {
                assert forall|i: int, j: int| 0 <= i < d.len() && 0 <= j < d.len() && i != j implies d[i]
                    != d[j] by {
                    assert(v[i] == d[i] && v[j] == d[j]);
                }
            }
            assert(!d.contains(x)) by {
                if d.contains(x) {
                    let i = choose|i: int| 0 <= i < d.len() && d[i] == x;
                    assert(v[i] == v[v.len() - 1]);
                }
            }
            assert(v =~= d.push(x));
        }
    }
}

/// A saved workspace of this format with no matcap is restored whenever
/// every stamp has sides between one and the limit (square or not) and one
/// value per cell, and refused for its stamps as soon as one stamp's value
/// count is not its width times its height.
pub proof fn well_sized_stamps_are_restored(stamps: Seq<Stamp>)
    ensures
        (forall|i: int|
            0 <= i < stamps.len() ==> {
                let s = #[trigger] stamps[i]@;
                &&& 1 <= s.width <= MAX_STAMP_SIDE
                &&& 1 <= s.height <= MAX_STAMP_SIDE
                &&& s.data.len() == s.width * s.height
            }) ==> workspace_verdict(WORKSPACE_VERSION, stamps, None) == Ok::<(), WorkspaceError>(()),
        (exists|i: int| 0 <= i < stamps.len() && (#[trigger] stamps[i]@).data.len() != stamps[i]@.width * stamps[i]@.height)
            ==> workspace_verdict(WORKSPACE_VERSION, stamps, None) == Err::<(), WorkspaceError>(WorkspaceError::InvalidAlpha),
{
}

/// A workspace in another format is refused for its format before anything
/// else is looked at. With well-sized stamps, a saved matcap image is taken
/// exactly when its side is between one and the limit and it holds four
/// bytes for each pixel of that square.
pub proof fn formats_and_matcaps_are_checked(version: u32, stamps: Seq<Stamp>, side: u32, bytes: usize)
    ensures
        version != WORKSPACE_VERSION ==> workspace_verdict(version, stamps, Some((side, bytes))) == Err::<
            (),
            WorkspaceError,
        >(WorkspaceError::UnsupportedVersion(version)),
        version != WORKSPACE_VERSION ==> workspace_verdict(version, stamps, None) == Err::<(), WorkspaceError>(
            WorkspaceError::UnsupportedVersion(version),
        ),
        (forall|i: int|
            0 <= i < stamps.len() ==> {
                let s = #[trigger] stamps[i]@;
                &&& 1 <= s.width <= MAX_STAMP_SIDE
                &&& 1 <= s.height <= MAX_STAMP_SIDE
                &&& s.data.len() == s.width * s.height
            }) ==> workspace_verdict(WORKSPACE_VERSION, stamps, Some((side, bytes))) == (if 1 <= side <= 1024
            && bytes == side * side * 4 {
            Ok::<(), WorkspaceError>(())
        } else {
            Err(WorkspaceError::InvalidMatcap)
        }),
{
}

} // verus!
