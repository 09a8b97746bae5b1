//! Portable brush packs carry the actual stamp data, not external paths.
//!
//! Saving gathers the stamps the brushes use and renumbers the brushes to
//! point into that list. Loading checks the stamps, adopts each one into the
//! library (reusing an identical stamp already there, and naming a new one so
//! it collides with nothing), and renumbers the brushes to point into the
//! library.

use vstd::prelude::*;
use vstd::set_lib::lemma_len_subset;
use crate::renderer::{prune, strictly_ascending};
use crate::text::{decimal, decimal_injective, decimal_length, decimal_string};

verus! {

broadcast use vstd::seq_lib::seq_to_set_is_finite;

/// The text of each name.
pub open spec fn texts(v: Seq<String>) -> Seq<Seq<char>> {
    v.map_values(|s: String| s@)
}

/// The name a pack gives its i-th stamp inside its brush list.
pub open spec fn stamp_label(i: nat) -> Seq<char> {
    "stamp"@ + decimal(i)
}

/// The name a pack gives its i-th stamp inside its brush list.
pub fn stamp_name(i: usize) -> (r: String)
    ensures
        r@ == stamp_label(i as nat),
{
    String::from_str("stamp").concat(decimal_string(i as u128).as_str())
}

/// A stamp name on one line: line breaks become spaces.
pub open spec fn one_line(name: Seq<char>) -> Seq<char> {
    name.map_values(|c: char| if c == '\n' || c == '\r' { ' ' } else { c })
}

/// Puts a stamp name on one line.
pub fn single_line(name: &str) -> (r: String)
    ensures
        r@ == one_line(name@),
{
    let n = name.unicode_len();
    let mut out = String::new();
    let mut start: usize = 0;
    let mut i: usize = 0;
    while i < n
        invariant
            n == name@.len(),
            start <= i <= n,
            out@ == one_line(name@.take(start as int)),
            forall|j: int| start <= j < i ==> name@[j] != '\n' && name@[j] != '\r',
        decreases n - i,
    {
        let c = name.get_char(i);
        if c == '\n' || c == '\r' {
            let chunk = name.substring_char(start, i);
            let ghost before = out@;
            out = out.concat(chunk).concat(" ");
            proof {
                reveal_strlit(" ");
                assert(one_line(name@.take(i + 1)) =~= before + chunk@ + " "@);
            }
            start = i + 1;
        }
        i = i + 1;
    }
    let chunk = name.substring_char(start, n);
    let ghost before = out@;
    out = out.concat(chunk);
    proof {
        assert(one_line(name@.take(n as int)) =~= before + chunk@);
        assert(name@.take(n as int) =~= name@);
    }
    out
}

/// The k-th name tried for a stamp: the name itself first, then the name
/// with a number in brackets, starting at two.
pub open spec fn candidate(base: Seq<char>, k: nat) -> Seq<char> {
    if k <= 1 {
        base
    } else {
        base + " ("@ + decimal(k) + ")"@
    }
}

/// Whether the k-th candidate is the first one nobody has taken.
pub open spec fn first_free(base: Seq<char>, taken: Seq<Seq<char>>, k: nat) -> bool {
    &&& k >= 1
    &&& !taken.contains(candidate(base, k))
    &&& forall|j: nat| 1 <= j < k ==> taken.contains(#[trigger] candidate(base, j))
}

/// The first candidate nobody has taken.
pub open spec fn free_name(base: Seq<char>, taken: Seq<Seq<char>>) -> Seq<char> {
    candidate(base, choose|k: nat| first_free(base, taken, k))
}

/// Different candidates are different names.
pub proof fn candidate_injective(base: Seq<char>, j: nat, k: nat)
    requires
        1 <= j,
        1 <= k,
        candidate(base, j) == candidate(base, k),
    ensures
        j == k,
{
    reveal_strlit(" (");
    reveal_strlit(")");
    decimal_length(j);
    decimal_length(k);
    if j >= 2 && k >= 2 {
        let (cj, ck) = (candidate(base, j), candidate(base, k));
        let from = base.len() + 2;
        assert(cj.subrange(from as int, cj.len() - 1) =~= decimal(j));
        assert(ck.subrange(from as int, ck.len() - 1) =~= decimal(k));
        decimal_injective(j, k);
    } else if j >= 2 || k >= 2 {
        assert(candidate(base, j).len() != candidate(base, k).len());
    }
}

/// Only one candidate is the first free one.
pub proof fn first_free_unique(base: Seq<char>, taken: Seq<Seq<char>>, j: nat, k: nat)
    requires
        first_free(base, taken, j),
        first_free(base, taken, k),
    ensures
        j == k,
{
    if j < k {
        assert(taken.contains(candidate(base, j)));
    }
    if k < j {
        assert(taken.contains(candidate(base, k)));
    }
}

/// A list of distinct names all drawn from a pool is no longer than the pool.
proof fn distinct_within(tried: Seq<Seq<char>>, pool: Seq<Seq<char>>)
    requires
        tried.no_duplicates(),
        forall|i: int| 0 <= i < tried.len() ==> pool.contains(#[trigger] tried[i]),
    ensures
        tried.len() <= pool.len(),
{
    tried.unique_seq_to_set();
    pool.lemma_cardinality_of_set();
    assert(tried.to_set().subset_of(pool.to_set())) by {
        assert forall|x: Seq<char>| tried.to_set().contains(x) implies pool.to_set().contains(x) by {
            let i = choose|i: int| 0 <= i < tried.len() && tried[i] == x;
            assert(pool.contains(tried[i]));
        }
    }
    lemma_len_subset(tried.to_set(), pool.to_set());
}

/// Whether one of the names is exactly this one.
fn name_taken(taken: &Vec<String>, name: &String) -> (r: bool)
    ensures
        r == texts(taken@).contains(name@),
{
    let mut i: usize = 0;
    while i < taken.len()
        invariant
            i <= taken@.len(),
            forall|j: int| 0 <= j < i ==> taken@[j]@ != name@,
        decreases taken@.len() - i,
    {
        if taken[i] == *name {
            proof {
                assert(texts(taken@)[i as int] == name@);
            }
            return true;
        }
        i = i + 1;
    }
    proof {
        if texts(taken@).contains(name@) {
            let j = choose|j: int| 0 <= j < texts(taken@).len() && texts(taken@)[j] == name@;
            assert(taken@[j]@ == name@);
        }
    }
    false
}

/// The name itself when it is free, otherwise the first numbered variant
/// that is: `Stone`, then `Stone (2)`, `Stone (3)` and on.
pub fn unique_name(base: &str, taken: &Vec<String>) -> (r: String)
    ensures
        r@ == free_name(base@, texts(taken@)),
        !texts(taken@).contains(r@),
{
    let ghost pool = texts(taken@);
    let total = taken.len();
    let mut k: u128 = 1;
    let mut name = String::from_str(base);
    while name_taken(taken, &name)
        invariant
            pool == texts(taken@),
            total == taken@.len(),
            1 <= k <= taken@.len() + 1,
            name@ == candidate(base@, k as nat),
            forall|j: nat| 1 <= j < k ==> pool.contains(#[trigger] candidate(base@, j)),
        decreases taken@.len() + 1 - k,
    {
        proof {
            // Every candidate up to this one is taken, and they are all
            // different, so there cannot be more of them than names.
            let tried = Seq::new(k as nat, |i: int| candidate(base@, (i + 1) as nat));
            assert forall|a: int, b: int| 0 <= a < tried.len() && 0 <= b < tried.len() && a != b implies tried[a] != tried[b] by {
                if tried[a] == tried[b] {
                    candidate_injective(base@, (a + 1) as nat, (b + 1) as nat);
                }
            }
            assert forall|i: int| 0 <= i < tried.len() implies pool.contains(#[trigger] tried[i]) by {
                if i + 1 < k {
                    assert(pool.contains(candidate(base@, (i + 1) as nat)));
                }
            }
            distinct_within(tried, pool);
            assert(k <= taken@.len());
        }
        k = k + 1;
        name = String::from_str(base).concat(" (").concat(decimal_string(k).as_str()).concat(")");
    }
    proof {
        assert(first_free(base@, pool, k as nat));
        let c = choose|c: nat| first_free(base@, pool, c);
        first_free_unique(base@, pool, c, k as nat);
    }
    name
}


/// A brush stamp: a named grid of coverage values, row by row.
///
/// Each value is held as the bit pattern of a single-precision float, with
/// negative zero written as zero, so two finite grids hold equal values
/// exactly when they hold equal bit patterns.
pub struct Stamp {
    pub name: String,
    pub width: u32,
    pub height: u32,
    pub data: Vec<u32>,
}

/// What a stamp holds, as values.
pub struct StampModel {
    pub name: Seq<char>,
    pub width: u32,
    pub height: u32,
    pub data: Seq<u32>,
}

impl View for Stamp {
    type V = StampModel;

    open spec fn view(&self) -> StampModel {
        StampModel { name: self.name@, width: self.width, height: self.height, data: self.data@ }
    }
}

/// The stamps of a list, as values.
pub open spec fn models(v: Seq<Stamp>) -> Seq<StampModel> {
    v.map_values(|s: Stamp| s@)
}

/// The names of a library's stamps.
pub open spec fn names(lib: Seq<StampModel>) -> Seq<Seq<char>> {
    lib.map_values(|s: StampModel| s.name)
}

/// Two stamps are interchangeable when their grids agree, whatever their names.
pub open spec fn same_pixels(a: StampModel, b: StampModel) -> bool {
    a.width == b.width && a.height == b.height && a.data == b.data
}

/// The first stamp of the library with the same grid, or -1 when there is none.
pub open spec fn first_same(lib: Seq<StampModel>, s: StampModel) -> int
    decreases lib.len(),
{
    if lib.len() == 0 {
        -1
    } else {
        let r = first_same(lib.drop_last(), s);
        if r >= 0 {
            r
        } else if same_pixels(lib.last(), s) {
            lib.len() - 1
        } else {
            -1
        }
    }
}

/// Adopting one stamp: an identical stamp already in the library stands in
/// for it; otherwise it joins the library under a name on one line that no
/// stamp there has. The number is where the stamp can now be found.
pub open spec fn adopt_one(lib: Seq<StampModel>, s: StampModel) -> (Seq<StampModel>, int) {
    let found = first_same(lib, s);
    if found >= 0 {
        (lib, found)
    } else {
        (
            lib.push(
                StampModel {
                    name: free_name(one_line(s.name), names(lib)),
                    width: s.width,
                    height: s.height,
                    data: s.data,
                },
            ),
            lib.len() as int,
        )
    }
}

/// Adopting a pack's stamps in order: the library afterwards, and for each
/// stamp of the pack where it can be found there.
pub open spec fn adopt_all(lib: Seq<StampModel>, stamps: Seq<StampModel>) -> (Seq<StampModel>, Seq<int>)
    decreases stamps.len(),
{
    if stamps.len() == 0 {
        (lib, Seq::empty())
    } else {
        let before = adopt_all(lib, stamps.drop_last());
        let step = adopt_one(before.0, stamps.last());
        (step.0, before.1.push(step.1))
    }
}

/// Stamp numbers as integers.
pub open spec fn indices(r: Seq<u32>) -> Seq<int> {
    r.map_values(|x: u32| x as int)
}

/// What `first_same` finds: either no stamp has the grid, or the one it
/// names has it and none before it does.
pub proof fn first_same_found(lib: Seq<StampModel>, s: StampModel)
    ensures
        ({
            let r = first_same(lib, s);
            ||| r == -1 && forall|j: int| 0 <= j < lib.len() ==> !same_pixels(#[trigger] lib[j], s)
            ||| 0 <= r < lib.len() && same_pixels(lib[r], s) && forall|j: int|
                0 <= j < r ==> !same_pixels(#[trigger] lib[j], s)
        }),
    decreases lib.len(),
{
    if lib.len() > 0 {
        let d = lib.drop_last();
        first_same_found(d, s);
        let r = first_same(d, s);
        if r >= 0 {
            assert(lib[r] == d[r]);
            assert forall|j: int| 0 <= j < r implies !same_pixels(#[trigger] lib[j], s) by {
                assert(lib[j] == d[j]);
            }
        } else {
            assert forall|j: int| 0 <= j < lib.len() - 1 implies !same_pixels(#[trigger] lib[j], s) by {
                assert(lib[j] == d[j]);
            }
        }
    }
}

/// A stamp found in the first part of a library is found at the same place
/// in the whole of it.
pub proof fn first_same_prefix(lib: Seq<StampModel>, n: int, s: StampModel)
    requires
        0 <= n <= lib.len(),
        first_same(lib.take(n), s) >= 0,
    ensures
        first_same(lib, s) == first_same(lib.take(n), s),
    decreases lib.len(),
{
    if n == lib.len() {
        assert(lib.take(n) =~= lib);
    } else {
        assert(lib.drop_last().take(n) =~= lib.take(n));
        first_same_prefix(lib.drop_last(), n, s);
    }
}

/// Adopting only the first stamps of a pack gives the start of what adopting
/// all of them gives.
pub proof fn adopt_all_prefix(lib: Seq<StampModel>, stamps: Seq<StampModel>, k: int)
    requires
        0 <= k <= stamps.len(),
    ensures
        ({
            let part = adopt_all(lib, stamps.take(k));
            let whole = adopt_all(lib, stamps);
            &&& lib.len() <= part.0.len() <= whole.0.len()
            &&& whole.0.take(part.0.len() as int) == part.0
            &&& part.1.len() == k
            &&& whole.1.len() == stamps.len()
            &&& whole.1.take(k) == part.1
        }),
    decreases stamps.len(),
{
    if k == stamps.len() {
        assert(stamps.take(k) =~= stamps);
        adopt_all_grows(lib, stamps);
    } else {
        assert(stamps.drop_last().take(k) =~= stamps.take(k));
        adopt_all_prefix(lib, stamps.drop_last(), k);
        let part = adopt_all(lib, stamps.take(k));
        let before = adopt_all(lib, stamps.drop_last());
        let whole = adopt_all(lib, stamps);
        assert(whole.0.take(part.0.len() as int) =~= before.0.take(part.0.len() as int));
        assert(whole.1.take(k) =~= before.1.take(k));
    }
}

/// Adopting keeps the library's stamps where they were and gives one number
/// per stamp of the pack.
pub proof fn adopt_all_grows(lib: Seq<StampModel>, stamps: Seq<StampModel>)
    ensures
        adopt_all(lib, stamps).0.len() >= lib.len(),
        adopt_all(lib, stamps).0.len() <= lib.len() + stamps.len(),
        adopt_all(lib, stamps).0.take(lib.len() as int) == lib,
        adopt_all(lib, stamps).1.len() == stamps.len(),
    decreases stamps.len(),
{
    if stamps.len() == 0 {
        assert(lib.take(lib.len() as int) =~= lib);
    } else {
        adopt_all_grows(lib, stamps.drop_last());
        let before = adopt_all(lib, stamps.drop_last());
        let whole = adopt_all(lib, stamps);
        assert(whole.0.take(lib.len() as int) =~= before.0.take(lib.len() as int));
    }
}

/// After adopting a pack, each of its stamps is found, in the library as it
/// then stands, exactly where the adoption said it would be.
pub proof fn adopt_all_finds(lib: Seq<StampModel>, stamps: Seq<StampModel>, k: int)
    requires
        0 <= k < stamps.len(),
    ensures
        adopt_all(lib, stamps).1[k] >= 0,
        first_same(adopt_all(lib, stamps).0, stamps[k]) == adopt_all(lib, stamps).1[k],
{
    let whole = adopt_all(lib, stamps);
    let s = stamps[k];
    adopt_all_prefix(lib, stamps, k);
    adopt_all_prefix(lib, stamps, k + 1);
    let part = adopt_all(lib, stamps.take(k));
    let next = adopt_all(lib, stamps.take(k + 1));
    assert(stamps.take(k + 1).drop_last() =~= stamps.take(k));
    assert(stamps.take(k + 1).last() == s);
    assert(next.1[k] == whole.1[k]) by {
        assert(whole.1.take(k + 1)[k] == whole.1[k]);
    }
    if first_same(part.0, s) < 0 {
        let grown = next.0;
        assert(grown.drop_last() =~= part.0);
        assert(same_pixels(grown.last(), s));
    }
    assert(first_same(next.0, s) == next.1[k]);
    first_same_prefix(whole.0, next.0.len() as int, s);
}

/// Loading the same stamps a second time adds nothing to the library, and
/// every stamp is found where the first loading put it.
pub proof fn adopting_twice_adds_nothing(lib: Seq<StampModel>, stamps: Seq<StampModel>)
    ensures
        adopt_all(adopt_all(lib, stamps).0, stamps) == adopt_all(lib, stamps),
{
    let first = adopt_all(lib, stamps);
    adopt_all_grows(lib, stamps);
    assert forall|k: int| 0 <= k <= stamps.len() implies #[trigger] adopt_all(first.0, stamps.take(k)) == (
    first.0, first.1.take(k)) by {
        again_prefix(lib, stamps, k);
    }
    assert(stamps.take(stamps.len() as int) =~= stamps);
    assert(first.1.take(stamps.len() as int) =~= first.1);
    assert(adopt_all(first.0, stamps.take(stamps.len() as int)) == (first.0, first.1.take(
        stamps.len() as int,
    )));
}

/// Adopting the first stamps of a pack again, into the library that adopting
/// the whole pack produced, changes nothing.
proof fn again_prefix(lib: Seq<StampModel>, stamps: Seq<StampModel>, k: int)
    requires
        0 <= k <= stamps.len(),
    ensures
        adopt_all(adopt_all(lib, stamps).0, stamps.take(k)) == (
            adopt_all(lib, stamps).0,
            adopt_all(lib, stamps).1.take(k),
        ),
    decreases k,
{
    let first = adopt_all(lib, stamps);
    adopt_all_grows(lib, stamps);
    if k == 0 {
        assert(first.1.take(0) =~= Seq::<int>::empty());
    } else {
        again_prefix(lib, stamps, k - 1);
        assert(stamps.take(k).drop_last() =~= stamps.take(k - 1));
        adopt_all_finds(lib, stamps, k - 1);
        assert(first.1.take(k) =~= first.1.take(k - 1).push(first.1[k - 1]));
    }
}


/// Whether two grids hold the same values.
fn same_data(a: &Vec<u32>, b: &Vec<u32>) -> (r: bool)
    ensures
        r == (a@ == b@),
{
    if a.len() != b.len() {
        return false;
    }
    let mut i: usize = 0;
    while i < a.len()
        invariant
            a@.len() == b@.len(),
            i <= a@.len(),
            forall|j: int| 0 <= j < i ==> a@[j] == b@[j],
        decreases a@.len() - i,
    {
        if a[i] != b[i] {
            return false;
        }
        i = i + 1;
    }
    assert(a@ =~= b@);
    true
}

/// Whether two stamps have the same grid.
fn same_stamp(a: &Stamp, b: &Stamp) -> (r: bool)
    ensures
        r == same_pixels(a@, b@),
{
    a.width == b.width && a.height == b.height && same_data(&a.data, &b.data)
}

/// Where the library first holds a stamp with this grid.
fn find_same(library: &Vec<Stamp>, s: &Stamp) -> (r: Option<usize>)
    ensures
        match r {
            Some(i) => i as int == first_same(models(library@), s@),
            None => first_same(models(library@), s@) == -1,
        },
{
    let ghost lib = models(library@);
    let mut i: usize = 0;
    while i < library.len()
        invariant
            lib == models(library@),
            i <= library@.len(),
            first_same(lib.take(i as int), s@) == -1,
        decreases library@.len() - i,
    {
        proof {
            assert(lib.take(i + 1).drop_last() =~= lib.take(i as int));
            assert(lib.take(i + 1).last() == library@[i as int]@);
        }
        if same_stamp(&library[i], s) {
            proof {
                first_same_prefix(lib, i + 1, s@);
            }
            return Some(i);
        }
        i = i + 1;
    }
    proof {
        assert(lib.take(i as int) =~= lib);
    }
    None
}

/// The names of the library's stamps.
fn names_of(library: &Vec<Stamp>) -> (r: Vec<String>)
    ensures
        texts(r@) == names(models(library@)),
{
    let mut r: Vec<String> = Vec::new();
    let mut i: usize = 0;
    while i < library.len()
        invariant
            i <= library@.len(),
            texts(r@) == names(models(library@)).take(i as int),
        decreases library@.len() - i,
    {
        let name = library[i].name.clone();
        let ghost before = r@;
        r.push(name);
        proof {
            assert(texts(r@) =~= texts(before).push(name@));
            assert(names(models(library@)).take(i + 1) =~= names(models(library@)).take(
                i as int,
            ).push(library@[i as int].name@));
        }
        i = i + 1;
    }
    proof {
        assert(names(models(library@)).take(i as int) =~= names(models(library@)));
    }
    r
}

/// Adopts a pack's stamps into the library, in order, and says for each where
/// it can now be found.
///
/// A stamp whose grid the library already holds is not added again; the
/// first such stamp stands in for it. Any other stamp joins the end of the
/// library under its name put on one line and, where another stamp already
/// has that name, numbered `Name (2)`, `Name (3)` and on until it is free.
/// Stamp numbers are 32-bit, so the library must stay within that range.
pub fn adopt_stamps(library: &mut Vec<Stamp>, stamps: Vec<Stamp>) -> (remap: Vec<u32>)
    requires
        old(library)@.len() + stamps@.len() <= u32::MAX,
    ensures
        models(final(library)@) == adopt_all(models(old(library)@), models(stamps@)).0,
        indices(remap@) == adopt_all(models(old(library)@), models(stamps@)).1,
{
    let ghost lib0 = models(library@);
    let ghost all = models(stamps@);
    let n = stamps.len();
    let mut stamps = stamps;
    let mut remap: Vec<u32> = Vec::new();
    let mut k: usize = 0;
    proof {
        assert(all.take(0) =~= Seq::<StampModel>::empty());
        assert(indices(remap@) =~= Seq::<int>::empty());
        assert(all.skip(0) =~= all);
    }
    while k < n
        invariant
            n == all.len(),
            k <= n,
            lib0.len() + n <= u32::MAX,
            models(stamps@) == all.skip(k as int),
            models(library@) == adopt_all(lib0, all.take(k as int)).0,
            indices(remap@) == adopt_all(lib0, all.take(k as int)).1,
        decreases n - k,
    {
        proof {
            assert(all.skip(k as int).len() == n - k);
            assert(all.take(k + 1).drop_last() =~= all.take(k as int));
            assert(all.take(k + 1).last() == all[k as int]);
            assert(all.skip(k as int)[0] == all[k as int]);
            assert(all.skip(k as int).drop_first() =~= all.skip(k + 1));
            adopt_all_grows(lib0, all.take(k as int));
        }
        let ghost before_lib = models(library@);
        let ghost before_remap = remap@;
        let s = stamps.remove(0);
        proof {
            assert(models(stamps@) =~= all.skip(k + 1));
        }
        match find_same(library, &s) {
            Some(i) => {
                proof {
                    first_same_found(before_lib, s@);
                }
                remap.push(i as u32);
                proof {
                    assert(indices(remap@) =~= indices(before_remap).push(i as int));
                }
            },
            None => {
                let taken = names_of(library);
                let base = single_line(s.name.as_str());
                let name = unique_name(base.as_str(), &taken);
                let at = library.len() as u32;
                let ghost added = StampModel {
                    name: name@,
                    width: s.width,
                    height: s.height,
                    data: s.data@,
                };
                library.push(Stamp { name, width: s.width, height: s.height, data: s.data });
                remap.push(at);
                proof {
                    assert(models(library@) =~= before_lib.push(added));
                    assert(indices(remap@) =~= indices(before_remap).push(before_lib.len() as int));
                }
            },
        }
        k = k + 1;
    }
    proof {
        assert(all.take(n as int) =~= all);
    }
    remap
}


/// The pack format this library reads and writes.
pub const PACK_VERSION: u32 = 1;

/// The widest and tallest stamp a pack may carry.
pub const MAX_STAMP_SIDE: u32 = 2048;

/// Why a pack was refused.
#[derive(Clone, Copy, Debug, PartialEq, Eq, Structural)]
pub enum PackError {
    /// The pack was written in a format this library does not read.
    UnsupportedVersion,
    /// A stamp is empty, too large, has the wrong number of values, or holds
    /// a value that is not a finite number.
    InvalidStamp,
}

/// The message shown for each refusal.
pub open spec fn pack_error_text(e: PackError) -> Seq<char> {
    match e {
        PackError::UnsupportedVersion => "unsupported brush pack version"@,
        PackError::InvalidStamp => "invalid brush stamp"@,
    }
}

impl PackError {
    /// The message shown for this refusal.
    pub fn message(self) -> (r: &'static str)
        ensures
            r@ == pack_error_text(self),
    {
        match self {
            PackError::UnsupportedVersion => "unsupported brush pack version",
            PackError::InvalidStamp => "invalid brush stamp",
        }
    }
}

/// Whether a single-precision bit pattern is a finite number: its exponent
/// field is not all ones.
pub open spec fn finite_bits(b: u32) -> bool {
    (b >> 23u32) & 0xffu32 != 0xffu32
}

/// Whether a stamp may be adopted: both sides between one and the limit,
/// one value per cell, and every value finite.
pub open spec fn stamp_valid(s: StampModel) -> bool {
    &&& 1 <= s.width <= MAX_STAMP_SIDE
    &&& 1 <= s.height <= MAX_STAMP_SIDE
    &&& s.data.len() == s.width * s.height
    &&& forall|i: int| 0 <= i < s.data.len() ==> finite_bits(#[trigger] s.data[i])
}

/// Checks one stamp.
pub fn stamp_ok(s: &Stamp) -> (r: bool)
    ensures
        r == stamp_valid(s@),
{
    if s.width == 0 || s.height == 0 || s.width > MAX_STAMP_SIDE || s.height > MAX_STAMP_SIDE {
        return false;
    }
    assert(s.width as u64 * s.height as u64 <= 2048 * 2048) by (nonlinear_arith)
        requires
            s.width <= 2048,
            s.height <= 2048,
    ;
    let cells = s.width as u64 * s.height as u64;
    if s.data.len() as u64 != cells {
        return false;
    }
    let mut i: usize = 0;
    while i < s.data.len()
        invariant
            i <= s.data@.len(),
            forall|j: int| 0 <= j < i ==> finite_bits(#[trigger] s.data@[j]),
        decreases s.data@.len() - i,
    {
        let b = s.data[i];
        if (b >> 23u32) & 0xffu32 == 0xffu32 {
            return false;
        }
        i = i + 1;
    }
    true
}

/// Checks a pack before anything is taken from it: first its format, then
/// each of its stamps.
pub fn check_pack(version: u32, stamps: &Vec<Stamp>) -> (r: Result<(), PackError>)
    ensures
        version != PACK_VERSION ==> r == Err::<(), PackError>(PackError::UnsupportedVersion),
        version == PACK_VERSION ==> (r is Ok <==> forall|i: int|
            0 <= i < stamps@.len() ==> stamp_valid(#[trigger] stamps@[i]@)),
        version == PACK_VERSION && r is Err ==> r == Err::<(), PackError>(PackError::InvalidStamp),
{
    if version != PACK_VERSION {
        return Err(PackError::UnsupportedVersion);
    }
    let mut i: usize = 0;
    while i < stamps.len()
        invariant
            version == PACK_VERSION,
            i <= stamps@.len(),
            forall|j: int| 0 <= j < i ==> stamp_valid(#[trigger] stamps@[j]@),
        decreases stamps@.len() - i,
    {
        if !stamp_ok(&stamps[i]) {
            return Err(PackError::InvalidStamp);
        }
        i = i + 1;
    }
    Ok(())
}

/// Whether a brush with this stamp number uses this stamp.
pub open spec fn uses(alphas: Seq<Option<u32>>, id: u32) -> bool {
    exists|j: int| 0 <= j < alphas.len() && alphas[j] == Some(id)
}

/// The stamps a pack carries for these brushes: each stamp number that some
/// brush uses and the library has, once, in increasing order.
pub fn used_stamps(alphas: &Vec<Option<u32>>, library_len: usize) -> (ids: Vec<u32>)
    ensures
        strictly_ascending(ids@),
        forall|x: u32| #[trigger] ids@.contains(x) <==> (uses(alphas@, x) && x < library_len),
{
    let mut ids: Vec<u32> = Vec::new();
    let mut i: usize = 0;
    while i < alphas.len()
        invariant
            i <= alphas@.len(),
            forall|x: u32| #[trigger]
                ids@.contains(x) <==> exists|j: int| 0 <= j < i && alphas@[j] == Some(x),
        decreases alphas@.len() - i,
    {
        let ghost before = ids@;
        if let Some(id) = alphas[i] {
            ids.push(id);
            proof {
                assert forall|x: u32| #[trigger]
                    ids@.contains(x) <==> exists|j: int| 0 <= j < i + 1 && alphas@[j] == Some(x) by {
                    if ids@.contains(x) {
                        let k = choose|k: int| 0 <= k < ids@.len() && ids@[k] == x;
                        if k < before.len() {
                            assert(before[k] == x);
                            assert(before.contains(x));
                            let j = choose|j: int| 0 <= j < i && alphas@[j] == Some(x);
                            assert(0 <= j < i + 1 && alphas@[j] == Some(x));
                        } else {
                            assert(alphas@[i as int] == Some(x));
                        }
                    }
                    if exists|j: int| 0 <= j < i + 1 && alphas@[j] == Some(x) {
                        let j = choose|j: int| 0 <= j < i + 1 && alphas@[j] == Some(x);
                        if j < i {
                            assert(before.contains(x));
                            let k = choose|k: int| 0 <= k < before.len() && before[k] == x;
                            assert(ids@[k] == x);
                        } else {
                            assert(ids@[ids@.len() - 1] == x);
                        }
                    }
                }
            }
        } else {
            proof {
                assert forall|x: u32| #[trigger]
                    ids@.contains(x) <==> exists|j: int| 0 <= j < i + 1 && alphas@[j] == Some(x) by {
                    if exists|j: int| 0 <= j < i + 1 && alphas@[j] == Some(x) {
                        let j = choose|j: int| 0 <= j < i + 1 && alphas@[j] == Some(x);
                        assert(j != i);
                    }
                }
            }
        }
        i = i + 1;
    }
    prune(&mut ids, library_len);
    ids
}

/// Where a brush's stamp lands in the pack: its place among the carried
/// stamps, or none when the pack does not carry it.
pub open spec fn pack_slot(ids: Seq<u32>, alpha: Option<u32>) -> Option<u32> {
    match alpha {
        Some(id) => if ids.contains(id) {
            Some(ids.index_of(id) as u32)
        } else {
            None
        },
        None => None,
    }
}

/// Renumbers a brush's stamp for the pack, by a binary search of the
/// carried stamps.
pub fn renumber(alpha: Option<u32>, ids: &Vec<u32>) -> (r: Option<u32>)
    requires
        strictly_ascending(ids@),
        ids@.len() <= u32::MAX,
    ensures
        r == pack_slot(ids@, alpha),
{
    let id = match alpha {
        Some(id) => id,
        None => return None,
    };
    let mut lo: usize = 0;
    let mut hi: usize = ids.len();
    while lo < hi
        invariant
            strictly_ascending(ids@),
            ids@.len() <= u32::MAX,
            alpha == Some(id),
            lo <= hi <= ids@.len(),
            forall|j: int| 0 <= j < lo ==> ids@[j] < id,
            forall|j: int| hi <= j < ids@.len() ==> ids@[j] > id,
        decreases hi - lo,
    {
        let mid = lo + (hi - lo) / 2;
        let v = ids[mid];
        if v == id {
            proof {
                assert(ids@[mid as int] == id);
                assert(ids@.contains(id));
                let k = ids@.index_of(id);
                assert(0 <= k < ids@.len() && ids@[k] == id);
                if k < mid as int {
                    assert(ids@[k] < ids@[mid as int]);
                } else if k > mid as int {
                    assert(ids@[mid as int] < ids@[k]);
                }
                assert(k == mid as int);
            }
            return Some(mid as u32);
        } else if v < id {
            lo = mid + 1;
        } else {
            hi = mid;
        }
    }
    proof {
        if ids@.contains(id) {
            let k = choose|k: int| 0 <= k < ids@.len() && ids@[k] == id;
            assert(ids@[k] == id);
        }
    }
    None
}

/// The stamps a pack carries: the library's stamps with these numbers, in
/// this order.
pub open spec fn packed(source: Seq<StampModel>, ids: Seq<u32>) -> Seq<StampModel> {
    ids.map_values(|id: u32| source[id as int])
}

/// A copy of a grid.
fn copy_data(data: &Vec<u32>) -> (r: Vec<u32>)
    ensures
        r@ == data@,
{
    let mut r: Vec<u32> = Vec::new();
    let mut i: usize = 0;
    while i < data.len()
        invariant
            i <= data@.len(),
            r@ == data@.take(i as int),
        decreases data@.len() - i,
    {
        r.push(data[i]);
        proof {
            assert(data@.take(i + 1) =~= data@.take(i as int).push(data@[i as int]));
        }
        i = i + 1;
    }
    proof {
        assert(data@.take(i as int) =~= data@);
    }
    r
}

/// Copies the library's stamps with these numbers, for a pack.
pub fn stamps_for(ids: &Vec<u32>, library: &Vec<Stamp>) -> (r: Vec<Stamp>)
    requires
        forall|i: int| 0 <= i < ids@.len() ==> (#[trigger] ids@[i]) < library@.len(),
    ensures
        models(r@) == packed(models(library@), ids@),
{
    let mut r: Vec<Stamp> = Vec::new();
    let mut i: usize = 0;
    while i < ids.len()
        invariant
            i <= ids@.len(),
            forall|i: int| 0 <= i < ids@.len() ==> (#[trigger] ids@[i]) < library@.len(),
            models(r@) == packed(models(library@), ids@).take(i as int),
        decreases ids@.len() - i,
    {
        let a = &library[ids[i] as usize];
        let copy = Stamp {
            name: a.name.clone(),
            width: a.width,
            height: a.height,
            data: copy_data(&a.data),
        };
        let ghost before = r@;
        r.push(copy);
        proof {
            assert(models(r@) =~= models(before).push(copy@));
            assert(packed(models(library@), ids@).take(i + 1) =~= packed(models(library@), ids@).take(
                i as int,
            ).push(models(library@)[ids@[i as int] as int]));
        }
        i = i + 1;
    }
    proof {
        assert(packed(models(library@), ids@).take(i as int) =~= packed(models(library@), ids@));
    }
    r
}

/// Where a brush's stamp lands in the library after loading: the library
/// number the pack's stamp was adopted under, or none when the brush has no
/// stamp or names one the pack does not carry.
pub open spec fn load_slot(remap: Seq<u32>, slot: Option<u32>) -> Option<u32> {
    match slot {
        Some(i) => if i < remap.len() {
            Some(remap[i as int])
        } else {
            None
        },
        None => None,
    }
}

/// Renumbers a loaded brush's stamp into the library.
pub fn remap_alpha(alpha: Option<u32>, remap: &Vec<u32>) -> (r: Option<u32>)
    ensures
        r == load_slot(remap@, alpha),
{
    match alpha {
        Some(i) => if (i as usize) < remap.len() {
            Some(remap[i as usize])
        } else {
            None
        },
        None => None,
    }
}

/// A pack carries its stamps: save brushes from one library, load the pack
/// into another, and each brush that had a stamp in the first library has,
/// in the second, a stamp with the same grid; a brush without one, or whose
/// number the first library did not have, has none.
pub proof fn packs_carry_their_stamps(
    source: Seq<StampModel>,
    alphas: Seq<Option<u32>>,
    ids: Seq<u32>,
    target: Seq<StampModel>,
    remap: Seq<u32>,
    j: int,
)
    requires
        strictly_ascending(ids),
        forall|x: u32| #[trigger] ids.contains(x) <==> (uses(alphas, x) && x < source.len()),
        indices(remap) == adopt_all(target, packed(source, ids)).1,
        0 <= j < alphas.len(),
    ensures
        ({
            let loaded = adopt_all(target, packed(source, ids)).0;
            let landed = load_slot(remap, pack_slot(ids, alphas[j]));
            match alphas[j] {
                Some(a) => if a < source.len() {
                    landed is Some && landed->0 < loaded.len() && same_pixels(
                        loaded[landed->0 as int],
                        source[a as int],
                    )
                } else {
                    landed is None
                },
                None => landed is None,
            }
        }),
{
    let stamps = packed(source, ids);
    let loaded = adopt_all(target, stamps);
    adopt_all_grows(target, stamps);
    assert(remap.len() == stamps.len()) by {
        assert(indices(remap).len() == remap.len());
    }
    if let Some(a) = alphas[j] {
        if a < source.len() {
            assert(uses(alphas, a));
            assert(ids.contains(a));
            let p = ids.index_of(a);
            assert(0 <= p < ids.len() && ids[p] == a);
            assert(p <= u32::MAX) by {
                ids_fit(ids);
            }
            adopt_all_finds(target, stamps, p);
            first_same_found(loaded.0, stamps[p]);
            assert(indices(remap)[p] == remap[p] as int);
        } else {
            assert(!ids.contains(a));
        }
    }
}

/// A strictly ascending list of 32-bit numbers has at most 2^32 of them.
proof fn ids_fit(ids: Seq<u32>)
    requires
        strictly_ascending(ids),
    ensures
        ids.len() <= u32::MAX + 1,
{
    if ids.len() > u32::MAX + 1 {
        ascending_above(ids, u32::MAX as int + 1);
    }
}

/// In a strictly ascending list of numbers that start at zero or above, the
/// i-th is at least i.
proof fn ascending_above(ids: Seq<u32>, i: int)
    requires
        strictly_ascending(ids),
        0 <= i < ids.len(),
    ensures
        ids[i] >= i,
    decreases i,
{
    if i > 0 {
        ascending_above(ids, i - 1);
        assert(ids[i - 1] < ids[i]);
    }
}


/// Some candidate is free: the first `taken.len() + 1` candidates are all
/// different, so they cannot all be taken.
proof fn some_candidate_is_free(base: Seq<char>, taken: Seq<Seq<char>>) -> (k: nat)
    ensures
        1 <= k,
        !taken.contains(candidate(base, k)),
{
    let n = taken.len() + 1;
    let tried = Seq::new(n, |i: int| candidate(base, (i + 1) as nat));
    if forall|i: int| 0 <= i < tried.len() ==> taken.contains(#[trigger] tried[i]) {
        assert forall|a: int, b: int| 0 <= a < tried.len() && 0 <= b < tried.len() && a != b implies tried[a]
            != tried[b] by {
            if tried[a] == tried[b] {
                candidate_injective(base, (a + 1) as nat, (b + 1) as nat);
            }
        }
        distinct_within(tried, taken);
        assert(false);
    }
    let i = choose|i: int| 0 <= i < tried.len() && !taken.contains(#[trigger] tried[i]);
    (i + 1) as nat
}

/// Below any free candidate there is a first free one.
proof fn first_free_below(base: Seq<char>, taken: Seq<Seq<char>>, k: nat)
    requires
        1 <= k,
        !taken.contains(candidate(base, k)),
    ensures
        exists|f: nat| first_free(base, taken, f),
    decreases k,
{
    if forall|j: nat| 1 <= j < k ==> taken.contains(#[trigger] candidate(base, j)) {
        assert(first_free(base, taken, k));
    } else {
        let j = choose|j: nat| 1 <= j < k && !taken.contains(#[trigger] candidate(base, j));
        first_free_below(base, taken, j);
    }
}

/// The name a stamp is adopted under is one nobody in the library has.
pub proof fn free_names_are_free(base: Seq<char>, taken: Seq<Seq<char>>)
    ensures
        !taken.contains(free_name(base, taken)),
{
    let k = some_candidate_is_free(base, taken);
    first_free_below(base, taken, k);
}

/// Loading never gives two stamps the same name: a library whose names are
/// all different keeps them all different, whatever the pack brings.
pub proof fn adopted_names_stay_distinct(lib: Seq<StampModel>, stamps: Seq<StampModel>)
    requires
        names(lib).no_duplicates(),
    ensures
        names(adopt_all(lib, stamps).0).no_duplicates(),
    decreases stamps.len(),
{
    if stamps.len() > 0 {
        adopted_names_stay_distinct(lib, stamps.drop_last());
        let before = adopt_all(lib, stamps.drop_last()).0;
        let s = stamps.last();
        if first_same(before, s) < 0 {
            let fresh = free_name(one_line(s.name), names(before));
            free_names_are_free(one_line(s.name), names(before));
            let after = adopt_all(lib, stamps).0;
            assert(names(after) =~= names(before).push(fresh));
            let pushed = names(before).push(fresh);
            assert forall|i: int, j: int| 0 <= i < pushed.len() && 0 <= j < pushed.len() && i != j implies pushed[i]
                != pushed[j] by {
                if i == before.len() {
                    assert(names(before)[j] == pushed[j]);
                } else if j == before.len() {
                    assert(names(before)[i] == pushed[i]);
                }
            }
        }
    }
}


/// A library of valid stamps stays valid when a pack that passed its check
/// is adopted into it: every stamp that joins has a grid of the pack's.
pub proof fn adopting_checked_stamps_keeps_the_library_valid(lib: Seq<StampModel>, stamps: Seq<StampModel>)
    requires
        forall|i: int| 0 <= i < lib.len() ==> stamp_valid(#[trigger] lib[i]),
        forall|i: int| 0 <= i < stamps.len() ==> stamp_valid(#[trigger] stamps[i]),
    ensures
        forall|i: int|
            0 <= i < adopt_all(lib, stamps).0.len() ==> stamp_valid(#[trigger] adopt_all(lib, stamps).0[i]),
    decreases stamps.len(),
{
    if stamps.len() > 0 {
        let rest = stamps.drop_last();
        assert forall|i: int| 0 <= i < rest.len() implies stamp_valid(#[trigger] rest[i]) by {
            assert(rest[i] == stamps[i]);
        }
        adopting_checked_stamps_keeps_the_library_valid(lib, rest);
        let before = adopt_all(lib, rest).0;
        let after = adopt_all(lib, stamps).0;
        assert(stamp_valid(stamps[stamps.len() - 1]));
        assert forall|i: int| 0 <= i < after.len() implies stamp_valid(#[trigger] after[i]) by {
            if i < before.len() {
                assert(after[i] == before[i]);
            }
        }
    }
}

/// What `image::DynamicImage::resize` with the Lanczos filter makes of an
/// RGBA image of `width` by `height` (row by row, four bytes a pixel): the
/// picture scaled, keeping its proportions, to the largest size that fits in
/// `bound` by `bound`, given as its width, height and bytes.
pub uninterp spec fn lanczos_fitted(width: u32, height: u32, rgba: Seq<u8>, bound: u32) -> (u32, u32, Seq<u8>);

/// Scales an RGBA image to fit a square bound with `image`'s
/// `DynamicImage::resize` and the Lanczos filter (the image is built with
/// `RgbaImage::from_raw` and read back with `into_rgba8` and `into_raw`).
/// Trusted to give the same result for the same image and bound, sides of
/// at least one pixel, and four bytes for each pixel of the new size. The new
/// size itself is worked out in floating point by the crate and is left
/// unsaid, as are the bytes the filter makes.
#[verifier::external_body]
fn resize_to_fit_rgba(width: u32, height: u32, rgba: Vec<u8>, bound: u32) -> (r: (u32, u32, Vec<u8>))
    requires
        rgba@.len() == width * height * 4,
        1 <= bound <= MAX_STAMP_SIDE,
    ensures
        (r.0, r.1, r.2@) == lanczos_fitted(width, height, rgba@, bound),
        1 <= r.0 && 1 <= r.1,
        r.2@.len() == r.0 * r.1 * 4,
{
    let image = image::RgbaImage::from_raw(width, height, rgba).unwrap();
    let fitted = image::DynamicImage::ImageRgba8(image)
        .resize(bound, bound, image::imageops::FilterType::Lanczos3)
        .into_rgba8();
    (fitted.width(), fitted.height(), fitted.into_raw())
}

/// Whether some pixel of an RGBA image is less than nearly opaque.
pub open spec fn see_through(rgba: Seq<u8>) -> bool {
    exists|i: int| 0 <= i < rgba.len() && i % 4 == 3 && #[trigger] rgba[i] < 250
}

/// Whether an imported picture is see-through, so that its alpha rather than
/// its brightness makes the stamp.
pub fn has_transparency(rgba: &Vec<u8>) -> (r: bool)
    ensures
        r == see_through(rgba@),
{
    let mut i: usize = 0;
    while i < rgba.len()
        invariant
            i <= rgba@.len(),
            forall|j: int| 0 <= j < i && j % 4 == 3 ==> #[trigger] rgba@[j] >= 250,
        decreases rgba@.len() - i,
    {
        if i % 4 == 3 && rgba[i] < 250 {
            return true;
        }
        i = i + 1;
    }
    false
}

/// A picture made ready to become a stamp: scaled with the Lanczos filter to
/// fit a stamp's largest side, and whether it is see-through.
pub fn fit_alpha_image(width: u32, height: u32, rgba: Vec<u8>) -> (r: (u32, u32, Vec<u8>, bool))
    requires
        rgba@.len() == width * height * 4,
    ensures
        (r.0, r.1, r.2@) == lanczos_fitted(width, height, rgba@, MAX_STAMP_SIDE),
        r.3 == see_through(r.2@),
        r.2@.len() == r.0 * r.1 * 4,
{
    let (w, h, pixels) = resize_to_fit_rgba(width, height, rgba, MAX_STAMP_SIDE);
    let transparent = has_transparency(&pixels);
    (w, h, pixels, transparent)
}

/// A picture is see-through exactly when some pixel's alpha is below 250:
/// one clear pixel anywhere makes it so, adding pixels of any kind never
/// undoes it, and a picture whose every pixel is nearly opaque is not.
pub proof fn one_clear_pixel_makes_a_picture_see_through(rgba: Seq<u8>, pixel: Seq<u8>)
    requires
        rgba.len() % 4 == 0,
        pixel.len() == 4,
    ensures
        pixel[3] < 250 ==> see_through(rgba + pixel) && see_through(pixel + rgba),
        see_through(rgba) ==> see_through(rgba + pixel) && see_through(pixel + rgba),
        (forall|p: int| 0 <= p < rgba.len() / 4 ==> #[trigger] rgba[4 * p + 3] >= 250) ==> !see_through(rgba),
        (exists|p: int| 0 <= p < rgba.len() / 4 && #[trigger] rgba[4 * p + 3] < 250) ==> see_through(rgba),
{
    let ahead = rgba + pixel;
    let behind = pixel + rgba;
    if pixel[3] < 250 {
        assert(ahead[rgba.len() as int + 3] == pixel[3]);
        assert((rgba.len() as int + 3) % 4 == 3);
        assert(behind[3] == pixel[3]);
    }
    if see_through(rgba) {
        let i = choose|i: int| 0 <= i < rgba.len() && i % 4 == 3 && #[trigger] rgba[i] < 250;
        assert(ahead[i] == rgba[i]);
        assert(behind[i + 4] == rgba[i]);
        assert((i + 4) % 4 == 3);
    }
    if forall|p: int| 0 <= p < rgba.len() / 4 ==> #[trigger] rgba[4 * p + 3] >= 250 {
        assert forall|i: int| 0 <= i < rgba.len() && i % 4 == 3 implies #[trigger] rgba[i] >= 250 by {
            let p = i / 4;
            assert(4 * p + 3 == i);
            assert(0 <= p < rgba.len() / 4);
            assert(rgba[4 * p + 3] >= 250);
        }
    }
    if exists|p: int| 0 <= p < rgba.len() / 4 && #[trigger] rgba[4 * p + 3] < 250 {
        let p = choose|p: int| 0 <= p < rgba.len() / 4 && #[trigger] rgba[4 * p + 3] < 250;
        assert((4 * p + 3) % 4 == 3);
        assert(rgba[4 * p + 3] < 250);
    }
}

} // verus!
