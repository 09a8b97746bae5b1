//! The bookkeeping behind the GPU uploads: shading modes, how the vertex and
//! index buffers grow, and when a stroke's changes can be scattered into place
//! instead of sending the whole mesh again.

use vstd::prelude::*;
use vstd::arithmetic::power2::{lemma2_to64, lemma_pow2_strictly_increases, lemma_pow2_unfold, pow2};
use crate::gpu_vertex::{COLD_BYTES, FACE_BYTES, HOT_BYTES};

verus! {

broadcast use vstd::seq_lib::group_to_multiset_ensures;

#[derive(Clone, Copy, PartialEq, Eq, Debug, Structural)]
pub enum Shading {
    Matcap,
    Pbr,
    Unlit,
    Normals,
    Cavity,
    Clay,
}

pub open spec fn shading_label(s: Shading) -> Seq<char> {
    match s {
        Shading::Matcap => "Matcap"@,
        Shading::Pbr => "Lit"@,
        Shading::Unlit => "Unlit"@,
        Shading::Normals => "Normals"@,
        Shading::Cavity => "Cavity"@,
        Shading::Clay => "Clay"@,
    }
}

/// The number the shader switches on for each mode.
pub open spec fn shading_code(s: Shading) -> u8 {
    match s {
        Shading::Matcap => 0,
        Shading::Pbr => 1,
        Shading::Normals => 2,
        Shading::Cavity => 3,
        Shading::Clay => 4,
        Shading::Unlit => 5,
    }
}

impl Shading {
    pub const ALL: [Shading; 6] = [
        Shading::Matcap,
        Shading::Pbr,
        Shading::Unlit,
        Shading::Normals,
        Shading::Cavity,
        Shading::Clay,
    ];

    pub fn label(self) -> (r: &'static str)
        ensures
            r@ == shading_label(self),
    {
        match self {
            Shading::Matcap => "Matcap",
            Shading::Pbr => "Lit",
            Shading::Unlit => "Unlit",
            Shading::Normals => "Normals",
            Shading::Cavity => "Cavity",
            Shading::Clay => "Clay",
        }
    }

    /// The mode as the shader numbers it.
    pub fn code(self) -> (r: u8)
        ensures
            r == shading_code(self),
    {
        match self {
            Shading::Matcap => 0,
            Shading::Pbr => 1,
            Shading::Normals => 2,
            Shading::Cavity => 3,
            Shading::Clay => 4,
            Shading::Unlit => 5,
        }
    }

    /// Unlit shows the painted colour and nothing else, so the vertex colour
    /// switch has no say while it is on.
    pub fn forces_vertex_color(self) -> (r: bool)
        ensures
            r == (self == Shading::Unlit),
    {
        self == Shading::Unlit
    }
}

/// Whether a sequence of slots is in ascending order.
pub open spec fn ascending(s: Seq<u32>) -> bool {
    forall|i: int, j: int| 0 <= i < j < s.len() ==> s[i] <= s[j]
}

/// Whether a sequence of slots is strictly ascending, so also free of repeats.
pub open spec fn strictly_ascending(s: Seq<u32>) -> bool {
    forall|i: int, j: int| 0 <= i < j < s.len() ==> s[i] < s[j]
}

/// Sorts the slots in ascending order.
///
/// Calls `slice::sort_unstable`, whose documentation promises an ascending
/// order holding the same elements; which of two equal slots comes first is
/// not promised and not needed.
#[verifier::external_body]
fn sort_slots(slots: &mut Vec<u32>)
    ensures
        ascending(final(slots)@),
        final(slots)@.to_multiset() == old(slots)@.to_multiset(),
{
    slots.sort_unstable();
}

/// Sorts, deduplicates and drops slots past the end of the array.
///
/// What is left is every distinct slot below `len`, in increasing order.
pub fn prune(slots: &mut Vec<u32>, len: usize)
    ensures
        strictly_ascending(final(slots)@),
        forall|x: u32| #[trigger]
            final(slots)@.contains(x) <==> (old(slots)@.contains(x) && x < len),
{
    sort_slots(slots);
    let ghost sorted = slots@;
    proof {
        assert forall|x: u32| sorted.contains(x) <==> old(slots)@.contains(x) by {
            assert(sorted.to_multiset().count(x) == old(slots)@.to_multiset().count(x));
        }
    }
    let mut kept: Vec<u32> = Vec::new();
    let mut i: usize = 0;
    while i < slots.len()
        invariant
            slots@ == sorted,
            ascending(sorted),
            forall|x: u32| sorted.contains(x) <==> old(slots)@.contains(x),
            i <= sorted.len(),
            strictly_ascending(kept@),
            forall|x: u32| #[trigger]
                kept@.contains(x) <==> (exists|j: int| 0 <= j < i && sorted[j] == x && x < len),
            kept@.len() > 0 ==> exists|j: int| 0 <= j < i && sorted[j] == kept@.last(),
        decreases sorted.len() - i,
    {
        let s = slots[i];
        let fresh = kept.len() == 0 || kept[kept.len() - 1] != s;
        let ghost before = kept@;
        if (s as usize) < len && fresh {
            proof {
                if before.len() > 0 {
                    let j = choose|j: int| 0 <= j < i && sorted[j] == before.last();
                    assert(sorted[j] <= sorted[i as int]);
                }
            }
            kept.push(s);
            proof {
                assert forall|a: int, b: int| 0 <= a < b < kept@.len() implies kept@[a] < kept@[b] by {
                    if b == kept@.len() - 1 && a < b {
                        if a < before.len() - 1 {
                            assert(before[a] < before[before.len() - 1]);
                        }
                    }
                }
                assert forall|x: u32| #[trigger]
                    kept@.contains(x) <==> (exists|j: int| 0 <= j < i + 1 && sorted[j] == x && x < len) by {
                    if kept@.contains(x) {
                        let k = choose|k: int| 0 <= k < kept@.len() && kept@[k] == x;
                        if k < before.len() {
                            assert(before.contains(x));
                        }
                    }
                    if exists|j: int| 0 <= j < i + 1 && sorted[j] == x && x < len {
                        let j = choose|j: int| 0 <= j < i + 1 && sorted[j] == x && x < len;
                        if j < i {
                            assert(before.contains(x));
                            let k = choose|k: int| 0 <= k < before.len() && before[k] == x;
                            assert(kept@[k] == x);
                        } else {
                            assert(kept@[kept@.len() - 1] == x);
                        }
                    }
                }
            }
        } else {
            proof {
                assert forall|x: u32| #[trigger]
                    kept@.contains(x) <==> (exists|j: int| 0 <= j < i + 1 && sorted[j] == x && x < len) by {
                    if exists|j: int| 0 <= j < i + 1 && sorted[j] == x && x < len {
                        let j = choose|j: int| 0 <= j < i + 1 && sorted[j] == x && x < len;
                        if j == i {
                            assert(before.len() > 0 && before.last() == x);
                            assert(before[before.len() - 1] == x);
                        }
                    }
                }
            }
        }
        i = i + 1;
    }
    proof {
        assert forall|x: u32| #[trigger]
            kept@.contains(x) <==> (old(slots)@.contains(x) && x < len) by {
            if kept@.contains(x) {
                let j = choose|j: int| 0 <= j < i && sorted[j] == x && x < len;
                assert(sorted.contains(x));
            }
            if old(slots)@.contains(x) && x < len {
                assert(sorted.contains(x));
                let j = choose|j: int| 0 <= j < sorted.len() && sorted[j] == x;
                assert(exists|j: int| 0 <= j < i && sorted[j] == x && x < len);
            }
        }
    }
    *slots = kept;
}


/// Whether `p` is a power of two.
pub open spec fn is_pow2(p: nat) -> bool {
    exists|e: nat| pow2(e) == p
}

/// The smallest power of two no smaller than `n`.
pub open spec fn least_pow2_at_least(p: nat, n: nat) -> bool {
    is_pow2(p) && n <= p && (p == 1 || p / 2 < n)
}

fn next_pow2(n: u64) -> (r: u64)
    requires
        n <= 0x8000_0000_0000_0000,
    ensures
        least_pow2_at_least(r as nat, n as nat),
{
    let mut p: u64 = 1;
    let ghost mut e: nat = 0;
    proof {
        lemma2_to64();
    }
    while p < n
        invariant
            pow2(e) == p,
            1 <= p <= 0x8000_0000_0000_0000,
            p == 1 || p / 2 < n,
            n <= 0x8000_0000_0000_0000,
        decreases 0x8000_0000_0000_0000 - p,
    {
        proof {
            lemma2_to64();
            lemma_pow2_unfold(64);
            if e >= 63 {
                if e > 63 {
                    lemma_pow2_strictly_increases(63, e);
                }
            }
            assert(e < 63);
            lemma_pow2_unfold(e + 1);
            if e + 1 < 63 {
                lemma_pow2_strictly_increases(e + 1, 63);
            }
        }
        p = p * 2;
        proof {
            e = e + 1;
        }
    }
    p
}

/// How big a vertex or index buffer has to be to take `needed` bytes: as it
/// is when that fits, and otherwise grown with half again of headroom, to a
/// power of two, so a dynamic topology stroke does not reallocate every step.
pub open spec fn buffer_capacity(cap: nat, needed: nat, r: nat) -> bool {
    if needed <= cap {
        r == cap
    } else {
        least_pow2_at_least(r, needed * 3 / 2)
    }
}

pub fn grow_buffer(cap: u64, needed: u64) -> (r: u64)
    requires
        needed * 3 / 2 <= 0x8000_0000_0000_0000,
    ensures
        buffer_capacity(cap as nat, needed as nat, r as nat),
{
    if needed > cap {
        next_pow2(needed * 3 / 2)
    } else {
        cap
    }
}

/// How many slots a scatter channel holds once it has to take `count`:
/// unchanged when they fit, otherwise the next power of two.
pub fn grow_slots(capacity: u32, count: u32) -> (r: u32)
    requires
        count <= 0x8000_0000,
    ensures
        count <= capacity ==> r == capacity,
        count > capacity ==> least_pow2_at_least(r as nat, count as nat),
{
    if count <= capacity {
        return capacity;
    }
    let p = next_pow2(count as u64);
    proof {
        assert(p < 0x1_0000_0000);
    }
    p as u32
}

/// What the GPU buffers of one object can hold, in bytes.
#[derive(Clone, Copy, PartialEq, Eq, Debug, Structural)]
pub struct BufferCaps {
    pub hot: u64,
    pub cold: u64,
    pub index: u64,
}

/// How a stroke's changes reach the GPU.
#[derive(Clone, Copy, PartialEq, Eq, Debug, Structural)]
pub enum SparsePlan {
    /// The mesh is empty: nothing to send.
    Nothing,
    /// Send the whole mesh: a buffer would have to grow, or too much changed
    /// for the slot lists to be a saving.
    Whole,
    /// Send only the changed vertices and triangles, this many bytes with
    /// their slot numbers, and scatter them into place.
    Scatter { bytes: u64 },
}

/// Whether the buffers already hold a mesh of this size.
pub open spec fn buffers_fit(verts: nat, faces: nat, caps: BufferCaps) -> bool {
    &&& verts * HOT_BYTES <= caps.hot
    &&& verts * COLD_BYTES <= caps.cold
    &&& faces * FACE_BYTES <= caps.index
}

/// Past a quarter of the mesh the slot lists stop being a saving.
pub open spec fn too_broad(dirty_verts: nat, dirty_faces: nat, verts: nat, faces: nat) -> bool {
    dirty_verts * 4 >= verts || dirty_faces * 4 >= (if faces == 0 { 1 } else { faces })
}

/// Bytes a scatter sends: per vertex its slot, its hot words and its cold
/// words; per triangle its slot and its three indices.
pub open spec fn scatter_bytes(dirty_verts: nat, dirty_faces: nat) -> nat {
    (dirty_verts * (4 + 4 + HOT_BYTES + COLD_BYTES) + dirty_faces * (4 + FACE_BYTES)) as nat
}

/// The slots left by pruning: every distinct one below `len`, ascending.
pub open spec fn pruned(new: Seq<u32>, old: Seq<u32>, len: nat) -> bool {
    strictly_ascending(new) && forall|x: u32| #[trigger] new.contains(x) <==> (old.contains(x) && x < len)
}

/// Decides how the changes to a mesh of `verts` vertices and `faces`
/// triangles are sent, pruning the dirty lists when a scatter is possible.
pub fn plan_sparse(
    verts: usize,
    faces: usize,
    caps: BufferCaps,
    dirty_verts: &mut Vec<u32>,
    dirty_faces: &mut Vec<u32>,
) -> (r: SparsePlan)
    ensures
        verts == 0 ==> r == SparsePlan::Nothing && final(dirty_verts)@ == old(dirty_verts)@
            && final(dirty_faces)@ == old(dirty_faces)@,
        verts > 0 && !buffers_fit(verts as nat, faces as nat, caps) ==> r == SparsePlan::Whole
            && final(dirty_verts)@ == old(dirty_verts)@ && final(dirty_faces)@ == old(dirty_faces)@,
        verts > 0 && buffers_fit(verts as nat, faces as nat, caps) ==> {
            &&& pruned(final(dirty_verts)@, old(dirty_verts)@, verts as nat)
            &&& pruned(final(dirty_faces)@, old(dirty_faces)@, faces as nat)
            &&& r == if too_broad(
                final(dirty_verts)@.len(),
                final(dirty_faces)@.len(),
                verts as nat,
                faces as nat,
            ) {
                SparsePlan::Whole
            } else {
                SparsePlan::Scatter {
                    bytes: scatter_bytes(final(dirty_verts)@.len(), final(dirty_faces)@.len()) as u64,
                }
            }
        },
{
    if verts == 0 {
        return SparsePlan::Nothing;
    }
    // A buffer that has to grow cannot be patched in place.
    let v = verts as u128;
    let f = faces as u128;
    if v * (HOT_BYTES as u128) > caps.hot as u128 || v * (COLD_BYTES as u128) > caps.cold as u128
        || f * (FACE_BYTES as u128) > caps.index as u128 {
        return SparsePlan::Whole;
    }
    prune(dirty_verts, verts);
    prune(dirty_faces, faces);
    let dv = dirty_verts.len() as u128;
    let df = dirty_faces.len() as u128;
    let floor = if faces == 0 {
        1
    } else {
        f
    };
    if dv * 4 >= v || df * 4 >= floor {
        return SparsePlan::Whole;
    }
    proof {
        assert(dv * 4 < v && df * 4 < floor);
        assert(scatter_bytes(dv as nat, df as nat) < 0x1_0000_0000_0000_0000) by (nonlinear_arith)
            requires
                dv * 4 < v,
                df * 4 < floor,
                v * 16 <= caps.hot,
                floor <= f + 1,
                f * 12 <= caps.index,
                caps.hot < 0x1_0000_0000_0000_0000u128,
                caps.index < 0x1_0000_0000_0000_0000u128,
                HOT_BYTES == 16,
                COLD_BYTES == 8,
                FACE_BYTES == 12,
        ;
    }
    let bytes = dv * (4 + 4 + HOT_BYTES as u128 + COLD_BYTES as u128) + df * (4 + FACE_BYTES as u128);
    SparsePlan::Scatter { bytes: bytes as u64 }
}

} // verus!
