//! What a vertex looks like once it reaches the card.
//!
//! Twenty-four bytes in two streams. The hot stream is the position at full
//! precision and the normal folded onto an octahedron as two sixteen bit
//! numbers; the cold stream is what only painting touches: colour, mask,
//! roughness and metalness, a byte each.

use vstd::prelude::*;

verus! {

/// Words in the hot stream: three of position, one of packed normal.
pub const HOT_WORDS: usize = 4;
/// Words in the cold stream: colour with the mask, then the two material
/// values.
pub const COLD_WORDS: usize = 2;
pub const HOT_BYTES: usize = 16;
pub const COLD_BYTES: usize = 8;
/// Indices per triangle, and the bytes they take.
pub const FACE_WORDS: usize = 3;
pub const FACE_BYTES: usize = 12;


/// The word a normal folded onto the octahedron becomes: the first sixteen
/// bit coordinate low, the second high.
pub open spec fn octahedral_value(x: u16, y: u16) -> int {
    x + 0x1_0000 * y
}

/// Packs the two sixteen bit coordinates of a folded normal into one word.
pub fn octahedral_word(x: u16, y: u16) -> (r: u32)
    ensures
        r == octahedral_value(x, y),
{
    let w = (x as u32) | ((y as u32) << 16);
    proof {
        let (a, b) = (x as u32, y as u32);
        assert(a | (b << 16) == a + 0x1_0000 * b) by (bit_vector)
            requires
                a < 0x1_0000,
                b < 0x1_0000,
        ;
    }
    w
}

/// The first cold word: red, green, blue and the mask, a byte each from the
/// lowest.
pub open spec fn colour_word(r: u8, g: u8, b: u8, mask: u8) -> int {
    r + 0x100 * g + 0x1_0000 * b + 0x100_0000 * mask
}

/// The second cold word: roughness in the lowest byte, metalness above it.
pub open spec fn material_word(rough: u8, metal: u8) -> int {
    rough + 0x100 * metal
}

/// The two words that only painting writes to, from the channels already
/// quantised to a byte each.
pub fn cold_words(r: u8, g: u8, b: u8, mask: u8, rough: u8, metal: u8) -> (w: [u32; COLD_WORDS])
    ensures
        w[0] == colour_word(r, g, b, mask),
        w[1] == material_word(rough, metal),
{
    let (r32, g32, b32, m32) = (r as u32, g as u32, b as u32, mask as u32);
    let first = r32 | (g32 << 8) | (b32 << 16) | (m32 << 24);
    let (o32, t32) = (rough as u32, metal as u32);
    let second = o32 | (t32 << 8);
    proof {
        assert(r32 | (g32 << 8) | (b32 << 16) | (m32 << 24) == r32 + 0x100 * g32 + 0x1_0000 * b32
            + 0x100_0000 * m32) by (bit_vector)
            requires
                r32 < 0x100,
                g32 < 0x100,
                b32 < 0x100,
                m32 < 0x100,
        ;
        assert(o32 | (t32 << 8) == o32 + 0x100 * t32) by (bit_vector)
            requires
                o32 < 0x100,
                t32 < 0x100,
        ;
    }
    [first, second]
}


/// The four words the card reads to place and shade a vertex: the bit
/// patterns of the position's three coordinates, then the folded normal.
pub fn hot_words(position: [u32; 3], normal: u32) -> (w: [u32; HOT_WORDS])
    ensures
        w@ == seq![position[0], position[1], position[2], normal],
{
    let w = [position[0], position[1], position[2], normal];
    assert(w@ =~= seq![position[0], position[1], position[2], normal]);
    w
}

/// Packs the hot stream of a whole mesh: four words per vertex, in vertex
/// order.
pub fn pack_hot_stream(positions: &Vec<[u32; 3]>, normals: &Vec<u32>) -> (out: Vec<u32>)
    requires
        positions@.len() == normals@.len(),
        positions@.len() * HOT_WORDS <= usize::MAX,
    ensures
        out@.len() == positions@.len() * HOT_WORDS,
        forall|v: int, k: int|
            0 <= v < positions@.len() && 0 <= k < 3 ==> #[trigger] out@[v * 4 + k] == positions@[v][k],
        forall|v: int| 0 <= v < positions@.len() ==> #[trigger] out@[v * 4 + 3] == normals@[v],
{
    let mut out: Vec<u32> = Vec::new();
    let mut v: usize = 0;
    while v < positions.len()
        invariant
            positions@.len() == normals@.len(),
            v <= positions@.len(),
            out@.len() == v * 4,
            forall|i: int, k: int|
                0 <= i < v && 0 <= k < 3 ==> #[trigger] out@[i * 4 + k] == positions@[i][k],
            forall|i: int| 0 <= i < v ==> #[trigger] out@[i * 4 + 3] == normals@[i],
        decreases positions@.len() - v,
    {
        let p = positions[v];
        let ghost before = out@;
        out.push(p[0]);
        out.push(p[1]);
        out.push(p[2]);
        out.push(normals[v]);
        proof {
            assert forall|i: int, k: int| 0 <= i < v + 1 && 0 <= k < 3 implies #[trigger] out@[i * 4 + k]
                == positions@[i][k] by {
                if i < v {
                    assert(i * 4 + k < v * 4) by (nonlinear_arith)
                        requires
                            i < v,
                            k < 3,
                    ;
                    assert(out@[i * 4 + k] == before[i * 4 + k]);
                }
            }
            assert forall|i: int| 0 <= i < v + 1 implies #[trigger] out@[i * 4 + 3] == normals@[i] by {
                if i < v {
                    assert(i * 4 + 3 < v * 4) by (nonlinear_arith)
                        requires
                            i < v,
                    ;
                    assert(out@[i * 4 + 3] == before[i * 4 + 3]);
                }
            }
        }
        v = v + 1;
    }
    out
}

/// Packs the cold stream of a whole mesh, from each vertex's six channels
/// already quantised to a byte each (red, green, blue, mask, roughness,
/// metalness): two words per vertex, in vertex order.
pub fn pack_cold_stream(channels: &Vec<[u8; 6]>) -> (out: Vec<u32>)
    requires
        channels@.len() * COLD_WORDS <= usize::MAX,
    ensures
        out@.len() == channels@.len() * COLD_WORDS,
        forall|v: int|
            0 <= v < channels@.len() ==> {
                let c = #[trigger] channels@[v];
                &&& out@[v * 2] == colour_word(c[0], c[1], c[2], c[3])
                &&& out@[v * 2 + 1] == material_word(c[4], c[5])
            },
{
    let mut out: Vec<u32> = Vec::new();
    let mut v: usize = 0;
    while v < channels.len()
        invariant
            v <= channels@.len(),
            out@.len() == v * 2,
            forall|i: int|
                0 <= i < v ==> {
                    let c = #[trigger] channels@[i];
                    &&& out@[i * 2] == colour_word(c[0], c[1], c[2], c[3])
                    &&& out@[i * 2 + 1] == material_word(c[4], c[5])
                },
        decreases channels@.len() - v,
    {
        let c = channels[v];
        let w = cold_words(c[0], c[1], c[2], c[3], c[4], c[5]);
        let ghost before = out@;
        out.push(w[0]);
        out.push(w[1]);
        proof {
            assert forall|i: int| 0 <= i < v + 1 implies {
                let c = #[trigger] channels@[i];
                &&& out@[i * 2] == colour_word(c[0], c[1], c[2], c[3])
                &&& out@[i * 2 + 1] == material_word(c[4], c[5])
            } by {
                if i < v {
                    assert(out@[i * 2] == before[i * 2]);
                    assert(out@[i * 2 + 1] == before[i * 2 + 1]);
                }
            }
        }
        v = v + 1;
    }
    out
}

} // verus!
