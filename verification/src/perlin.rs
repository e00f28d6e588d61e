//! The integer lattice machinery of Perlin gradient noise.
//!
//! The noise texture keeps three independent permutations of the byte
//! values and, for a query point's lattice cell, gathers a gradient index
//! for each of the cell's eight corners by XOR-combining the three
//! permutation lookups. The gradient vectors themselves and the smoothed
//! interpolation are floating-point work done outside this crate; the
//! tables and the index arithmetic are built and proved here.

use vstd::prelude::*;

use rand::Rng;
use vstd::seq_lib::group_to_multiset_ensures;
use vstd::seq_lib::to_multiset_update;

verus! {

/// How many gradient vectors and permutation entries a table holds.
pub const POINT_COUNT: usize = 256;

/// Folds a lattice coordinate into a table index by keeping its low
/// eight bits.
pub fn cast_to_range(x: i64) -> (r: usize)
    ensures
        r == x & 0xFF,
        r < 256,
{
    proof {
        assert(0 <= x & 0xFF < 256) by (bit_vector);
    }
    (x & 0xFF) as usize
}

/// The identity table: entry `i` holds the byte `i`.
pub open spec fn identity_table() -> Seq<u8> {
    Seq::new(256, |i: int| i as u8)
}

/// A table that holds each of the 256 byte values exactly once.
pub open spec fn is_shuffled_table(s: Seq<u8>) -> bool {
    s.len() == 256 && s.to_multiset() == identity_table().to_multiset()
}

/// A shuffled table loses nothing: whichever way the shuffle fell, every
/// one of the 256 byte values can still be found in it, so every gradient
/// index is reachable.
pub proof fn shuffled_table_contains_every_byte(s: Seq<u8>, v: u8)
    requires
        is_shuffled_table(s),
    ensures
        s.contains(v),
{
    broadcast use group_to_multiset_ensures;

    assert(identity_table()[v as int] == v);
    assert(identity_table().contains(v));
    assert(identity_table().to_multiset().count(v) > 0);
    assert(s.to_multiset().count(v) > 0);
}

/// Draws a random index strictly below `bound`.
///
/// Relies on `rand::Rng::gen_range`: a draw from the range `0..bound`
/// lies in that range; it panics only when the range is empty, which the
/// precondition rules out.
#[verifier::external_body]
fn rand_below(bound: usize) -> (r: usize)
    requires
        bound > 0,
    ensures
        r < bound,
{
    rand::thread_rng().gen_range(0..bound)
}

/// Shuffles a full table in place: every entry above index 0 is swapped
/// with a randomly drawn strictly earlier entry, walking down from the
/// top. Whatever the draws, the result holds the same entries.
fn permute(p: &mut Vec<u8>)
    requires
        old(p)@.len() == 256,
    ensures
        final(p)@.len() == 256,
        final(p)@.to_multiset() == old(p)@.to_multiset(),
{
    let mut i: usize = POINT_COUNT - 1;
    while i >= 1
        invariant
            i <= 255,
            p@.len() == 256,
            p@.to_multiset() == old(p)@.to_multiset(),
        decreases i,
    {
        let target = rand_below(i);
        let ghost s = p@;
        let a = p[i];
        let b = p[target];
        p.set(i, b);
        p.set(target, a);
        proof {
            broadcast use group_to_multiset_ensures;

            to_multiset_update(s, i as int, b);
            to_multiset_update(s.update(i as int, b), target as int, a);
            assert(s.contains(s[i as int]));
            assert(s.contains(s[target as int]));
            assert(p@.to_multiset() =~= s.to_multiset());
        }
        i -= 1;
    }
}

/// Fills a table with the identity permutation of the byte values and
/// shuffles it.
pub fn perlin_generate_perm(p: &mut Vec<u8>)
    ensures
        is_shuffled_table(final(p)@),
{
    p.clear();
    let mut i: usize = 0;
    while i < POINT_COUNT
        invariant
            i <= 256,
            p@.len() == i,
            forall|j: int| 0 <= j < i ==> p@[j] == j as u8,
        decreases 256 - i,
    {
        p.push(i as u8);
        i += 1;
    }
    proof {
        assert(p@ =~= identity_table());
    }
    permute(p);
}

/// The three permutation tables of a Perlin noise generator, one per
/// axis. The gradient vectors the indices point into are floating-point
/// data kept by the caller.
pub struct Perlin {
    pub perm_x: Vec<u8>,
    pub perm_y: Vec<u8>,
    pub perm_z: Vec<u8>,
}

impl Perlin {
    /// Each of the three tables holds every byte value exactly once.
    pub open spec fn wf(&self) -> bool {
        is_shuffled_table(self.perm_x@) && is_shuffled_table(self.perm_y@) && is_shuffled_table(
            self.perm_z@,
        )
    }

    /// Builds three freshly shuffled tables.
    pub fn new() -> (p: Perlin)
        ensures
            p.wf(),
    {
        let mut perm_x: Vec<u8> = Vec::new();
        let mut perm_y: Vec<u8> = Vec::new();
        let mut perm_z: Vec<u8> = Vec::new();

        perlin_generate_perm(&mut perm_x);
        perlin_generate_perm(&mut perm_y);
        perlin_generate_perm(&mut perm_z);

        Perlin { perm_x, perm_y, perm_z }
    }

    /// The gradient index of corner `c` (0 to 7) of the lattice cell at
    /// `(i, j, k)`: corner offsets are decoded from the bits of `c`, each
    /// coordinate is folded into the matching table, and the three
    /// lookups are XOR-combined.
    pub open spec fn corner_index(&self, i: i64, j: i64, k: i64, c: int) -> u8 {
        let di = c / 4;
        let dj = (c % 4) / 2;
        let dk = c % 2;
        (self.perm_x@[(((i + di) as i64) & 0xFF) as int] ^ self.perm_y@[(((j + dj) as i64)
            & 0xFF) as int]) ^ self.perm_z@[(((k + dk) as i64) & 0xFF) as int]
    }

    /// Gathers the eight corner gradient indices of the lattice cell at
    /// `(i, j, k)`, corner 0 first.
    pub fn corner_indices(&self, i: i64, j: i64, k: i64) -> (out: Vec<u8>)
        requires
            self.wf(),
            i < i64::MAX,
            j < i64::MAX,
            k < i64::MAX,
        ensures
            out@.len() == 8,
            forall|c: int| 0 <= c < 8 ==> out@[c] == self.corner_index(i, j, k, c),
    {
        let mut out: Vec<u8> = Vec::new();
        let mut index: usize = 0;
        while index < 8
            invariant
                self.wf(),
                i < i64::MAX,
                j < i64::MAX,
                k < i64::MAX,
                index <= 8,
                out@.len() == index,
                forall|c: int| 0 <= c < index ==> out@[c] == self.corner_index(i, j, k, c),
            decreases 8 - index,
        {
            let di = (index / 4) as i64;
            let dj = ((index % 4) / 2) as i64;
            let dk = (index % 2) as i64;

            let xi = cast_to_range(i + di);
            let yi = cast_to_range(j + dj);
            let zi = cast_to_range(k + dk);

            let r = (self.perm_x[xi] ^ self.perm_y[yi]) ^ self.perm_z[zi];
            out.push(r);
            index += 1;
        }
        out
    }
}

impl Default for Perlin {
    fn default() -> (p: Perlin)
        ensures
            p.wf(),
    {
        Perlin::new()
    }
}

} // verus!
