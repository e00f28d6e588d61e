//! The construction schedule of the bounding-volume hierarchy.
//!
//! Building the hierarchy orders surfaces by a coordinate of their
//! bounding boxes — floating-point work done outside this crate — but how
//! a list of surfaces is turned into a node is decided by its length
//! alone: a single surface becomes a degenerate node referencing it
//! twice, a pair is ordered directly, and a longer list is split at its
//! midpoint and both halves are built recursively. Both halves are
//! strictly shorter and nonempty, which is what makes the recursion
//! finish.

use vstd::prelude::*;

verus! {

/// How a node is built from a list of surfaces.
#[derive(Clone, Copy, Debug, PartialEq, Eq, Structural)]
pub enum BvhSplit {
    /// One surface: a degenerate node referencing it twice.
    Single,
    /// Two surfaces: order them by the comparator and make them the
    /// node's children.
    Pair,
    /// More: split the sorted list before this index and build each side
    /// recursively.
    Split(usize),
}

/// Decides how a list of `n` surfaces is turned into a node.
pub fn bvh_split(n: usize) -> (s: BvhSplit)
    requires
        n >= 1,
    ensures
        n == 1 ==> s == BvhSplit::Single,
        n == 2 ==> s == BvhSplit::Pair,
        n >= 3 ==> s == BvhSplit::Split(n / 2),
        forall|mid: usize| s == BvhSplit::Split(mid) ==> 1 <= mid < n,
{
    match n {
        1 => BvhSplit::Single,
        2 => BvhSplit::Pair,
        _ => BvhSplit::Split(n / 2),
    }
}

} // verus!
