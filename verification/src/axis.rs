//! The three coordinate axes.
//!
//! The bounding-volume hierarchy picks one axis at random when it orders
//! surfaces; the random draw itself happens outside this crate, and the
//! drawn number is mapped to an axis here.

use vstd::prelude::*;

verus! {

/// One of the three coordinate axes.
#[derive(Clone, Copy, Debug, PartialEq, Eq, Structural)]
pub enum Axis {
    X,
    Y,
    Z,
}

/// Maps a drawn number to an axis: 0 is X, 1 is Y, everything else Z.
pub fn axis_from_index(n: u8) -> (a: Axis)
    ensures
        a == (if n == 0 {
            Axis::X
        } else if n == 1 {
            Axis::Y
        } else {
            Axis::Z
        }),
{
    match n {
        0 => Axis::X,
        1 => Axis::Y,
        _ => Axis::Z,
    }
}

} // verus!
