//! A named tag for one of the three spatial dimensions.
//!
//! `Axis` carries no payload; it exists so that call sites can name a
//! dimension abstractly instead of passing a raw index to the indexed
//! accessors of [`Vector`](crate::vector::Vector).

use vstd::prelude::*;

verus! {

/// One of the three spatial dimensions: X, Y or Z.
#[derive(Debug, Clone, Copy, PartialEq, Eq, Structural)]
pub enum Axis {
    X,
    Y,
    Z,
}

impl Axis {
    /// The index this axis names: X is 0, Y is 1, Z is 2.
    pub open spec fn as_index(self) -> int {
        match self {
            Axis::X => 0,
            Axis::Y => 1,
            Axis::Z => 2,
        }
    }

    /// Map the axis to the index it names, always below 3, for use with
    /// the indexed accessors of `Vector`.
    pub fn to_index(self) -> (r: usize)
        ensures
            r == self.as_index(),
            r < 3,
    {
        match self {
            Axis::X => 0,
            Axis::Y => 1,
            Axis::Z => 2,
        }
    }
}

} // verus!
