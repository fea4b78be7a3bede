//! Cartesian coordinates: an unconstrained triple (x, y, z).

use vstd::prelude::*;
use vstd::std_specs::cmp::PartialEqSpecImpl;
use crate::binary64::{equal, same, ZERO};
use crate::coordinate::{Coordinate, ValidationError};

verus! {

/// A point by its distances along the three axes, each the bit pattern of a
/// double. Any three patterns make a coordinate.
#[derive(Clone, Copy, Debug)]
pub struct CartesianCoordinate {
    pub x: u64,
    pub y: u64,
    pub z: u64,
}

impl Coordinate for CartesianCoordinate {
    open spec fn components(&self) -> (u64, u64, u64) {
        (self.x, self.y, self.z)
    }

    open spec fn violation(a: u64, b: u64, c: u64) -> Option<ValidationError> {
        None
    }

    fn new(x: u64, y: u64, z: u64) -> (r: Result<Self, ValidationError>)
        ensures
            Self::violation(x, y, z) is None,
            r == Ok::<Self, ValidationError>((CartesianCoordinate { x, y, z })),
    {
        Ok(CartesianCoordinate { x, y, z })
    }

    proof fn lemma_origin_is_legal() {
        assert(Self::violation(ZERO, ZERO, ZERO) is None);
    }
}

impl PartialEq for CartesianCoordinate {
    /// Equality of the numbers, component by component, as doubles compare.
    fn eq(&self, other: &Self) -> (r: bool) {
        equal(self.x, other.x) && equal(self.y, other.y) && equal(self.z, other.z)
    }
}

impl PartialEqSpecImpl for CartesianCoordinate {
    open spec fn obeys_eq_spec() -> bool {
        true
    }

    open spec fn eq_spec(&self, other: &Self) -> bool {
        same(self.x, other.x) && same(self.y, other.y) && same(self.z, other.z)
    }
}

} // verus!
