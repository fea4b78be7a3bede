//! Spherical coordinates: a radius and two angles, each with a legal range.
//!
//! `new` admits only components inside their ranges. A coordinate that comes
//! out of a conversion is built without that test, so the type itself does
//! not promise the ranges: `in_range` tells whether a given value keeps them.

use vstd::prelude::*;
use vstd::std_specs::cmp::PartialEqSpecImpl;
use crate::binary64::{equal, less, lt, nan, same, HALF_PI, ONE, PI, TWO_PI, ZERO};
use crate::coordinate::{Coordinate, Field, ValidationError};
use crate::value::{lemma_order_is_numeric, scaled};

verus! {

/// A point by its distance from the origin (`rho`), its inclination from the
/// positive z-axis (`theta`) and its azimuth from the positive x-axis in the
/// x-y plane (`phi`), each the bit pattern of a double.
#[derive(Clone, Copy, Debug)]
pub struct SphericalCoordinate {
    pub rho: u64,
    pub theta: u64,
    pub phi: u64,
}

impl SphericalCoordinate {
    /// Whether `new` accepts the three components: none of `rho < 0`,
    /// `theta < 0`, `theta > π`, `phi < 0`, `phi > 2π` holds.
    pub open spec fn in_range(&self) -> bool {
        Self::violation(self.rho, self.theta, self.phi) is None
    }

    /// The point at distance one on the positive z-axis.
    pub fn vertical_unit() -> (r: Self)
        ensures
            r.rho == ONE,
            r.theta == ZERO,
            r.phi == ZERO,
            r.in_range(),
    {
        SphericalCoordinate { rho: ONE, theta: ZERO, phi: ZERO }
    }

    /// The point at distance one on the positive x-axis.
    pub fn horizontal_unit() -> (r: Self)
        ensures
            r.rho == ONE,
            r.theta == HALF_PI,
            r.phi == ZERO,
            r.in_range(),
    {
        SphericalCoordinate { rho: ONE, theta: HALF_PI, phi: ZERO }
    }
}

impl Coordinate for SphericalCoordinate {
    open spec fn components(&self) -> (u64, u64, u64) {
        (self.rho, self.theta, self.phi)
    }

    /// The first component out of range, in the order rho, theta, phi.
    open spec fn violation(rho: u64, theta: u64, phi: u64) -> Option<ValidationError> {
        if lt(rho, ZERO) {
            Some(ValidationError { field: Field::Rho, value: rho })
        } else if lt(theta, ZERO) || lt(PI, theta) {
            Some(ValidationError { field: Field::Theta, value: theta })
        } else if lt(phi, ZERO) || lt(TWO_PI, phi) {
            Some(ValidationError { field: Field::Phi, value: phi })
        } else {
            None
        }
    }

    fn new(rho: u64, theta: u64, phi: u64) -> (r: Result<Self, ValidationError>)
        ensures
            r == match Self::violation(rho, theta, phi) {
                Some(e) => Err::<Self, ValidationError>(e),
                None => Ok((SphericalCoordinate { rho, theta, phi })),
            },
            r matches Ok(c) ==> c.in_range(),
    {
        if less(rho, ZERO) {
            Err(ValidationError { field: Field::Rho, value: rho })
        } else if less(theta, ZERO) || less(PI, theta) {
            Err(ValidationError { field: Field::Theta, value: theta })
        } else if less(phi, ZERO) || less(TWO_PI, phi) {
            Err(ValidationError { field: Field::Phi, value: phi })
        } else {
            Ok(SphericalCoordinate { rho, theta, phi })
        }
    }

    proof fn lemma_origin_is_legal() {
        assert(Self::violation(ZERO, ZERO, ZERO) is None);
    }
}

impl PartialEq for SphericalCoordinate {
    /// Equality of the numbers, component by component, as doubles compare.
    fn eq(&self, other: &Self) -> (r: bool) {
        equal(self.rho, other.rho) && equal(self.theta, other.theta) && equal(self.phi, other.phi)
    }
}

impl PartialEqSpecImpl for SphericalCoordinate {
    open spec fn obeys_eq_spec() -> bool {
        true
    }

    open spec fn eq_spec(&self, other: &Self) -> bool {
        same(self.rho, other.rho) && same(self.theta, other.theta) && same(self.phi, other.phi)
    }
}

/// Three numbers inside the legal ranges, `rho ≥ 0`, `0 ≤ theta ≤ π` and
/// `0 ≤ phi ≤ 2π`, have no violation: `new` takes them.
pub proof fn lemma_in_range_is_accepted(rho: u64, theta: u64, phi: u64)
    requires
        !nan(rho) && 0 <= scaled(rho),
        !nan(theta) && 0 <= scaled(theta) <= scaled(PI),
        !nan(phi) && 0 <= scaled(phi) <= scaled(TWO_PI),
    ensures
        SphericalCoordinate::violation(rho, theta, phi) is None,
{
    lemma_order_is_numeric(rho, ZERO);
    lemma_order_is_numeric(theta, ZERO);
    lemma_order_is_numeric(PI, theta);
    lemma_order_is_numeric(phi, ZERO);
    lemma_order_is_numeric(TWO_PI, phi);
}

/// Three numbers with one outside its legal range have a violation, and the
/// violation names the first such component in the order rho, theta, phi,
/// with the value that was handed in.
pub proof fn lemma_out_of_range_is_refused(rho: u64, theta: u64, phi: u64)
    requires
        !nan(rho),
        !nan(theta),
        !nan(phi),
    ensures
        scaled(rho) < 0 ==> SphericalCoordinate::violation(rho, theta, phi) == Some(
            ValidationError { field: Field::Rho, value: rho },
        ),
        0 <= scaled(rho) && !(0 <= scaled(theta) <= scaled(PI)) ==> SphericalCoordinate::violation(
            rho,
            theta,
            phi,
        ) == Some(ValidationError { field: Field::Theta, value: theta }),
        0 <= scaled(rho) && 0 <= scaled(theta) <= scaled(PI) && !(0 <= scaled(phi) <= scaled(
            TWO_PI,
        )) ==> SphericalCoordinate::violation(rho, theta, phi) == Some(
            ValidationError { field: Field::Phi, value: phi },
        ),
{
    lemma_order_is_numeric(rho, ZERO);
    lemma_order_is_numeric(theta, ZERO);
    lemma_order_is_numeric(PI, theta);
    lemma_order_is_numeric(phi, ZERO);
    lemma_order_is_numeric(TWO_PI, phi);
}

/// A pattern that is not a number is out of no range: `new` refuses a
/// triple only for a component that is a number.
pub proof fn lemma_refused_value_is_a_number(rho: u64, theta: u64, phi: u64)
    ensures
        SphericalCoordinate::violation(rho, theta, phi) matches Some(e) ==> !nan(e.value),
{
}

} // verus!
