//! From Cartesian to spherical coordinates: which formula gives each angle.
//!
//! The angles are arctangents except on the axes and at the origin, where
//! they are fixed by convention. This module decides, from the signs of the
//! Cartesian components, which case a point falls under, and puts the
//! spherical coordinate together from the numbers that the caller computed.
//!
//! The angles are kept as the formulas give them and are not moved into the
//! ranges that `SphericalCoordinate::new` asks for. The azimuth lies between
//! -π and π, so a point with negative y converts to a coordinate whose
//! `in_range` is false. Below the x-y plane the arctangent of the
//! inclination is already between π/2 and π, and π is added to it all the
//! same, so such a point's inclination is out of range as well.

use vstd::prelude::*;
use crate::binary64::{is_zero, less, lt, nan, same, zero, HALF_PI, NEG_HALF_PI, ZERO};
use crate::cartesian::CartesianCoordinate;
use crate::coordinate::Coordinate;
use crate::spherical::SphericalCoordinate;

verus! {

/// Where a point lies relative to the x-y plane, which settles its
/// inclination.
#[derive(Clone, Copy, Debug, PartialEq, Eq, Structural)]
pub enum Inclination {
    /// Above the plane: atan2(delta, z).
    Above,
    /// Below the plane: π + atan2(delta, z).
    Below,
    /// In the plane and off the origin: π/2.
    InPlane,
    /// Anything else, the origin above all: 0.
    Origin,
}

/// Where a point lies relative to the y-z plane, which settles its azimuth.
#[derive(Clone, Copy, Debug, PartialEq, Eq, Structural)]
pub enum Azimuth {
    /// Off the y-z plane: atan2(y, x).
    OffPlane,
    /// In the y-z plane with positive y: π/2.
    PositiveY,
    /// In the y-z plane with negative y: -π/2.
    NegativeY,
    /// Anything else, the z-axis above all: 0.
    OnAxis,
}

/// The numbers that a conversion draws on, computed by the caller from a
/// Cartesian coordinate (x, y, z), each as the bit pattern of a double.
#[derive(Clone, Copy, Debug)]
pub struct Measures {
    /// The distance from the origin: sqrt(x² + y² + z²).
    pub rho: u64,
    /// The length of the projection onto the x-y plane: sqrt(x² + y²).
    pub delta: u64,
    /// atan2(delta, z).
    pub polar: u64,
    /// π + atan2(delta, z).
    pub polar_from_below: u64,
    /// atan2(y, x).
    pub planar: u64,
}

/// The inclination's case for a point at height `z` whose projection onto
/// the x-y plane has length `delta`.
pub open spec fn inclination_case(z: u64, delta: u64) -> Inclination {
    if lt(ZERO, z) {
        Inclination::Above
    } else if lt(z, ZERO) {
        Inclination::Below
    } else if same(z, ZERO) && !same(delta, ZERO) {
        Inclination::InPlane
    } else {
        Inclination::Origin
    }
}

/// The azimuth's case for a point whose first two components are `x` and
/// `y`.
pub open spec fn azimuth_case(x: u64, y: u64) -> Azimuth {
    if lt(ZERO, x) || lt(x, ZERO) {
        Azimuth::OffPlane
    } else if lt(ZERO, y) {
        Azimuth::PositiveY
    } else if lt(y, ZERO) {
        Azimuth::NegativeY
    } else {
        Azimuth::OnAxis
    }
}

/// The spherical coordinate of a Cartesian one, given its measures.
pub open spec fn converted(value: CartesianCoordinate, m: Measures) -> SphericalCoordinate {
    SphericalCoordinate {
        rho: m.rho,
        theta: match inclination_case(value.z, m.delta) {
            Inclination::Above => m.polar,
            Inclination::Below => m.polar_from_below,
            Inclination::InPlane => HALF_PI,
            Inclination::Origin => ZERO,
        },
        phi: match azimuth_case(value.x, value.y) {
            Azimuth::OffPlane => m.planar,
            Azimuth::PositiveY => HALF_PI,
            Azimuth::NegativeY => NEG_HALF_PI,
            Azimuth::OnAxis => ZERO,
        },
    }
}

/// Decides which formula gives the inclination.
pub fn inclination_rule(z: u64, delta: u64) -> (r: Inclination)
    ensures
        r == inclination_case(z, delta),
{
    if less(ZERO, z) {
        Inclination::Above
    } else if less(z, ZERO) {
        Inclination::Below
    } else if is_zero(z) && !is_zero(delta) {
        Inclination::InPlane
    } else {
        Inclination::Origin
    }
}

/// Decides which formula gives the azimuth.
pub fn azimuth_rule(x: u64, y: u64) -> (r: Azimuth)
    ensures
        r == azimuth_case(x, y),
{
    if less(ZERO, x) {
        Azimuth::OffPlane
    } else if less(x, ZERO) {
        Azimuth::OffPlane
    } else if less(ZERO, y) {
        Azimuth::PositiveY
    } else if less(y, ZERO) {
        Azimuth::NegativeY
    } else {
        Azimuth::OnAxis
    }
}

impl SphericalCoordinate {
    /// Converts a Cartesian coordinate, given its measures. The result is
    /// built as it is, whether or not its azimuth is in range.
    pub fn from_cartesian(value: &CartesianCoordinate, m: &Measures) -> (r: Self)
        ensures
            r.rho == converted(*value, *m).rho,
            r.theta == converted(*value, *m).theta,
            r.phi == converted(*value, *m).phi,
    {
        let theta: u64 = match inclination_rule(value.z, m.delta) {
            Inclination::Above => m.polar,
            Inclination::Below => m.polar_from_below,
            Inclination::InPlane => HALF_PI,
            Inclination::Origin => ZERO,
        };
        let phi: u64 = match azimuth_rule(value.x, value.y) {
            Azimuth::OffPlane => m.planar,
            Azimuth::PositiveY => HALF_PI,
            Azimuth::NegativeY => NEG_HALF_PI,
            Azimuth::OnAxis => ZERO,
        };
        SphericalCoordinate { rho: m.rho, theta, phi }
    }
}

/// The origin converts to the origin: with all of x, y, z and the projection
/// zero, both angles are exactly zero, whatever the arctangents gave.
pub proof fn lemma_origin_converts_to_origin(value: CartesianCoordinate, m: Measures)
    requires
        zero(value.x),
        zero(value.y),
        zero(value.z),
        zero(m.delta),
    ensures
        converted(value, m).rho == m.rho,
        converted(value, m).theta == ZERO,
        converted(value, m).phi == ZERO,
{
}

/// A point in the x-y plane and off the origin has the inclination π/2.
pub proof fn lemma_in_plane_is_half_pi(value: CartesianCoordinate, m: Measures)
    requires
        zero(value.z),
        !nan(m.delta),
        !zero(m.delta),
    ensures
        converted(value, m).theta == HALF_PI,
{
}

/// A point on the positive y-axis side of the y-z plane has the azimuth π/2;
/// one on the negative side has -π/2.
pub proof fn lemma_azimuth_in_yz_plane(value: CartesianCoordinate, m: Measures)
    requires
        zero(value.x),
    ensures
        lt(ZERO, value.y) ==> converted(value, m).phi == HALF_PI,
        lt(value.y, ZERO) ==> converted(value, m).phi == NEG_HALF_PI,
{
}

/// The azimuth -π/2 is below the legal range: whatever the other two
/// components, `SphericalCoordinate::new` refuses such a triple, so a point
/// on the negative y-axis converts to a coordinate that is out of range.
pub proof fn lemma_negative_y_axis_out_of_range(value: CartesianCoordinate, m: Measures)
    requires
        zero(value.x),
        lt(value.y, ZERO),
    ensures
        !converted(value, m).in_range(),
{
    let c = converted(value, m);
    assert(SphericalCoordinate::violation(c.rho, c.theta, c.phi) is Some);
}

/// On or above the x-y plane and with y not negative, a conversion whose
/// radius and arctangents are in range gives a coordinate in range.
pub proof fn lemma_converted_in_range(value: CartesianCoordinate, m: Measures)
    requires
        !lt(value.y, ZERO),
        !lt(value.z, ZERO),
        (SphericalCoordinate { rho: m.rho, theta: m.polar, phi: m.planar }).in_range(),
    ensures
        converted(value, m).in_range(),
{
    let c = converted(value, m);
    assert(SphericalCoordinate::violation(m.rho, m.polar, m.planar) is None);
    assert(SphericalCoordinate::violation(c.rho, c.theta, c.phi) is None);
}

} // verus!
