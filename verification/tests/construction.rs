use coordinates::binary64;
use coordinates::cartesian::CartesianCoordinate;
use coordinates::coordinate::{Coordinate, Field, ValidationError};
use coordinates::spherical::SphericalCoordinate;
use std::f64::consts::PI;

const TWO_PI: f64 = PI * 2.;
const HALF_PI: f64 = PI / 2.;

fn cartesian(x: f64, y: f64, z: f64) -> CartesianCoordinate {
    CartesianCoordinate::new(x.to_bits(), y.to_bits(), z.to_bits()).unwrap()
}

fn spherical(rho: f64, theta: f64, phi: f64) -> Result<SphericalCoordinate, ValidationError> {
    SphericalCoordinate::new(rho.to_bits(), theta.to_bits(), phi.to_bits())
}

fn message(error: &ValidationError) -> String {
    format!("{} = {} is out of bounds", error.field.name(), f64::from_bits(error.value))
}

#[test]
fn create_cartesian_coordinate() {
    let coord = cartesian(1., 1., 1.);
    let zero = CartesianCoordinate::zero();
    assert_eq!(
        coord,
        CartesianCoordinate { x: 1f64.to_bits(), y: 1f64.to_bits(), z: 1f64.to_bits() }
    );
    assert_eq!(
        zero,
        CartesianCoordinate { x: 0f64.to_bits(), y: 0f64.to_bits(), z: 0f64.to_bits() }
    );
}

#[test]
fn create_spherical_coordinate() {
    let coord = spherical(1., HALF_PI, PI).unwrap();
    let zero = SphericalCoordinate::zero();
    let error = spherical(1., TWO_PI, PI * 3.).unwrap_err();
    assert_eq!(
        coord,
        SphericalCoordinate { rho: 1f64.to_bits(), theta: HALF_PI.to_bits(), phi: PI.to_bits() }
    );
    assert_eq!(
        zero,
        SphericalCoordinate { rho: 0f64.to_bits(), theta: 0f64.to_bits(), phi: 0f64.to_bits() }
    );
    assert_eq!(message(&error), format!("theta = {} is out of bounds", TWO_PI));
}

#[test]
fn cartesian_keeps_every_triple() {
    let triples = [
        (1.5, -2.25, 3.0),
        (-1e300, 1e-300, -0.0),
        (f64::MAX, f64::MIN, f64::MIN_POSITIVE),
        (f64::INFINITY, f64::NEG_INFINITY, f64::NAN),
    ];
    for (x, y, z) in triples {
        let c = CartesianCoordinate::new(x.to_bits(), y.to_bits(), z.to_bits()).unwrap();
        assert_eq!(c.x, x.to_bits());
        assert_eq!(c.y, y.to_bits());
        assert_eq!(c.z, z.to_bits());
    }
}

#[test]
fn cartesian_zero_is_positive_zero() {
    let zero = CartesianCoordinate::zero();
    assert_eq!((zero.x, zero.y, zero.z), (0, 0, 0));
    assert_eq!(f64::from_bits(zero.x), 0.);
}

#[test]
fn spherical_zero_is_positive_zero() {
    let zero = SphericalCoordinate::zero();
    assert_eq!((zero.rho, zero.theta, zero.phi), (0, 0, 0));
}

#[test]
fn spherical_keeps_components_in_range() {
    let triples = [
        (0., 0., 0.),
        (1., HALF_PI, PI),
        (2.5, PI, TWO_PI),
        (1e300, 1e-300, 6.28),
        (f64::INFINITY, 3.14, 0.5),
        (-0.0, -0.0, -0.0),
    ];
    for (rho, theta, phi) in triples {
        let c = spherical(rho, theta, phi).unwrap();
        assert_eq!(c.rho, rho.to_bits());
        assert_eq!(c.theta, theta.to_bits());
        assert_eq!(c.phi, phi.to_bits());
    }
}

#[test]
fn spherical_refuses_negative_rho() {
    let error = spherical(-1., HALF_PI, PI).unwrap_err();
    assert_eq!(error.field, Field::Rho);
    assert_eq!(error.value, (-1f64).to_bits());
    assert_eq!(message(&error), "rho = -1 is out of bounds");
}

#[test]
fn spherical_refuses_theta_out_of_range() {
    let below = spherical(1., -0.5, PI).unwrap_err();
    assert_eq!(below, ValidationError { field: Field::Theta, value: (-0.5f64).to_bits() });
    let above = spherical(1., 3.5, PI).unwrap_err();
    assert_eq!(above, ValidationError { field: Field::Theta, value: 3.5f64.to_bits() });
    assert_eq!(message(&above), "theta = 3.5 is out of bounds");
}

#[test]
fn spherical_refuses_phi_out_of_range() {
    let below = spherical(1., HALF_PI, -HALF_PI).unwrap_err();
    assert_eq!(below, ValidationError { field: Field::Phi, value: (-HALF_PI).to_bits() });
    let above = spherical(1., HALF_PI, 7.).unwrap_err();
    assert_eq!(above, ValidationError { field: Field::Phi, value: 7f64.to_bits() });
    assert_eq!(message(&above), "phi = 7 is out of bounds");
}

#[test]
fn spherical_reports_first_violation_only() {
    assert_eq!(spherical(-1., 9., 9.).unwrap_err().field, Field::Rho);
    assert_eq!(spherical(-1., 1., 9.).unwrap_err().field, Field::Rho);
    assert_eq!(spherical(1., 9., 9.).unwrap_err().field, Field::Theta);
    assert_eq!(spherical(1., -9., -9.).unwrap_err().field, Field::Theta);
    assert_eq!(spherical(1., 1., 9.).unwrap_err().field, Field::Phi);
}

#[test]
fn spherical_bounds_are_inclusive() {
    assert!(spherical(0., 0., 0.).is_ok());
    assert!(spherical(0., PI, TWO_PI).is_ok());
    let past_pi = f64::from_bits(PI.to_bits() + 1);
    let past_two_pi = f64::from_bits(TWO_PI.to_bits() + 1);
    assert_eq!(spherical(0., past_pi, 0.).unwrap_err().field, Field::Theta);
    assert_eq!(spherical(0., 0., past_two_pi).unwrap_err().field, Field::Phi);
    let tiny = -f64::from_bits(1);
    assert_eq!(spherical(tiny, 0., 0.).unwrap_err().field, Field::Rho);
    assert_eq!(spherical(0., tiny, 0.).unwrap_err().field, Field::Theta);
    assert_eq!(spherical(0., 0., tiny).unwrap_err().field, Field::Phi);
}

#[test]
fn spherical_lets_not_a_number_through() {
    let c = spherical(f64::NAN, f64::NAN, f64::NAN).unwrap();
    assert!(f64::from_bits(c.rho).is_nan());
    assert!(f64::from_bits(c.theta).is_nan());
    assert!(f64::from_bits(c.phi).is_nan());
}

#[test]
fn spherical_refuses_infinite_angles() {
    assert_eq!(spherical(1., f64::INFINITY, 0.).unwrap_err().field, Field::Theta);
    assert_eq!(spherical(1., 0., f64::INFINITY).unwrap_err().field, Field::Phi);
    assert_eq!(spherical(f64::NEG_INFINITY, 0., 0.).unwrap_err().field, Field::Rho);
}

#[test]
fn unit_vectors() {
    let v = SphericalCoordinate::vertical_unit();
    assert_eq!((f64::from_bits(v.rho), f64::from_bits(v.theta), f64::from_bits(v.phi)), (1., 0., 0.));
    let h = SphericalCoordinate::horizontal_unit();
    assert_eq!(
        (f64::from_bits(h.rho), f64::from_bits(h.theta), f64::from_bits(h.phi)),
        (1., HALF_PI, 0.)
    );
    assert_eq!(spherical(1., 0., 0.).unwrap(), v);
    assert_eq!(spherical(1., HALF_PI, 0.).unwrap(), h);
}

#[test]
fn field_names() {
    assert_eq!(Field::Rho.name(), "rho");
    assert_eq!(Field::Theta.name(), "theta");
    assert_eq!(Field::Phi.name(), "phi");
}

#[test]
fn coordinates_compare_as_numbers() {
    assert_eq!(cartesian(0., -0., 0.), cartesian(-0., 0., -0.));
    assert_ne!(cartesian(1., 2., 3.), cartesian(1., 2., 3.5));
    assert_ne!(cartesian(f64::NAN, 0., 0.), cartesian(f64::NAN, 0., 0.));
    assert_eq!(spherical(-0., 0., 0.).unwrap(), spherical(0., -0., -0.).unwrap());
    assert_ne!(spherical(1., 0., 0.).unwrap(), spherical(1., 0., 1.).unwrap());
    assert_ne!(spherical(1., f64::NAN, 0.).unwrap(), spherical(1., f64::NAN, 0.).unwrap());
}

#[test]
fn constants_are_the_doubles_they_name() {
    assert_eq!(binary64::ZERO, 0f64.to_bits());
    assert_eq!(binary64::SIGN, (-0f64).to_bits());
    assert_eq!(binary64::ONE, 1f64.to_bits());
    assert_eq!(binary64::INFINITY, f64::INFINITY.to_bits());
    assert_eq!(binary64::PI, PI.to_bits());
    assert_eq!(binary64::TWO_PI, TWO_PI.to_bits());
    assert_eq!(binary64::HALF_PI, HALF_PI.to_bits());
    assert_eq!(binary64::NEG_HALF_PI, (-HALF_PI).to_bits());
}
