use raytracer::error::Error;
use raytracer::scalar::Scalar;
use raytracer::vector3::{Point3, Vector3, NEAR_ZERO_BITS, SHORTEST_BITS};

fn coord(x: f64) -> Scalar {
    Scalar::from_bits(x.to_bits())
}

fn vector(x: f64, y: f64, z: f64) -> Vector3 {
    Vector3::new(coord(x), coord(y), coord(z))
}

fn components(v: &Vector3) -> [u64; 3] {
    [v.x.to_bits(), v.y.to_bits(), v.z.to_bits()]
}

#[test]
fn new_keeps_the_components() {
    let v: Point3 = vector(1.0, -2.5, 3.25);
    assert_eq!(components(&v), [1.0f64.to_bits(), (-2.5f64).to_bits(), 3.25f64.to_bits()]);
}

#[test]
fn neg_reverses_every_component() {
    let v = vector(1.0, -2.5, 0.0).neg();
    assert_eq!(components(&v), [(-1.0f64).to_bits(), 2.5f64.to_bits(), (-0.0f64).to_bits()]);
}

#[test]
fn neg_twice_is_the_vector() {
    let v = vector(0.3, f64::INFINITY, -7.0);
    assert_eq!(components(&v.neg().neg()), components(&v));
}

#[test]
fn thresholds_are_the_numbers_they_name() {
    assert_eq!(NEAR_ZERO_BITS, 1e-8f64.to_bits());
    assert_eq!(SHORTEST_BITS, 1e-160f64.to_bits());
}

#[test]
fn near_zero_needs_every_component_small() {
    assert!(vector(0.0, 0.0, 0.0).near_zero());
    assert!(vector(9e-9, -9e-9, 0.0).near_zero());
    assert!(!vector(1e-8, 0.0, 0.0).near_zero());
    assert!(!vector(0.0, -1e-8, 0.0).near_zero());
    assert!(!vector(0.0, 0.0, 1.0).near_zero());
    assert!(!vector(f64::NAN, 0.0, 0.0).near_zero());
}

#[test]
fn unit_ball_keeps_lengths_up_to_one() {
    assert!(Vector3::in_unit_ball(coord(1.0)));
    assert!(Vector3::in_unit_ball(coord(0.5)));
    assert!(Vector3::in_unit_ball(coord(2e-160)));
    assert!(!Vector3::in_unit_ball(coord(1.0 + f64::EPSILON)));
    assert!(!Vector3::in_unit_ball(coord(1.7)));
}

#[test]
fn unit_ball_rejects_lengths_too_short_to_normalise() {
    assert!(!Vector3::in_unit_ball(coord(1e-160)));
    assert!(!Vector3::in_unit_ball(coord(0.0)));
    assert!(!Vector3::in_unit_ball(coord(f64::NAN)));
}

#[test]
fn unit_disk_is_open() {
    assert!(Vector3::in_unit_disk(coord(0.0)));
    assert!(Vector3::in_unit_disk(coord(0.999)));
    assert!(!Vector3::in_unit_disk(coord(1.0)));
    assert!(!Vector3::in_unit_disk(coord(1.5)));
    assert!(!Vector3::in_unit_disk(coord(f64::NAN)));
}

#[test]
fn hemisphere_keeps_a_sample_that_leans_along_the_normal() {
    let sample = vector(0.6, 0.8, 0.0);
    let kept = Vector3::random_in_hemisphere(sample, coord(0.8));
    assert_eq!(components(&kept), components(&sample));
}

#[test]
fn hemisphere_reverses_a_sample_that_leans_away() {
    let sample = vector(0.6, -0.8, 0.0);
    let turned = Vector3::random_in_hemisphere(sample, coord(-0.8));
    assert_eq!(components(&turned), components(&vector(-0.6, 0.8, -0.0)));
    let level = Vector3::random_in_hemisphere(sample, coord(0.0));
    assert_eq!(components(&level), components(&vector(-0.6, 0.8, -0.0)));
}

#[test]
fn to_color_checks_the_range() {
    let c = vector(0.25, 0.5, 1.0).to_color().unwrap();
    assert_eq!(c.g().to_bits(), 0.5f64.to_bits());
    match vector(0.25, 1.5, -1.0).to_color() {
        Err(Error::InvalidColor(x)) => assert_eq!(x.to_bits(), 1.5f64.to_bits()),
        other => panic!("unexpected {:?}", other),
    }
}
