use raytracer::color::{write_decimal, Color, Pixel};
use raytracer::error::Error;
use raytracer::scalar::Scalar;
use raytracer::vector3::Vector3;

fn level(x: f64) -> Scalar {
    Scalar::from_bits(x.to_bits())
}

fn digits(n: u32) -> Vec<u8> {
    let mut out = Vec::new();
    write_decimal(&mut out, n);
    out
}

#[test]
fn new_keeps_channels_in_range() {
    let c = Color::new(level(0.5), level(0.7), level(1.0)).unwrap();
    assert_eq!(c.r().to_bits(), 0.5f64.to_bits());
    assert_eq!(c.g().to_bits(), 0.7f64.to_bits());
    assert_eq!(c.b().to_bits(), 1.0f64.to_bits());
}

#[test]
fn new_accepts_both_ends_of_the_range() {
    assert!(Color::new(level(0.0), level(1.0), level(-0.0)).is_ok());
}

#[test]
fn new_reports_the_first_channel_out_of_range() {
    match Color::new(level(0.5), level(-0.1), level(1.1)) {
        Err(Error::InvalidColor(x)) => assert_eq!(x.to_bits(), (-0.1f64).to_bits()),
        other => panic!("unexpected {:?}", other),
    }
    match Color::new(level(2.0), level(-0.1), level(1.1)) {
        Err(Error::InvalidColor(x)) => assert_eq!(x.to_bits(), 2.0f64.to_bits()),
        other => panic!("unexpected {:?}", other),
    }
    match Color::new(level(0.0), level(0.0), level(1.0 + f64::EPSILON)) {
        Err(Error::InvalidColor(x)) => assert_eq!(x.to_bits(), (1.0 + f64::EPSILON).to_bits()),
        other => panic!("unexpected {:?}", other),
    }
}

#[test]
fn new_rejects_infinite_channels() {
    assert!(Color::new(level(f64::INFINITY), level(0.0), level(0.0)).is_err());
    assert!(Color::new(level(0.0), level(f64::NEG_INFINITY), level(0.0)).is_err());
}

#[test]
fn new_lets_a_nan_channel_pass() {
    assert!(Color::new(level(f64::NAN), level(0.0), level(0.0)).is_ok());
}

#[test]
fn white_is_all_ones() {
    let w = Color::white();
    assert_eq!(w.r().to_bits(), 1.0f64.to_bits());
    assert_eq!(w.g().to_bits(), 1.0f64.to_bits());
    assert_eq!(w.b().to_bits(), 1.0f64.to_bits());
}

#[test]
fn from_vec_and_as_vec_round_trip() {
    let v = Vector3::new(level(0.1), level(0.2), level(0.3));
    let c = Color::from_vec(v).unwrap();
    let back = c.as_vec();
    assert_eq!(back.x.to_bits(), 0.1f64.to_bits());
    assert_eq!(back.y.to_bits(), 0.2f64.to_bits());
    assert_eq!(back.z.to_bits(), 0.3f64.to_bits());
}

#[test]
fn from_vec_checks_the_range() {
    let v = Vector3::new(level(0.1), level(0.2), level(3.0));
    assert!(matches!(Color::from_vec(v), Err(Error::InvalidColor(_))));
}

#[test]
fn decimal_of_small_and_large_numbers() {
    assert_eq!(digits(0), b"0".to_vec());
    assert_eq!(digits(7), b"7".to_vec());
    assert_eq!(digits(10), b"10".to_vec());
    assert_eq!(digits(255), b"255".to_vec());
    assert_eq!(digits(1200), b"1200".to_vec());
    assert_eq!(digits(4294967295), b"4294967295".to_vec());
}

#[test]
fn decimal_agrees_with_the_formatter() {
    for n in [1u32, 9, 11, 99, 100, 101, 675, 1000, 65535, 999999, 1000000, 123456789] {
        assert_eq!(digits(n), format!("{}", n).into_bytes());
    }
}

#[test]
fn decimal_appends() {
    let mut out = b"width ".to_vec();
    write_decimal(&mut out, 42);
    assert_eq!(out, b"width 42".to_vec());
}

#[test]
fn dump_writes_one_line() {
    let mut out = Vec::new();
    Pixel::new(255, 0, 17).dump(&mut out);
    assert_eq!(out, b"255 0 17\n".to_vec());
}

#[test]
fn dump_appends_to_what_is_there() {
    let mut out = Vec::new();
    Pixel::new(1, 2, 3).dump(&mut out);
    Pixel::new(127, 178, 255).dump(&mut out);
    assert_eq!(out, b"1 2 3\n127 178 255\n".to_vec());
}
