use raytracer::color::Color;
use raytracer::dielectric::Dielectric;
use raytracer::error::Error;
use raytracer::hittable::HitRecord;
use raytracer::lambertian::Lambertian;
use raytracer::material::Material;
use raytracer::metal::Metal;
use raytracer::scalar::Scalar;
use raytracer::vector3::Vector3;

fn val(x: f64) -> Scalar {
    Scalar::from_bits(x.to_bits())
}

fn xyz(x: f64, y: f64, z: f64) -> Vector3 {
    Vector3::new(val(x), val(y), val(z))
}

fn parts(v: &Vector3) -> [f64; 3] {
    [f64::from_bits(v.x.to_bits()), f64::from_bits(v.y.to_bits()), f64::from_bits(v.z.to_bits())]
}

fn tint(r: f64, g: f64, b: f64) -> Color {
    Color::new(val(r), val(g), val(b)).unwrap()
}

fn dot(a: [f64; 3], b: [f64; 3]) -> f64 {
    a[0] * b[0] + a[1] * b[1] + a[2] * b[2]
}

fn mirror(d: [f64; 3], n: [f64; 3]) -> [f64; 3] {
    let k = 2.0 * dot(d, n);
    [d[0] - k * n[0], d[1] - k * n[1], d[2] - k * n[2]]
}

fn unit(v: [f64; 3]) -> [f64; 3] {
    let len = dot(v, v).sqrt();
    [v[0] / len, v[1] / len, v[2] / len]
}

fn floor_hit(material: &Material) -> HitRecord<'_> {
    // a floor at y = 0, seen from above
    HitRecord::new(xyz(3.0, 0.0, -2.0), xyz(0.0, 1.0, 0.0), val(5.0), val(-0.5), material)
}

#[test]
fn lambertian_always_scatters() {
    let grey = Lambertian::new(tint(0.5, 0.5, 0.5));
    let holder = Material::Lambertian(grey);
    let hit = floor_hit(&holder);
    for candidate in [[0.3, 1.4, -0.2], [0.0, 2.0, 0.0], [-0.9, 0.1, 0.9], [0.0, 0.0, 0.0], [f64::NAN, 0.0, 0.0]] {
        let out = grey.scatter(&hit, xyz(candidate[0], candidate[1], candidate[2]));
        assert!(out.is_some());
    }
}

#[test]
fn lambertian_follows_the_candidate() {
    let grey = Lambertian::new(tint(0.5, 0.25, 0.125));
    let holder = Material::Lambertian(grey);
    let hit = floor_hit(&holder);
    let (attenuation, scattered) = grey.scatter(&hit, xyz(0.3, 1.4, -0.2)).unwrap();
    assert_eq!(parts(&scattered.direction), [0.3, 1.4, -0.2]);
    assert_eq!(parts(&scattered.origin), [3.0, 0.0, -2.0]);
    assert_eq!(parts(attenuation.as_vec()), [0.5, 0.25, 0.125]);
    assert_eq!(parts(grey.albedo().as_vec()), [0.5, 0.25, 0.125]);
}

#[test]
fn lambertian_falls_back_to_the_normal() {
    let grey = Lambertian::new(tint(0.5, 0.5, 0.5));
    let holder = Material::Lambertian(grey);
    let hit = floor_hit(&holder);
    let (_, scattered) = grey.scatter(&hit, xyz(1e-9, -1e-9, 0.0)).unwrap();
    assert_eq!(parts(&scattered.direction), [0.0, 1.0, 0.0]);
}

#[test]
fn metal_needs_a_roughness_in_range() {
    assert!(Metal::new(tint(0.7, 0.6, 0.5), val(0.0)).is_ok());
    assert!(Metal::new(tint(0.7, 0.6, 0.5), val(1.0)).is_ok());
    assert!(Metal::new(tint(0.7, 0.6, 0.5), val(0.3)).is_ok());
    assert!(matches!(Metal::new(tint(0.7, 0.6, 0.5), val(-0.1)), Err(Error::InvalidFuzz)));
    assert!(matches!(Metal::new(tint(0.7, 0.6, 0.5), val(1.5)), Err(Error::InvalidFuzz)));
}

#[test]
fn metal_keeps_what_it_was_built_from() {
    let m = Metal::new(tint(0.7, 0.6, 0.5), val(0.25)).unwrap();
    assert_eq!(m.fuzz().to_bits(), 0.25f64.to_bits());
    assert_eq!(parts(m.albedo().as_vec()), [0.7, 0.6, 0.5]);
}

#[test]
fn metal_mirrors_a_ray_that_leaves_the_surface() {
    let m = Metal::new(tint(0.7, 0.6, 0.5), val(0.0)).unwrap();
    let holder = Material::Metal(m);
    let hit = floor_hit(&holder);
    let normal = [0.0, 1.0, 0.0];
    let direction = unit(mirror([1.0, -1.0, 0.0], normal));
    let alignment = dot(direction, normal);
    let (attenuation, scattered) =
        m.scatter(&hit, xyz(direction[0], direction[1], direction[2]), val(alignment)).unwrap();
    assert_eq!(parts(&scattered.direction), direction);
    assert_eq!(parts(&scattered.origin), [3.0, 0.0, -2.0]);
    assert_eq!(parts(attenuation.as_vec()), [0.7, 0.6, 0.5]);
}

#[test]
fn metal_absorbs_a_grazing_ray() {
    // no roughness, and a ray that runs along the surface: its mirror image
    // does too, and does not leave
    let m = Metal::new(tint(0.7, 0.6, 0.5), val(0.0)).unwrap();
    let holder = Material::Metal(m);
    let hit = floor_hit(&holder);
    let normal = [0.0, 1.0, 0.0];
    let direction = unit(mirror([1.0, 0.0, 0.0], normal));
    let alignment = dot(direction, normal);
    assert_eq!(alignment, 0.0);
    assert!(m.scatter(&hit, xyz(direction[0], direction[1], direction[2]), val(alignment)).is_none());
}

#[test]
fn metal_absorbs_a_ray_pushed_into_the_surface() {
    let m = Metal::new(tint(0.7, 0.6, 0.5), val(1.0)).unwrap();
    let holder = Material::Metal(m);
    let hit = floor_hit(&holder);
    assert!(m.scatter(&hit, xyz(0.9, -0.2, 0.0), val(-0.2)).is_none());
    assert!(m.scatter(&hit, xyz(0.9, f64::NAN, 0.0), val(f64::NAN)).is_none());
}

#[test]
fn dielectric_picks_the_ratio_by_the_side() {
    let glass = Dielectric::new(val(1.5));
    assert_eq!(glass.refraction_index.to_bits(), 1.5f64.to_bits());
    assert_eq!(glass.refraction_ratio(true, val(1.0 / 1.5)).to_bits(), (1.0f64 / 1.5).to_bits());
    assert_eq!(glass.refraction_ratio(false, val(1.0 / 1.5)).to_bits(), 1.5f64.to_bits());
}

#[test]
fn dielectric_mirrors_on_total_internal_reflection() {
    assert!(Dielectric::reflects(val(1.2), val(0.0), val(0.99)));
    assert!(!Dielectric::reflects(val(1.0), val(0.0), val(0.99)));
}

#[test]
fn dielectric_mirrors_where_the_reflectance_exceeds_the_sample() {
    assert!(Dielectric::reflects(val(0.3), val(0.6), val(0.59)));
    assert!(!Dielectric::reflects(val(0.3), val(0.6), val(0.6)));
    assert!(!Dielectric::reflects(val(0.3), val(0.04), val(0.5)));
}

#[test]
fn dielectric_never_absorbs_and_never_tints() {
    let glass = Dielectric::new(val(1.5));
    let holder = Material::Dielectric(glass);
    let hit = floor_hit(&holder);
    let reflected = xyz(0.6, 0.8, 0.0);
    let refracted = xyz(0.4, -0.9, 0.0);
    let (attenuation, bent) = glass.scatter(&hit, val(0.4), val(0.05), val(0.5), reflected, refracted).unwrap();
    assert_eq!(parts(attenuation.as_vec()), [1.0, 1.0, 1.0]);
    assert_eq!(parts(&bent.direction), [0.4, -0.9, 0.0]);
    assert_eq!(parts(&bent.origin), [3.0, 0.0, -2.0]);
    let (attenuation, mirrored) = glass.scatter(&hit, val(1.4), val(0.05), val(0.5), reflected, refracted).unwrap();
    assert_eq!(parts(attenuation.as_vec()), [1.0, 1.0, 1.0]);
    assert_eq!(parts(&mirrored.direction), [0.6, 0.8, 0.0]);
    let (_, sampled) = glass.scatter(&hit, val(0.4), val(0.7), val(0.5), reflected, refracted).unwrap();
    assert_eq!(parts(&sampled.direction), [0.6, 0.8, 0.0]);
}
