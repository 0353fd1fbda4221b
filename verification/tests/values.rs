//! Value-level behaviour: fixed-point arithmetic, vectors, rays, colors and
//! the pixel grid.

use raytracer::camera::Camera;
use raytracer::fixed::{add_fx, div_fx, mul_fx, sqrt_fx, sub_fx, FX_MAX, SCALE};
use raytracer::ppm::{Color, Writer};
use raytracer::ray::Ray;
use raytracer::vec3::Vec3;

#[test]
fn test_fixed_arithmetic() {
    // 2 * 1.5 == 3, 3 / 2 == 1.5, sqrt(4) == 2, in fixed-point units.
    assert_eq!(mul_fx(2 * SCALE, SCALE + SCALE / 2), 3 * SCALE);
    assert_eq!(div_fx(3 * SCALE, 2 * SCALE), SCALE + SCALE / 2);
    assert_eq!(sqrt_fx(4 * SCALE), 2 * SCALE);
    assert_eq!(add_fx(SCALE, -SCALE), 0);
    assert_eq!(sub_fx(SCALE, 3 * SCALE), -2 * SCALE);
    // Saturation instead of overflow, symmetric in sign.
    assert_eq!(mul_fx(FX_MAX, FX_MAX), FX_MAX);
    assert_eq!(mul_fx(-FX_MAX, FX_MAX), -FX_MAX);
    // Rounding is toward zero on both sides.
    assert_eq!(div_fx(SCALE, 3 * SCALE), 21845);
    assert_eq!(div_fx(-SCALE, 3 * SCALE), -21845);
}

#[test]
fn test_vector_operations() {
    let a = Vec3::new(SCALE, 2 * SCALE, 3 * SCALE);
    let b = Vec3::new(4 * SCALE, -5 * SCALE, 6 * SCALE);
    assert_eq!(a.add(&b), Vec3::new(5 * SCALE, -3 * SCALE, 9 * SCALE));
    assert_eq!(a.sub(&b), Vec3::new(-3 * SCALE, 7 * SCALE, -3 * SCALE));
    assert_eq!(a.dot(&b), (4 - 10 + 18) * SCALE);
    assert_eq!(a.cross(&b), Vec3::new(27 * SCALE, 6 * SCALE, -13 * SCALE));
    assert_eq!(a.scale(2 * SCALE), Vec3::new(2 * SCALE, 4 * SCALE, 6 * SCALE));
    let unit = Vec3::new(0, 0, -7 * SCALE).normalize();
    assert_eq!(unit, Vec3::new(0, 0, -SCALE));
}

#[test]
fn test_ray_at_round_trip() {
    let origin = Vec3::new(SCALE, 2 * SCALE, 3 * SCALE);
    let direction = Vec3::new(-4 * SCALE, 5 * SCALE, -6 * SCALE);
    let ray = Ray::new(origin, direction);
    // At parameter zero the ray is at its origin; at one, origin + direction.
    assert_eq!(ray.at(0), origin);
    assert_eq!(ray.at(SCALE), Vec3::new(-3 * SCALE, 7 * SCALE, -3 * SCALE));
}

#[test]
fn test_color() {
    let c = Color { r: 2 * SCALE, g: 5 * SCALE, b: 10 * SCALE };
    assert_eq!(c.r, 2 * SCALE);
    assert_eq!(c.g, 5 * SCALE);
    assert_eq!(c.b, 10 * SCALE);
}

#[test]
fn test_color_arithmetic() {
    let c = Color::new(SCALE, SCALE / 2, 0);
    let d = Color::new(SCALE / 2, SCALE / 2, SCALE);
    assert_eq!(c.add(&d), Color::new(SCALE + SCALE / 2, SCALE, SCALE));
    assert_eq!(c.mul(&d), Color::new(SCALE / 2, SCALE / 4, 0));
    assert_eq!(c.scale(2 * SCALE), Color::new(2 * SCALE, SCALE, 0));
    assert_eq!(c.div(2 * SCALE), Color::new(SCALE / 2, SCALE / 4, 0));
}

#[test]
fn test_writer() {
    let mut c = Writer::new(100, 100);
    assert_eq!(c.get(0, 0).r, 0);

    c.set(0, 0, Color { r: SCALE, g: SCALE, b: SCALE });
    assert_eq!(c.get(0, 0).r, SCALE);
    assert_eq!(c.get(0, 1).r, 0);
}

#[test]
fn test_camera_zero_aperture() {
    // With no aperture there is no lens blur: rays start exactly at the eye
    // and are deterministic.
    let camera = Camera::new(
        Vec3::new(0, 0, 0),
        Vec3::new(0, 0, -SCALE),
        Vec3::new(0, SCALE, 0),
        SCALE / 4,
        2 * SCALE,
        0,
        SCALE,
    );
    let first = camera.new_ray(SCALE / 2, SCALE / 2);
    let second = camera.new_ray(SCALE / 2, SCALE / 2);
    assert_eq!(first.origin, Vec3::new(0, 0, 0));
    assert_eq!(first, second);
    // The center of the viewport lies straight ahead.
    assert_eq!(first.direction, Vec3::new(0, 0, -SCALE));
}
