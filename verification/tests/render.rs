//! End-to-end behaviour of the renderer on concrete scenes: intersection,
//! nearest-hit resolution, the background gradient and the depth cutoff.

use raytracer::fixed::{FX_MAX, SCALE};
use raytracer::hittable::Object;
use raytracer::material::Material;
use raytracer::ppm::Color;
use raytracer::ray::Ray;
use raytracer::vec3::Vec3;
use raytracer::world::World;
use raytracer::{ray_color, T_EPSILON};

fn to_f64(raw: i64) -> f64 {
    raw as f64 / SCALE as f64
}

#[test]
fn test_sphere_hit_location_on_surface() {
    // A unit-radius sphere three units down the ray's own path.
    let ray = Ray::new(Vec3::new(0, 0, 0), Vec3::new(0, 0, -SCALE));
    let sphere = Object::Sphere {
        material: Material::Lambertian(Color::new(SCALE, 0, 0)),
        center: Vec3::new(0, 0, -3 * SCALE),
        radius: SCALE,
    };
    let rec = sphere.hit(&ray, T_EPSILON, FX_MAX).expect("the sphere lies on the ray's path");
    assert_eq!(rec.t, 2 * SCALE);
    assert_eq!(rec.location, Vec3::new(0, 0, -2 * SCALE));
    assert_eq!(rec.normal, Vec3::new(0, 0, SCALE));
    assert!(rec.front_face);
    // The hit location lies on the sphere's surface: |location - center| = radius.
    let dx = to_f64(rec.location.x) - to_f64(0);
    let dy = to_f64(rec.location.y) - to_f64(0);
    let dz = to_f64(rec.location.z) - to_f64(-3 * SCALE);
    let dist = (dx * dx + dy * dy + dz * dz).sqrt();
    assert!((dist - 1.0).abs() < 1e-4);
}

#[test]
fn test_front_face_invariant() {
    // Hitting the sphere from outside: the outward normal already opposes the ray.
    let ray = Ray::new(Vec3::new(0, 0, 0), Vec3::new(0, 0, -SCALE));
    let outside = Object::Sphere {
        material: Material::Lambertian(Color::new(SCALE, 0, 0)),
        center: Vec3::new(0, 0, -3 * SCALE),
        radius: SCALE,
    };
    let rec = outside.hit(&ray, T_EPSILON, FX_MAX).unwrap();
    assert!(rec.front_face);
    assert!(ray.direction.dot(&rec.normal) <= 0);

    // Hitting it from inside: the outward normal must be flipped.
    let inside = Object::Sphere {
        material: Material::Dielectric(98304),
        center: Vec3::new(0, 0, 0),
        radius: SCALE,
    };
    let rec = inside.hit(&ray, T_EPSILON, FX_MAX).unwrap();
    assert!(!rec.front_face);
    assert!(ray.direction.dot(&rec.normal) <= 0);
}

#[test]
fn test_scene_nearest_hit_order_independent() {
    // Two spheres on the same ray: A at distance four, B at one and a half.
    let ray = Ray::new(Vec3::new(0, 0, 0), Vec3::new(0, 0, -SCALE));
    let far = Object::Sphere {
        material: Material::Lambertian(Color::new(SCALE, 0, 0)),
        center: Vec3::new(0, 0, -5 * SCALE),
        radius: SCALE,
    };
    let near = Object::Sphere {
        material: Material::Metal(Color::new(0, 0, SCALE), 0),
        center: Vec3::new(0, 0, -2 * SCALE),
        radius: SCALE / 2,
    };

    let mut world_a = World::new();
    world_a.add(far);
    world_a.add(near);
    let rec_a = world_a.hit(&ray, T_EPSILON, FX_MAX).unwrap();

    let mut world_b = World::new();
    world_b.add(near);
    world_b.add(far);
    let rec_b = world_b.hit(&ray, T_EPSILON, FX_MAX).unwrap();

    // Both orders return the nearer sphere's record.
    assert_eq!(rec_a.t, SCALE + SCALE / 2);
    assert_eq!(rec_b.t, SCALE + SCALE / 2);
    assert_eq!(rec_a.material, Material::Metal(Color::new(0, 0, SCALE), 0));
    assert_eq!(rec_a, rec_b);
}

#[test]
fn test_background_straight_up_and_down() {
    let world = World::new();
    let up = Ray::new(Vec3::new(0, 0, 0), Vec3::new(0, SCALE, 0));
    let sky = ray_color(&up, &world, 10);
    assert_eq!(sky, Color::new(SCALE / 2, 45875, SCALE));
    assert!((to_f64(sky.r) - 0.5).abs() < 1e-4);
    assert!((to_f64(sky.g) - 0.7).abs() < 1e-4);
    assert!((to_f64(sky.b) - 1.0).abs() < 1e-4);

    let down = Ray::new(Vec3::new(0, 0, 0), Vec3::new(0, -SCALE, 0));
    let white = ray_color(&down, &world, 10);
    assert_eq!(white, Color::new(SCALE, SCALE, SCALE));
}

#[test]
fn test_depth_zero_black() {
    let mut world = World::new();
    world.add(Object::Sphere {
        material: Material::Lambertian(Color::new(SCALE, SCALE, 0)),
        center: Vec3::new(0, 0, -3 * SCALE),
        radius: SCALE,
    });
    let ray = Ray::new(Vec3::new(0, 0, 0), Vec3::new(0, 0, -SCALE));
    assert_eq!(ray_color(&ray, &world, 0), Color::new(0, 0, 0));
    assert_eq!(ray_color(&ray, &world, -3), Color::new(0, 0, 0));
}
