//! Behaviour of the three materials under scattering, across many random
//! draws where the outcome is probabilistic.

use raytracer::fixed::{FX_MAX, SCALE};
use raytracer::hittable::{HitRecord, Object};
use raytracer::material::{Material, Scatter, UNIT_EPS};
use raytracer::ppm::Color;
use raytracer::ray::Ray;
use raytracer::vec3::Vec3;
use raytracer::T_EPSILON;

fn head_on_hit(material: Material) -> (Ray, HitRecord) {
    // A ray straight down onto the top of a unit sphere at the origin.
    let ray = Ray::new(Vec3::new(0, 2 * SCALE, 0), Vec3::new(0, -SCALE, 0));
    let sphere = Object::Sphere { material, center: Vec3::new(0, 0, 0), radius: SCALE };
    let rec = sphere.hit(&ray, T_EPSILON, FX_MAX).expect("the ray points at the sphere");
    (ray, rec)
}

#[test]
fn test_lambertian_always_scatters() {
    let albedo = Color::new(SCALE / 2, SCALE / 4, SCALE / 8);
    let (ray, rec) = head_on_hit(Material::Lambertian(albedo));
    for _ in 0..200 {
        match rec.material.scatter(&ray, &rec) {
            Scatter::Scattered { ray: scattered, attenuation } => {
                assert_eq!(attenuation, albedo);
                assert_eq!(scattered.origin, rec.location);
                // The target direction is the normal plus a near-unit draw
                // kept in the normal's hemisphere.
                let drawn = scattered.direction.sub(&rec.normal);
                assert!(drawn.dot(&rec.normal) >= 0);
                let len_sq = drawn.norm_squared();
                assert!(SCALE - UNIT_EPS <= len_sq && len_sq <= SCALE + UNIT_EPS);
            },
            Scatter::Absorbed => panic!("a Lambertian surface never absorbs"),
        }
    }
}

#[test]
fn test_dielectric_attenuation_always_white() {
    let (ray, rec) = head_on_hit(Material::Dielectric(98304));
    for _ in 0..200 {
        match rec.material.scatter(&ray, &rec) {
            Scatter::Scattered { ray: _, attenuation } => {
                assert_eq!(attenuation, Color::new(SCALE, SCALE, SCALE));
            },
            Scatter::Absorbed => panic!("a dielectric never absorbs"),
        }
    }
}

#[test]
fn test_metal_mirror_reflection_without_fuzz() {
    let albedo = Color::new(45875, 39321, 32768);
    let (ray, rec) = head_on_hit(Material::Metal(albedo, 0));
    assert_eq!(rec.normal, Vec3::new(0, SCALE, 0));
    for _ in 0..10 {
        match rec.material.scatter(&ray, &rec) {
            Scatter::Scattered { ray: scattered, attenuation } => {
                // A perpendicular ray bounces straight back, with no variance.
                assert_eq!(scattered.direction, Vec3::new(0, SCALE, 0));
                assert_eq!(scattered.origin, rec.location);
                assert_eq!(attenuation, albedo);
            },
            Scatter::Absorbed => panic!("a head-on mirror reflection points away"),
        }
    }
}

#[test]
fn test_metal_fuzz_stays_near_mirror() {
    let (ray, rec) = head_on_hit(Material::Metal(Color::new(SCALE, SCALE, SCALE), SCALE / 2));
    for _ in 0..100 {
        if let Scatter::Scattered { ray: scattered, attenuation: _ } = rec.material.scatter(
            &ray, &rec,
        ) {
            // The perturbed direction differs from the mirror by at most
            // fuzz times a near-unit component, and still points away.
            let diff = scattered.direction.sub(&Vec3::new(0, SCALE, 0));
            assert!(diff.x.abs() <= SCALE / 2 + UNIT_EPS);
            assert!(diff.y.abs() <= SCALE / 2 + UNIT_EPS);
            assert!(diff.z.abs() <= SCALE / 2 + UNIT_EPS);
            assert!(scattered.direction.dot(&rec.normal) > 0);
        }
    }
}
