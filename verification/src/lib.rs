//! A small ray tracer, verified: camera rays, sphere intersection,
//! nearest-hit resolution over a scene, material scattering and the
//! recursive color integrator, all over an exact saturating fixed-point
//! calculus in place of floating point.

pub mod fixed;
mod rng;
pub mod vec3;
pub mod ray;
pub mod ppm;
pub mod material;
pub mod hittable;
pub mod world;
pub mod camera;

use vstd::prelude::*;

verus! {

use crate::fixed::{fadd, fsub, fmul, SCALE, FX_MAX};
use crate::vec3::v3_unit;
use crate::ray::Ray;
use crate::ppm::{Color, C3, c3_add, c3_scale, c3_mul};
use crate::material::{Scatter, scatter_outcome};
use crate::world::{World, world_hit_spec};

/// One half, in fixed-point units.
pub const HALF: i64 = 32768;

/// The green channel of the sky's zenith color: seven tenths, rounded down
/// to fixed-point units.
pub const SKY_GREEN: i64 = 45875;

/// The minimum ray parameter accepted when the scene is queried: a small
/// positive distance, so a scattered ray cannot immediately re-hit the
/// surface it just left.
pub const T_EPSILON: i64 = 66;

pub open spec fn black_spec() -> C3 {
    C3 { r: 0, g: 0, b: 0 }
}

/// The background gradient: white where the ray points down, the sky color
/// where it points up, blended by the height of the unit direction.
pub open spec fn background_spec(ray: Ray) -> C3 {
    let t = fmul(HALF as int, fadd(v3_unit(ray.direction@).y, SCALE as int));
    c3_add(
        c3_scale((C3 { r: SCALE as int, g: SCALE as int, b: SCALE as int }), fsub(SCALE as int, t)),
        c3_scale((C3 { r: HALF as int, g: SKY_GREEN as int, b: SCALE as int }), t),
    )
}

/// The sky a ray escapes to.
fn background(ray: &Ray) -> (c: Color)
    ensures
        c@ == background_spec(*ray),
{
    let unit = ray.direction.normalize();
    let t: i64 = crate::fixed::mul_fx(HALF, crate::fixed::add_fx(unit.y, SCALE));
    let base = Color::new(SCALE, SCALE, SCALE).scale(crate::fixed::sub_fx(SCALE, t));
    base.add(&Color::new(HALF, SKY_GREEN, SCALE).scale(t))
}

/// The hit material admits scattering along `sr` with attenuation `att`.
pub open spec fn scattered_outcome(
    m: crate::material::Material,
    ray: Ray,
    rec: crate::hittable::HitRecV,
    sr: Ray,
    att: Color,
) -> bool {
    scatter_outcome(m, ray, rec, Scatter::Scattered { ray: sr, attenuation: att })
}

/// What the recursive integrator can return for a ray, a scene and a
/// bounce budget. With the budget exhausted, black, and nothing else; on a
/// miss, the background gradient, and nothing else; on a hit, either black
/// (the surface absorbed the ray) or the attenuation of some scattering
/// outcome the hit material admits, multiplied into a color the integrator
/// can return for the scattered ray with one bounce fewer.
#[verifier::opaque]
pub open spec fn possible_color(
    c: C3,
    ray: Ray,
    objs: Seq<crate::hittable::Object>,
    depth: int,
) -> bool
    decreases depth,
{
    if depth <= 0 {
        c == black_spec()
    } else {
        match world_hit_spec(objs, ray, T_EPSILON as int, FX_MAX as int) {
            None => c == background_spec(ray),
            Some(rec) => c == black_spec() || exists|sr: Ray, att: Color, bounce: C3|
                {
                    &&& #[trigger] scattered_outcome(rec.material, ray, rec, sr, att)
                    &&& possible_color(bounce, sr, objs, depth - 1)
                    &&& c == #[trigger] c3_mul(att@, bounce)
                },
        }
    }
}

/// The recursive color integrator. A ray whose bounce budget is exhausted
/// is black; a ray that misses every primitive takes the background
/// gradient; a scattered ray contributes its bounce's color attenuated by
/// the surface, and an absorbed ray is black: every return value is a
/// `possible_color` of the ray, the scene and the budget.
#[verifier::rlimit(80)]
pub fn ray_color(ray: &Ray, world: &World, depth: i32) -> (c: Color)
    ensures
        possible_color(c@, *ray, world@, depth as int),
        depth <= 0 ==> c@ == black_spec(),
        depth > 0 && world_hit_spec(world@, *ray, T_EPSILON as int, FX_MAX as int) is None
            ==> c@ == background_spec(*ray),
    decreases depth,
{
    if depth <= 0 {
        let c = Color::new(0, 0, 0);
        proof {
            assert(possible_color(c@, *ray, world@, depth as int)) by {
                reveal(possible_color);
            }
        }
        return c;
    }
    match world.hit(ray, T_EPSILON, FX_MAX) {
        Some(rec) => {
            let out = rec.material.scatter(ray, &rec);
            match out {
                Scatter::Scattered { ray: scattered, attenuation } => {
                    let bounce = ray_color(&scattered, world, depth - 1);
                    let c = attenuation.mul(&bounce);
                    proof {
                        assert(possible_color(c@, *ray, world@, depth as int)) by {
                            reveal(possible_color);
                            assert(scattered_outcome(
                                rec@.material,
                                *ray,
                                rec@,
                                scattered,
                                attenuation,
                            ));
                            assert(possible_color(bounce@, scattered, world@, depth as int - 1));
                            assert(c@ == c3_mul(attenuation@, bounce@));
                            assert(world_hit_spec(world@, *ray, T_EPSILON as int, FX_MAX as int)
                                == Some(rec@));
                        }
                    }
                    c
                },
                Scatter::Absorbed => {
                    let c = Color::new(0, 0, 0);
                    proof {
                        assert(possible_color(c@, *ray, world@, depth as int)) by {
                            reveal(possible_color);
                            assert(world_hit_spec(world@, *ray, T_EPSILON as int, FX_MAX as int)
                                == Some(rec@));
                        }
                    }
                    c
                },
            }
        },
        None => {
            let c = background(ray);
            proof {
                assert(possible_color(c@, *ray, world@, depth as int)) by {
                    reveal(possible_color);
                }
            }
            c
        },
    }
}

} // verus!
