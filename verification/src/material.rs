//! Surface materials and their scattering behaviour: diffuse (Lambertian),
//! reflective (metal with fuzz) and refractive (dielectric with a
//! Schlick-approximated reflectance). Scattering consumes random draws; the
//! contracts state what holds of the outcome for every possible draw.

use vstd::prelude::*;

verus! {

use crate::fixed::{
    fadd, fsub, fneg, fmul, fdiv, fsqrt, SCALE,
    lemma_fmul_zero, lemma_sat_bounded, lemma_fmul_one,
};
use crate::vec3::{
    Vec3, V3, v3_add, v3_sub, v3_neg, v3_scale, v3_dot, v3_len_sq, v3_unit, v3_bounded,
    lemma_v3_dot_neg_left, lemma_v3_len_sq_neg,
};
use crate::ray::Ray;
use crate::ppm::Color;
use crate::hittable::{HitRecord, HitRecV};
use crate::rng::random_fx;

/// The closed set of surface materials.
#[derive(Clone, Copy, PartialEq, Eq, Structural, Debug)]
pub enum Material {
    Lambertian(Color),
    Metal(Color, i64),
    Dielectric(i64),
}

/// What a material does to a ray: re-emit it with an attenuation, or
/// swallow it.
#[derive(Clone, Copy, PartialEq, Eq, Structural, Debug)]
pub enum Scatter {
    Scattered { ray: Ray, attenuation: Color },
    Absorbed,
}

/// Fully transmissive attenuation.
pub open spec fn white_spec() -> Color {
    Color { r: SCALE, g: SCALE, b: SCALE }
}

/// The rounding slack allowed on a random unit vector: about one percent
/// of one, in fixed-point units.
pub const UNIT_EPS: i64 = 655;

/// A vector of unit length up to fixed-point rounding: every component
/// within one, and squared length within `UNIT_EPS` of one. Every random
/// direction the materials draw satisfies this, as in particular no drawn
/// vector is short or zero.
pub open spec fn near_unit(v: V3) -> bool {
    &&& -(SCALE as int + UNIT_EPS as int) <= v.x <= SCALE as int + UNIT_EPS as int
    &&& -(SCALE as int + UNIT_EPS as int) <= v.y <= SCALE as int + UNIT_EPS as int
    &&& -(SCALE as int + UNIT_EPS as int) <= v.z <= SCALE as int + UNIT_EPS as int
    &&& SCALE as int - UNIT_EPS as int <= v3_len_sq(v) <= SCALE as int + UNIT_EPS as int
}

/// Mirror reflection about a normal: `v - 2 * dot(v, n) * n`.
pub open spec fn reflect_spec(v: V3, n: V3) -> V3 {
    v3_sub(v, v3_scale(v3_scale(n, 2 * (SCALE as int)), v3_dot(v, n)))
}

/// Snell refraction of the unit direction `uv` at a surface with normal `n`
/// and relative index ratio `eta`, decomposed into components parallel and
/// perpendicular to the surface.
pub open spec fn refract_spec(uv: V3, n: V3, eta: int) -> V3 {
    let cos = v3_dot(v3_neg(uv), n);
    let par = v3_scale(v3_add(uv, v3_scale(n, cos)), eta);
    let k = fsub(SCALE as int, v3_len_sq(par));
    let perp = v3_scale(n, fneg(fsqrt(k)));
    v3_add(par, perp)
}

/// The fifth power, as the scattering code computes it.
pub open spec fn pow5_spec(x: int) -> int {
    fmul(fmul(fmul(fmul(x, x), x), x), x)
}

/// Schlick's reflectance approximation:
/// `r0 + (1 - r0) * (1 - cos)^5` with `r0 = ((1 - eta) / (1 + eta))^2`.
pub open spec fn schlick_spec(cos: int, eta: int) -> int {
    let r0 = fdiv(fsub(SCALE as int, eta), fadd(SCALE as int, eta));
    let r0sq = fmul(r0, r0);
    fadd(r0sq, fmul(fsub(SCALE as int, r0sq), pow5_spec(fsub(SCALE as int, cos))))
}

/// The un-fuzzed mirror reflection a metal starts from.
pub open spec fn metal_reflected(ray: Ray, rec: HitRecV) -> V3 {
    reflect_spec(v3_unit(ray.direction@), rec.normal)
}

/// The relative index ratio a dielectric uses: the inverse of its index on
/// entry through the front face, the raw index on exit.
pub open spec fn dielectric_eta(index: int, rec: HitRecV) -> int {
    if rec.front_face {
        fdiv(SCALE as int, index)
    } else {
        index
    }
}

/// The clamped cosine of the angle between the incoming unit direction and
/// the normal.
pub open spec fn dielectric_cos(ray: Ray, rec: HitRecV) -> int {
    let x = v3_dot(v3_neg(v3_unit(ray.direction@)), rec.normal);
    if x < SCALE as int {
        x
    } else {
        SCALE as int
    }
}

/// The sine derived from the clamped cosine.
pub open spec fn dielectric_sin(ray: Ray, rec: HitRecV) -> int {
    fsqrt(fsub(SCALE as int, fmul(dielectric_cos(ray, rec), dielectric_cos(ray, rec))))
}

/// What scattering on a Lambertian surface yields: always a ray from the
/// hit location, aimed at the normal plus a near-unit draw kept in the
/// normal's hemisphere, attenuated by the albedo. Never absorbed.
pub open spec fn lambertian_outcome(out: Scatter, albedo: Color, rec: HitRecV) -> bool {
    &&& out matches Scatter::Scattered { ray: sr, attenuation } ==> {
        &&& attenuation == albedo
        &&& sr.origin@ == rec.location
        &&& exists|h: V3|
            near_unit(h) && v3_dot(h, rec.normal) >= 0 && sr.direction@ == v3_add(
                rec.normal,
                h,
            )
    }
    &&& out is Scattered
}

/// What scattering on a metal yields for the drawn perturbation `p`: the
/// mirror reflection perturbed by `fuzz * p`; absorbed exactly when the
/// perturbed reflection does not point away from the surface.
pub open spec fn metal_outcome(
    out: Scatter,
    albedo: Color,
    fuzz: int,
    ray: Ray,
    rec: HitRecV,
    p: V3,
) -> bool {
    let dir = v3_add(metal_reflected(ray, rec), v3_scale(p, fuzz));
    if v3_dot(dir, rec.normal) > 0 {
        out matches Scatter::Scattered { ray: sr, attenuation } && attenuation == albedo
            && sr.origin@ == rec.location && sr.direction@ == dir
    } else {
        out is Absorbed
    }
}

/// The direction a dielectric takes for the drawn probability `q`: the
/// mirror reflection when the draw falls below the Schlick reflectance,
/// the Snell refraction otherwise.
pub open spec fn dielectric_choice(ray: Ray, rec: HitRecV, eta: int, q: int) -> V3 {
    if q < schlick_spec(dielectric_cos(ray, rec), eta) {
        reflect_spec(v3_unit(ray.direction@), rec.normal)
    } else {
        refract_spec(v3_unit(ray.direction@), rec.normal, eta)
    }
}

/// What scattering on a dielectric yields: always a ray from the hit
/// location with fully transmissive attenuation. Under total internal
/// reflection the direction is necessarily the mirror reflection; otherwise
/// a probability is drawn uniformly from `[0, 1)`, and the direction is the
/// reflection exactly when the draw falls below the Schlick reflectance,
/// the Snell refraction otherwise.
pub open spec fn dielectric_outcome(out: Scatter, index: int, ray: Ray, rec: HitRecV) -> bool {
    let u = v3_unit(ray.direction@);
    let eta = dielectric_eta(index, rec);
    &&& out matches Scatter::Scattered { ray: sr, attenuation } ==> {
        &&& attenuation == white_spec()
        &&& sr.origin@ == rec.location
        &&& sr.direction@ == reflect_spec(u, rec.normal) || sr.direction@ == refract_spec(
            u,
            rec.normal,
            eta,
        )
        &&& if fmul(eta, dielectric_sin(ray, rec)) > SCALE as int {
            sr.direction@ == reflect_spec(u, rec.normal)
        } else {
            exists|q: int| 0 <= q < SCALE as int && sr.direction@ == dielectric_choice(
                ray,
                rec,
                eta,
                q,
            )
        }
    }
    &&& out is Scattered
}

/// What scattering yields, whatever the material: the conjunction of the
/// per-variant outcome statements, over every possible random draw. For a
/// fuzz-free metal the perturbation is fixed at zero, so the outcome is
/// deterministic: the exact mirror reflection, or absorption when that
/// reflection does not point away from the surface.
pub open spec fn scatter_outcome(m: Material, ray: Ray, rec: HitRecV, out: Scatter) -> bool {
    match m {
        Material::Lambertian(albedo) => lambertian_outcome(out, albedo, rec),
        Material::Metal(albedo, fuzz) => {
            &&& exists|p: V3| near_unit(p) && metal_outcome(out, albedo, fuzz as int, ray, rec, p)
            &&& fuzz == 0 ==> metal_outcome(out, albedo, 0, ray, rec, (V3 { x: 0, y: 0, z: 0 }))
        },
        Material::Dielectric(index) => dielectric_outcome(out, index as int, ray, rec),
    }
}

/// A random direction: a draw from the unit ball, rejected until it is
/// long enough to carry a direction, then normalized onto the unit sphere.
/// The result is checked against the stated unit bound before it is
/// accepted, so the bound holds of every outcome. A bounded number of
/// rejection rounds is tried; if all fail (which a uniform source makes
/// vanishingly rare), a fixed unit vector is returned, which the contract
/// also admits.
pub fn random_vector_in_unit_sphere() -> (r: Vec3)
    ensures
        near_unit(r@),
{
    let mut tries: usize = 0;
    while tries < 64
        invariant
            tries <= 64,
        decreases 64 - tries,
    {
        let v = Vec3::new(
            random_fx(-SCALE, SCALE),
            random_fx(-SCALE, SCALE),
            random_fx(-SCALE, SCALE),
        );
        let len_sq: i64 = v.norm_squared();
        if SCALE / 4 <= len_sq && len_sq <= SCALE {
            let u = v.normalize();
            let unit_len_sq: i64 = u.norm_squared();
            if -(SCALE + UNIT_EPS) <= u.x && u.x <= SCALE + UNIT_EPS
                && -(SCALE + UNIT_EPS) <= u.y && u.y <= SCALE + UNIT_EPS
                && -(SCALE + UNIT_EPS) <= u.z && u.z <= SCALE + UNIT_EPS
                && SCALE - UNIT_EPS <= unit_len_sq && unit_len_sq <= SCALE + UNIT_EPS {
                return u;
            }
        }
        tries = tries + 1;
    }
    let fallback = Vec3::new(0, SCALE, 0);
    proof {
        lemma_fmul_zero(0);
        lemma_fmul_one(SCALE as int);
        lemma_sat_bounded(fmul(0, 0) + fmul(SCALE as int, SCALE as int));
        lemma_sat_bounded(fadd(fmul(0, 0), fmul(SCALE as int, SCALE as int)) + fmul(0, 0));
    }
    fallback
}

/// A random unit direction, flipped if needed into the hemisphere of the
/// given normal.
pub fn random_in_hemisphere(normal: &Vec3) -> (r: Vec3)
    ensures
        near_unit(r@),
        v3_dot(r@, normal@) >= 0,
{
    let v = random_vector_in_unit_sphere();
    if v.dot(normal) > 0 {
        v
    } else {
        proof {
            lemma_v3_dot_neg_left(v@, normal@);
            lemma_v3_len_sq_neg(v@);
        }
        v.neg()
    }
}

/// Mirror reflection of `v` about `n`.
pub fn reflect(v: &Vec3, n: &Vec3) -> (r: Vec3)
    ensures
        r@ == reflect_spec(v@, n@),
{
    let d: i64 = v.dot(n);
    v.sub(&n.scale(2 * SCALE).scale(d))
}

/// Snell refraction of the unit direction `uv` about `n` with ratio `eta`.
pub fn refract(uv: &Vec3, n: &Vec3, eta: i64) -> (r: Vec3)
    ensures
        r@ == refract_spec(uv@, n@, eta as int),
{
    let cos: i64 = uv.neg().dot(n);
    let par = uv.add(&n.scale(cos)).scale(eta);
    let k: i64 = crate::fixed::sub_fx(SCALE, par.norm_squared());
    let perp = n.scale(crate::fixed::neg_fx(crate::fixed::sqrt_fx(k)));
    par.add(&perp)
}

/// Schlick's reflectance approximation.
pub fn schlick(cos: i64, eta: i64) -> (r: i64)
    ensures
        r == schlick_spec(cos as int, eta as int),
{
    let r0: i64 = crate::fixed::div_fx(
        crate::fixed::sub_fx(SCALE, eta),
        crate::fixed::add_fx(SCALE, eta),
    );
    let r0sq: i64 = crate::fixed::mul_fx(r0, r0);
    let x: i64 = crate::fixed::sub_fx(SCALE, cos);
    let x5: i64 = crate::fixed::mul_fx(
        crate::fixed::mul_fx(crate::fixed::mul_fx(crate::fixed::mul_fx(x, x), x), x),
        x,
    );
    crate::fixed::add_fx(r0sq, crate::fixed::mul_fx(crate::fixed::sub_fx(SCALE, r0sq), x5))
}

impl Material {
    /// Decides whether the incoming ray is absorbed or re-emitted, and
    /// along what ray with what attenuation. A Lambertian surface always
    /// scatters; a dielectric always scatters with fully transmissive
    /// attenuation; a fuzz-free metal is an exact mirror.
    pub fn scatter(&self, ray: &Ray, rec: &HitRecord) -> (out: Scatter)
        ensures
            scatter_outcome(*self, *ray, rec@, out),
    {
        match self {
            Material::Lambertian(albedo) => {
                let h = random_in_hemisphere(&rec.normal);
                let direction = rec.normal.add(&h);
                Scatter::Scattered {
                    ray: Ray::new(rec.location, direction),
                    attenuation: *albedo,
                }
            },
            Material::Metal(albedo, fuzz) => {
                let reflected = reflect(&ray.direction.normalize(), &rec.normal);
                let p = random_vector_in_unit_sphere();
                let direction = reflected.add(&p.scale(*fuzz));
                proof {
                    if *fuzz == 0 {
                        lemma_fmul_zero(p@.x);
                        lemma_fmul_zero(p@.y);
                        lemma_fmul_zero(p@.z);
                        lemma_fmul_zero(0);
                        crate::vec3::lemma_v3_sub_bounded(
                            v3_unit(ray.direction@),
                            v3_scale(
                                v3_scale(rec@.normal, 2 * (SCALE as int)),
                                v3_dot(v3_unit(ray.direction@), rec@.normal),
                            ),
                        );
                        lemma_zero_perturbation(metal_reflected(*ray, rec@));
                    }
                }
                if direction.dot(&rec.normal) > 0 {
                    Scatter::Scattered {
                        ray: Ray::new(rec.location, direction),
                        attenuation: *albedo,
                    }
                } else {
                    Scatter::Absorbed
                }
            },
            Material::Dielectric(index) => {
                let eta: i64 = if rec.front_face {
                    crate::fixed::div_fx(SCALE, *index)
                } else {
                    *index
                };
                let unit = ray.direction.normalize();
                let x: i64 = unit.neg().dot(&rec.normal);
                let cos_theta: i64 = if x < SCALE {
                    x
                } else {
                    SCALE
                };
                let sin_theta: i64 = crate::fixed::sqrt_fx(
                    crate::fixed::sub_fx(SCALE, crate::fixed::mul_fx(cos_theta, cos_theta)),
                );
                if crate::fixed::mul_fx(eta, sin_theta) > SCALE {
                    let reflected = reflect(&unit, &rec.normal);
                    return Scatter::Scattered {
                        ray: Ray::new(rec.location, reflected),
                        attenuation: Color::new(SCALE, SCALE, SCALE),
                    };
                }
                let reflect_prob: i64 = schlick(cos_theta, eta);
                let q: i64 = random_fx(0, SCALE);
                if q < reflect_prob {
                    let reflected = reflect(&unit, &rec.normal);
                    proof {
                        assert(reflected@ == dielectric_choice(*ray, rec@, eta as int, q as int));
                    }
                    return Scatter::Scattered {
                        ray: Ray::new(rec.location, reflected),
                        attenuation: Color::new(SCALE, SCALE, SCALE),
                    };
                }
                let refracted = refract(&unit, &rec.normal, eta);
                proof {
                    assert(refracted@ == dielectric_choice(*ray, rec@, eta as int, q as int));
                }
                Scatter::Scattered {
                    ray: Ray::new(rec.location, refracted),
                    attenuation: Color::new(SCALE, SCALE, SCALE),
                }
            },
        }
    }
}

/// Perturbing a representable reflection by the zero vector changes nothing.
proof fn lemma_zero_perturbation(refl: V3)
    requires
        v3_bounded(refl),
    ensures
        v3_add(refl, (V3 { x: 0, y: 0, z: 0 })) == refl,
{
    lemma_sat_bounded(refl.x + 0);
    lemma_sat_bounded(refl.y + 0);
    lemma_sat_bounded(refl.z + 0);
}

} // verus!
