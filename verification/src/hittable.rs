//! Geometric primitives and the record of a ray hitting one.
//!
//! The one primitive is the sphere; its intersection test solves the
//! quadratic `|origin + t * direction - center|^2 = radius^2` in the
//! fixed-point calculus and keeps the nearer root that falls strictly
//! inside the queried parameter window.

use vstd::prelude::*;

verus! {

use crate::fixed::{
    fsub, fmul, fsqrt, tdiv, SCALE,
    lemma_fdiv_bounded, lemma_fsqrt_props, lemma_tdiv_monotone, tdiv_i128,
};
use crate::vec3::{
    Vec3, V3, v3_sub, v3_neg, v3_div, v3_dot, v3_len_sq, v3_bounded,
    lemma_v3_dot_neg_left,
};
use crate::ray::{Ray, ray_at};
use crate::material::Material;

/// The mathematical model of a hit record.
pub struct HitRecV {
    pub location: V3,
    pub normal: V3,
    pub t: int,
    pub front_face: bool,
    pub material: Material,
}

/// A successful intersection: where it happened, the surface normal oriented
/// against the incoming ray, the ray parameter, whether the geometric
/// outward normal already opposed the ray, and the surface's material.
#[derive(Clone, Copy, PartialEq, Eq, Structural, Debug)]
pub struct HitRecord {
    pub location: Vec3,
    pub normal: Vec3,
    pub t: i64,
    pub front_face: bool,
    pub material: Material,
}

impl View for HitRecord {
    type V = HitRecV;

    open spec fn view(&self) -> HitRecV {
        HitRecV {
            location: self.location@,
            normal: self.normal@,
            t: self.t as int,
            front_face: self.front_face,
            material: self.material,
        }
    }
}

/// What constructing a hit record from an outward normal yields: the normal
/// is flipped unless it already opposes the ray's direction.
pub open spec fn hit_record_spec(
    ray: Ray,
    location: V3,
    normal: V3,
    t: int,
    material: Material,
) -> HitRecV {
    let front_face = v3_dot(ray.direction@, normal) < 0;
    HitRecV {
        location,
        normal: if front_face {
            normal
        } else {
            v3_neg(normal)
        },
        t,
        front_face,
        material,
    }
}

impl HitRecord {
    /// Orients the given outward normal against the ray. The bound on the
    /// normal only keeps its negation exact; every normal a sphere produces
    /// satisfies it.
    pub fn new(ray: &Ray, location: Vec3, normal: Vec3, t: i64, material: Material) -> (r:
        HitRecord)
        requires
            v3_bounded(normal@),
        ensures
            r@ == hit_record_spec(*ray, location@, normal@, t as int, material),
            v3_dot(ray.direction@, r@.normal) <= 0,
    {
        let front_face = ray.direction.dot(&normal) < 0;
        let oriented = if front_face {
            normal
        } else {
            normal.neg()
        };
        proof {
            if !front_face {
                lemma_v3_dot_neg_left(normal@, ray.direction@);
                lemma_dot_comm(normal@, ray.direction@);
                lemma_dot_comm(v3_neg(normal@), ray.direction@);
            }
        }
        HitRecord { location, normal: oriented, t, front_face, material }
    }
}

/// The dot product is symmetric.
pub proof fn lemma_dot_comm(a: V3, b: V3)
    ensures
        v3_dot(a, b) == v3_dot(b, a),
{
    assert(a.x * b.x == b.x * a.x) by (nonlinear_arith);
    assert(a.y * b.y == b.y * a.y) by (nonlinear_arith);
    assert(a.z * b.z == b.z * a.z) by (nonlinear_arith);
}

/// The open face of the intersection test, for callers that range over
/// primitives and scenes alike. The verified contracts live on the inherent
/// `hit` methods, which the implementations delegate to.
pub trait Hittable {
    fn hit(&self, ray: &Ray, t_min: i64, t_max: i64) -> Option<HitRecord>;
}

/// The scene's geometric primitives, a closed set with one member.
#[derive(Clone, Copy, PartialEq, Eq, Structural, Debug)]
pub enum Object {
    Sphere { material: Material, center: Vec3, radius: i64 },
}

/// The record a sphere builds for a root accepted at parameter `root`.
pub open spec fn sphere_record(
    ray: Ray,
    material: Material,
    center: V3,
    radius: int,
    root: int,
) -> HitRecV {
    let pos = ray_at(ray, root);
    let outward = v3_div(v3_sub(pos, center), radius);
    hit_record_spec(ray, pos, outward, root, material)
}

/// Mirror of the sphere intersection test. The two candidate roots of the
/// quadratic are tried in order, nearer first; a root qualifies only if it
/// lies strictly inside `(t_min, t_max)`.
pub open spec fn object_hit_spec(obj: Object, ray: Ray, t_min: int, t_max: int) -> Option<
    HitRecV,
> {
    match obj {
        Object::Sphere { material, center, radius } => {
            let oc = v3_sub(ray.origin@, center@);
            let a = v3_len_sq(ray.direction@);
            let half_b = v3_dot(oc, ray.direction@);
            let c = fsub(v3_len_sq(oc), fmul(radius as int, radius as int));
            let disc = fsub(fmul(half_b, half_b), fmul(a, c));
            if disc > 0 && a > 0 {
                let sd = fsqrt(disc);
                let r1 = tdiv((-half_b - sd) * (SCALE as int), a);
                let r2 = tdiv((-half_b + sd) * (SCALE as int), a);
                if t_min < r1 && r1 < t_max {
                    Some(sphere_record(ray, material, center@, radius as int, r1))
                } else if t_min < r2 && r2 < t_max {
                    Some(sphere_record(ray, material, center@, radius as int, r2))
                } else {
                    None
                }
            } else {
                None
            }
        },
    }
}

/// View of an optional hit record.
pub open spec fn opt_hit_view(o: Option<HitRecord>) -> Option<HitRecV> {
    match o {
        Some(h) => Some(h@),
        None => None,
    }
}

/// The quotient `num / a` in ray-parameter units, if it falls strictly
/// inside the window; the quotient is formed at full width, so no bound on
/// it is needed.
fn root_in_window(num: i64, a: i64, t_min: i64, t_max: i64) -> (r: Option<i64>)
    requires
        a > 0,
    ensures
        ({
            let q = tdiv((num as int) * (SCALE as int), a as int);
            if t_min < q && q < t_max {
                r matches Some(v) && v == q
            } else {
                r is None
            }
        }),
{
    proof {
        let lim = 0x8000_0000_0000_0000int;
        assert(-(lim * 65536) <= (num as int) * (SCALE as int) <= lim * 65536)
            by (nonlinear_arith)
            requires -lim <= (num as int) < lim, SCALE as int == 65536;
    }
    let p: i128 = (num as i128) * (SCALE as i128);
    let q: i128 = tdiv_i128(p, a as i128);
    if (t_min as i128) < q && q < (t_max as i128) {
        Some(q as i64)
    } else {
        None
    }
}

/// The "minus" root of the quadratic never exceeds the "plus" root.
proof fn lemma_roots_ordered(half_b: int, sd: int, a: int)
    requires
        sd >= 0,
        a > 0,
    ensures
        tdiv((-half_b - sd) * (SCALE as int), a) <= tdiv((-half_b + sd) * (SCALE as int), a),
{
    assert((-half_b - sd) * (SCALE as int) <= (-half_b + sd) * (SCALE as int))
        by (nonlinear_arith)
        requires sd >= 0, SCALE as int == 65536;
    lemma_tdiv_monotone((-half_b - sd) * (SCALE as int), (-half_b + sd) * (SCALE as int), a);
}

/// Shrinking the window of a test that found nothing still finds nothing.
pub proof fn lemma_object_hit_none_narrow(obj: Object, ray: Ray, t_min: int, w1: int, w2: int)
    requires
        w2 <= w1,
        object_hit_spec(obj, ray, t_min, w1) is None,
    ensures
        object_hit_spec(obj, ray, t_min, w2) is None,
{
}

/// Shrinking the window to at most the accepted parameter leaves no hit:
/// the accepted root was the nearest one inside the window.
pub proof fn lemma_object_hit_narrow_below(obj: Object, ray: Ray, t_min: int, w: int, w2: int)
    requires
        match object_hit_spec(obj, ray, t_min, w) {
            Some(h) => w2 <= h.t,
            None => false,
        },
    ensures
        object_hit_spec(obj, ray, t_min, w2) is None,
{
    match obj {
        Object::Sphere { material, center, radius } => {
            let oc = v3_sub(ray.origin@, center@);
            let a = v3_len_sq(ray.direction@);
            let half_b = v3_dot(oc, ray.direction@);
            let c = fsub(v3_len_sq(oc), fmul(radius as int, radius as int));
            let disc = fsub(fmul(half_b, half_b), fmul(a, c));
            let sd = fsqrt(disc);
            crate::fixed::lemma_fsqrt_props(disc);
            lemma_roots_ordered(half_b, sd, a);
        },
    }
}

impl Object {
    /// The sphere intersection test, exactly the mirror `object_hit_spec`;
    /// any record handed back lies strictly inside the window and its normal
    /// opposes the ray.
    pub fn hit(&self, ray: &Ray, t_min: i64, t_max: i64) -> (res: Option<HitRecord>)
        ensures
            opt_hit_view(res) == object_hit_spec(*self, *ray, t_min as int, t_max as int),
            res matches Some(h) ==> {
                &&& v3_dot(ray.direction@, h@.normal) <= 0
                &&& t_min < h.t < t_max
            },
    {
        match self {
            Object::Sphere { material, center, radius } => {
                let oc = ray.origin.sub(center);
                let a = ray.direction.norm_squared();
                let half_b = oc.dot(&ray.direction);
                let c = crate::fixed::sub_fx(
                    oc.norm_squared(),
                    crate::fixed::mul_fx(*radius, *radius),
                );
                let disc = crate::fixed::sub_fx(
                    crate::fixed::mul_fx(half_b, half_b),
                    crate::fixed::mul_fx(a, c),
                );
                if disc > 0 && a > 0 {
                    proof {
                        crate::vec3::lemma_v3_dot_bounded(oc@, ray.direction@);
                        crate::fixed::lemma_f_ops_bounded(
                            fmul(half_b as int, half_b as int),
                            fmul(a as int, c as int),
                        );
                    }
                    let sd = crate::fixed::sqrt_fx(disc);
                    proof {
                        lemma_fsqrt_props(disc as int);
                        assert((sd as int) <= 0x8000_0000int) by (nonlinear_arith)
                            requires
                                0 <= (sd as int),
                                (sd as int) * (sd as int) <= (disc as int) * 65536,
                                0 < (disc as int) <= 0x4000_0000_0000int;
                    }
                    let num1: i64 = -half_b - sd;
                    let res1 = root_in_window(num1, a, t_min, t_max);
                    match res1 {
                        Some(root) => {
                            Some(self.build_record(ray, root, center, radius, material))
                        },
                        None => {
                            let num2: i64 = -half_b + sd;
                            let res2 = root_in_window(num2, a, t_min, t_max);
                            match res2 {
                                Some(root) => {
                                    Some(self.build_record(ray, root, center, radius, material))
                                },
                                None => None,
                            }
                        },
                    }
                } else {
                    None
                }
            },
        }
    }
}

impl Hittable for Object {
    fn hit(&self, ray: &Ray, t_min: i64, t_max: i64) -> Option<HitRecord> {
        Object::hit(self, ray, t_min, t_max)
    }
}

impl Object {
    /// Builds the hit record for an accepted root.
    fn build_record(&self, ray: &Ray, root: i64, center: &Vec3, radius: &i64, material: &Material)
        -> (r: HitRecord)
        ensures
            r@ == sphere_record(*ray, *material, center@, *radius as int, root as int),
            v3_dot(ray.direction@, r@.normal) <= 0,
    {
        let pos = ray.at(root);
        let outward = pos.sub(center).div(*radius);
        proof {
            lemma_fdiv_bounded(v3_sub(pos@, center@).x, *radius as int);
            lemma_fdiv_bounded(v3_sub(pos@, center@).y, *radius as int);
            lemma_fdiv_bounded(v3_sub(pos@, center@).z, *radius as int);
        }
        HitRecord::new(ray, pos, outward, root, *material)
    }
}

} // verus!
