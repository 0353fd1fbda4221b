//! A ray: a half-line from an origin along a direction, parametrized by a
//! fixed-point scalar `t`.

use vstd::prelude::*;

verus! {

use crate::fixed::{SCALE, lemma_fmul_one, lemma_fmul_zero, lemma_sat_bounded};
use crate::vec3::{Vec3, V3, v3_add, v3_scale, v3_bounded};

#[derive(Clone, Copy, PartialEq, Eq, Structural, Debug)]
pub struct Ray {
    pub origin: Vec3,
    pub direction: Vec3,
}

/// The point a ray reaches at parameter `t`: `origin + t * direction`.
pub open spec fn ray_at(r: Ray, t: int) -> V3 {
    v3_add(r.origin@, v3_scale(r.direction@, t))
}

impl Ray {
    pub fn new(origin: Vec3, direction: Vec3) -> (r: Ray)
        ensures
            r.origin == origin && r.direction == direction,
    {
        Ray { origin, direction }
    }

    pub fn at(&self, t: i64) -> (r: Vec3)
        ensures
            r@ == ray_at(*self, t as int),
    {
        self.origin.add(&self.direction.scale(t))
    }
}

/// Evaluating a ray at parameter zero gives back its origin, and at
/// parameter one the sum of origin and direction: the parametrization is
/// anchored at both ends.
pub proof fn lemma_ray_at_endpoints(r: Ray)
    requires
        v3_bounded(r.origin@),
        v3_bounded(r.direction@),
    ensures
        ray_at(r, 0) == r.origin@,
        ray_at(r, SCALE as int) == v3_add(r.origin@, r.direction@),
{
    lemma_fmul_zero(r.direction@.x);
    lemma_fmul_zero(r.direction@.y);
    lemma_fmul_zero(r.direction@.z);
    lemma_sat_bounded(r.origin@.x + 0);
    lemma_sat_bounded(r.origin@.y + 0);
    lemma_sat_bounded(r.origin@.z + 0);
    lemma_fmul_one(r.direction@.x);
    lemma_fmul_one(r.direction@.y);
    lemma_fmul_one(r.direction@.z);
}

} // verus!
