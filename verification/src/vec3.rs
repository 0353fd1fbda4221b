//! Three-component vectors over the saturating fixed-point scalars, used for
//! points, directions and offsets alike. Each executable operation is exact
//! with respect to its ghost counterpart on the mathematical model `V3`.

use vstd::prelude::*;

verus! {

use crate::fixed::{
    fadd, fsub, fneg, fmul, fdiv, fsqrt, fx_bounded,
    lemma_sat_bounded, lemma_fmul_neg, lemma_fmul_square_nonneg,
};

/// The mathematical model of a vector: unbounded integer components, each
/// the `SCALE`-multiple of the coordinate it stands for.
pub struct V3 {
    pub x: int,
    pub y: int,
    pub z: int,
}

/// A vector of three fixed-point scalars.
#[derive(Clone, Copy, PartialEq, Eq, Structural, Debug)]
pub struct Vec3 {
    pub x: i64,
    pub y: i64,
    pub z: i64,
}

impl View for Vec3 {
    type V = V3;

    open spec fn view(&self) -> V3 {
        V3 { x: self.x as int, y: self.y as int, z: self.z as int }
    }
}

pub open spec fn v3_bounded(v: V3) -> bool {
    &&& fx_bounded(v.x)
    &&& fx_bounded(v.y)
    &&& fx_bounded(v.z)
}

pub open spec fn v3_add(a: V3, b: V3) -> V3 {
    V3 { x: fadd(a.x, b.x), y: fadd(a.y, b.y), z: fadd(a.z, b.z) }
}

pub open spec fn v3_sub(a: V3, b: V3) -> V3 {
    V3 { x: fsub(a.x, b.x), y: fsub(a.y, b.y), z: fsub(a.z, b.z) }
}

pub open spec fn v3_neg(a: V3) -> V3 {
    V3 { x: fneg(a.x), y: fneg(a.y), z: fneg(a.z) }
}

pub open spec fn v3_scale(a: V3, k: int) -> V3 {
    V3 { x: fmul(a.x, k), y: fmul(a.y, k), z: fmul(a.z, k) }
}

pub open spec fn v3_div(a: V3, k: int) -> V3 {
    V3 { x: fdiv(a.x, k), y: fdiv(a.y, k), z: fdiv(a.z, k) }
}

pub open spec fn v3_dot(a: V3, b: V3) -> int {
    fadd(fadd(fmul(a.x, b.x), fmul(a.y, b.y)), fmul(a.z, b.z))
}

pub open spec fn v3_len_sq(a: V3) -> int {
    v3_dot(a, a)
}

pub open spec fn v3_len(a: V3) -> int {
    fsqrt(v3_len_sq(a))
}

/// The unit vector along `a`: zero when `a` is too short to carry a
/// direction (its fixed-point length rounds to zero).
pub open spec fn v3_unit(a: V3) -> V3 {
    v3_div(a, v3_len(a))
}

pub open spec fn v3_cross(a: V3, b: V3) -> V3 {
    V3 {
        x: fsub(fmul(a.y, b.z), fmul(a.z, b.y)),
        y: fsub(fmul(a.z, b.x), fmul(a.x, b.z)),
        z: fsub(fmul(a.x, b.y), fmul(a.y, b.x)),
    }
}

/// A difference of vectors is always representable.
pub proof fn lemma_v3_sub_bounded(a: V3, b: V3)
    ensures
        v3_bounded(v3_sub(a, b)),
{
    lemma_sat_bounded(a.x - b.x);
    lemma_sat_bounded(a.y - b.y);
    lemma_sat_bounded(a.z - b.z);
}

/// A dot product is always representable.
pub proof fn lemma_v3_dot_bounded(a: V3, b: V3)
    ensures
        fx_bounded(v3_dot(a, b)),
{
    lemma_sat_bounded(fadd(fmul(a.x, b.x), fmul(a.y, b.y)) + fmul(a.z, b.z));
}

/// Negating one argument of a dot product negates it, provided the negation
/// itself is exact (the negated argument stays within the scalar range).
pub proof fn lemma_v3_dot_neg_left(a: V3, b: V3)
    requires
        v3_bounded(a),
    ensures
        v3_dot(v3_neg(a), b) == -v3_dot(a, b),
{
    lemma_fmul_neg(a.x, b.x);
    lemma_fmul_neg(a.y, b.y);
    lemma_fmul_neg(a.z, b.z);
    let px = fmul(a.x, b.x);
    let py = fmul(a.y, b.y);
    let pz = fmul(a.z, b.z);
    lemma_sat_bounded(px + py);
    lemma_sat_bounded(-px + -py);
    lemma_sat_bounded(fadd(px, py) + pz);
}

/// Negation keeps the squared length.
pub proof fn lemma_v3_len_sq_neg(a: V3)
    requires
        v3_bounded(a),
    ensures
        v3_len_sq(v3_neg(a)) == v3_len_sq(a),
{
    lemma_fmul_square_nonneg(a.x);
    lemma_fmul_square_nonneg(a.y);
    lemma_fmul_square_nonneg(a.z);
}

impl Vec3 {
    pub fn new(x: i64, y: i64, z: i64) -> (r: Vec3)
        ensures
            r.x == x && r.y == y && r.z == z,
    {
        Vec3 { x, y, z }
    }

    pub fn add(&self, o: &Vec3) -> (r: Vec3)
        ensures
            r@ == v3_add(self@, o@),
    {
        Vec3 {
            x: crate::fixed::add_fx(self.x, o.x),
            y: crate::fixed::add_fx(self.y, o.y),
            z: crate::fixed::add_fx(self.z, o.z),
        }
    }

    pub fn sub(&self, o: &Vec3) -> (r: Vec3)
        ensures
            r@ == v3_sub(self@, o@),
    {
        Vec3 {
            x: crate::fixed::sub_fx(self.x, o.x),
            y: crate::fixed::sub_fx(self.y, o.y),
            z: crate::fixed::sub_fx(self.z, o.z),
        }
    }

    pub fn neg(&self) -> (r: Vec3)
        ensures
            r@ == v3_neg(self@),
    {
        Vec3 {
            x: crate::fixed::neg_fx(self.x),
            y: crate::fixed::neg_fx(self.y),
            z: crate::fixed::neg_fx(self.z),
        }
    }

    pub fn scale(&self, k: i64) -> (r: Vec3)
        ensures
            r@ == v3_scale(self@, k as int),
    {
        Vec3 {
            x: crate::fixed::mul_fx(self.x, k),
            y: crate::fixed::mul_fx(self.y, k),
            z: crate::fixed::mul_fx(self.z, k),
        }
    }

    pub fn div(&self, k: i64) -> (r: Vec3)
        ensures
            r@ == v3_div(self@, k as int),
    {
        Vec3 {
            x: crate::fixed::div_fx(self.x, k),
            y: crate::fixed::div_fx(self.y, k),
            z: crate::fixed::div_fx(self.z, k),
        }
    }

    pub fn dot(&self, o: &Vec3) -> (r: i64)
        ensures
            r == v3_dot(self@, o@),
    {
        let px: i64 = crate::fixed::mul_fx(self.x, o.x);
        let py: i64 = crate::fixed::mul_fx(self.y, o.y);
        let pz: i64 = crate::fixed::mul_fx(self.z, o.z);
        crate::fixed::add_fx(crate::fixed::add_fx(px, py), pz)
    }

    pub fn cross(&self, o: &Vec3) -> (r: Vec3)
        ensures
            r@ == v3_cross(self@, o@),
    {
        Vec3 {
            x: crate::fixed::sub_fx(
                crate::fixed::mul_fx(self.y, o.z),
                crate::fixed::mul_fx(self.z, o.y),
            ),
            y: crate::fixed::sub_fx(
                crate::fixed::mul_fx(self.z, o.x),
                crate::fixed::mul_fx(self.x, o.z),
            ),
            z: crate::fixed::sub_fx(
                crate::fixed::mul_fx(self.x, o.y),
                crate::fixed::mul_fx(self.y, o.x),
            ),
        }
    }

    pub fn norm_squared(&self) -> (r: i64)
        ensures
            r == v3_len_sq(self@),
    {
        self.dot(self)
    }

    pub fn norm(&self) -> (r: i64)
        ensures
            r == v3_len(self@),
    {
        crate::fixed::sqrt_fx(self.norm_squared())
    }

    pub fn normalize(&self) -> (r: Vec3)
        ensures
            r@ == v3_unit(self@),
    {
        self.div(self.norm())
    }
}

} // verus!
