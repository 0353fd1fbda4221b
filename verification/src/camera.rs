//! The camera: an immutable configuration derived once from eye position,
//! target, up hint, field of view, aspect ratio, aperture and focus
//! distance, producing a world-space ray for each pair of normalized
//! viewport coordinates. The field of view enters as the tangent of half
//! the vertical angle, a plain fixed-point value the caller supplies.

use vstd::prelude::*;

verus! {

use crate::fixed::{fdiv, fmul, SCALE};
use crate::vec3::{
    Vec3, V3, v3_add, v3_sub, v3_scale, v3_div, v3_cross, v3_unit, v3_len_sq,
};
use crate::ray::Ray;
use crate::rng::random_fx;

/// The mathematical model of a camera's derived configuration.
pub struct CameraV {
    pub position: V3,
    pub lower_left_corner: V3,
    pub horizontal: V3,
    pub vertical: V3,
    pub u: V3,
    pub v: V3,
    pub lens_radius: int,
}

pub struct Camera {
    position: Vec3,
    lower_left_corner: Vec3,
    horizontal: Vec3,
    vertical: Vec3,
    u: Vec3,
    v: Vec3,
    lens_radius: i64,
}

impl View for Camera {
    type V = CameraV;

    closed spec fn view(&self) -> CameraV {
        CameraV {
            position: self.position@,
            lower_left_corner: self.lower_left_corner@,
            horizontal: self.horizontal@,
            vertical: self.vertical@,
            u: self.u@,
            v: self.v@,
            lens_radius: self.lens_radius as int,
        }
    }
}

/// The configuration derived from the construction parameters: the
/// orthonormal-in-intent basis `(u, v, w)` with `w` from target to eye, the
/// viewport spans scaled by the focus distance, and the viewport's lower
/// left corner. A degenerate up hint parallel to `w` yields a zero basis
/// vector rather than an error, as a division by a zero length yields zero.
pub open spec fn camera_spec(
    look_from: V3,
    look_at: V3,
    vup: V3,
    tan_half_vfov: int,
    aspect: int,
    aperture: int,
    focus_distance: int,
) -> CameraV {
    let viewport_height = fmul(2 * (SCALE as int), tan_half_vfov);
    let viewport_width = fmul(viewport_height, aspect);
    let w = v3_unit(v3_sub(look_from, look_at));
    let u = v3_unit(v3_cross(vup, w));
    let v = v3_cross(w, u);
    let horizontal = v3_scale(v3_scale(u, focus_distance), viewport_width);
    let vertical = v3_scale(v3_scale(v, focus_distance), viewport_height);
    CameraV {
        position: look_from,
        lower_left_corner: v3_sub(
            v3_sub(
                v3_sub(look_from, v3_div(horizontal, 2 * (SCALE as int))),
                v3_div(vertical, 2 * (SCALE as int)),
            ),
            v3_scale(w, focus_distance),
        ),
        horizontal,
        vertical,
        u,
        v,
        lens_radius: fdiv(aperture, 2 * (SCALE as int)),
    }
}

/// A vector in the open unit disk of the lens plane.
pub open spec fn in_unit_disk(d: V3) -> bool {
    &&& -(SCALE as int) <= d.x <= SCALE as int
    &&& -(SCALE as int) <= d.y <= SCALE as int
    &&& d.z == 0
    &&& v3_len_sq(d) < SCALE as int
}

/// The origin offset induced by a lens sample.
pub open spec fn camera_offset(cam: CameraV, d: V3) -> V3 {
    let rd = v3_scale(d, cam.lens_radius);
    v3_add(v3_scale(cam.u, rd.x), v3_scale(cam.v, rd.y))
}

/// Where a ray for viewport coordinates `(s, t)` and lens sample `d` starts.
pub open spec fn camera_ray_origin(cam: CameraV, d: V3) -> V3 {
    v3_add(cam.position, camera_offset(cam, d))
}

/// Where such a ray aims: at the viewport point for `(s, t)`, back from the
/// offset origin.
pub open spec fn camera_ray_direction(cam: CameraV, s: int, t: int, d: V3) -> V3 {
    v3_sub(
        v3_sub(
            v3_add(
                v3_add(cam.lower_left_corner, v3_scale(cam.horizontal, s)),
                v3_scale(cam.vertical, t),
            ),
            cam.position,
        ),
        camera_offset(cam, d),
    )
}

/// A lens sample: a draw from the open unit disk. A bounded number of
/// rejection rounds is tried; if all fail, the disk's center is returned,
/// which the contract also admits.
fn random_in_unit_disk() -> (r: Vec3)
    ensures
        in_unit_disk(r@),
{
    let mut tries: usize = 0;
    while tries < 64
        invariant
            tries <= 64,
        decreases 64 - tries,
    {
        let p = Vec3::new(random_fx(-SCALE, SCALE), random_fx(-SCALE, SCALE), 0);
        if p.norm_squared() < SCALE {
            return p;
        }
        tries = tries + 1;
    }
    let center = Vec3::new(0, 0, 0);
    proof {
        crate::fixed::lemma_fmul_zero(0);
        crate::fixed::lemma_sat_bounded(
            crate::fixed::fmul(0, 0) + crate::fixed::fmul(0, 0),
        );
    }
    center
}

impl Camera {
    /// Derives the camera configuration; `tan_half_vfov` is the tangent of
    /// half the vertical field of view, in fixed-point units.
    pub fn new(
        look_from: Vec3,
        look_at: Vec3,
        vup: Vec3,
        tan_half_vfov: i64,
        aspect_r: i64,
        aperture: i64,
        focus_distance: i64,
    ) -> (c: Camera)
        ensures
            c@ == camera_spec(
                look_from@,
                look_at@,
                vup@,
                tan_half_vfov as int,
                aspect_r as int,
                aperture as int,
                focus_distance as int,
            ),
    {
        let viewport_height: i64 = crate::fixed::mul_fx(2 * SCALE, tan_half_vfov);
        let viewport_width: i64 = crate::fixed::mul_fx(viewport_height, aspect_r);
        let w = look_from.sub(&look_at).normalize();
        let u = vup.cross(&w).normalize();
        let v = w.cross(&u);
        let horizontal = u.scale(focus_distance).scale(viewport_width);
        let vertical = v.scale(focus_distance).scale(viewport_height);
        Camera {
            position: look_from,
            lower_left_corner: look_from
                .sub(&horizontal.div(2 * SCALE))
                .sub(&vertical.div(2 * SCALE))
                .sub(&w.scale(focus_distance)),
            horizontal,
            vertical,
            u,
            v,
            lens_radius: crate::fixed::div_fx(aperture, 2 * SCALE),
        }
    }

    /// A ray for the normalized viewport coordinates `(s, t)`, its origin
    /// blurred by a random lens sample for depth of field.
    pub fn new_ray(&self, s: i64, t: i64) -> (r: Ray)
        ensures
            exists|d: V3|
                in_unit_disk(d) && r.origin@ == camera_ray_origin(self@, d) && r.direction@
                    == camera_ray_direction(self@, s as int, t as int, d),
    {
        let rd = random_in_unit_disk().scale(self.lens_radius);
        let offset = self.u.scale(rd.x).add(&self.v.scale(rd.y));
        Ray::new(
            self.position.add(&offset),
            self
                .lower_left_corner
                .add(&self.horizontal.scale(s))
                .add(&self.vertical.scale(t))
                .sub(&self.position)
                .sub(&offset),
        )
    }
}

} // verus!
