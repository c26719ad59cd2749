//! The thin-lens camera: maps normalized image-plane coordinates to world
//! rays, from an orthonormal basis, a field-of-view-sized viewport scaled by
//! the focus distance, and a random lens-disk offset for depth of field.

use vstd::prelude::*;

use crate::fixed::fdiv;
use crate::fixed::fdiv_s;
use crate::fixed::fmul;
use crate::fixed::fmul_s;
use crate::fixed::sadd;
use crate::fixed::sadd_s;
use crate::ray::Ray;
use crate::rng::random_in_unit_disk;
use crate::rng::riud_s;
use crate::rng::RngState;
use crate::vec3::cross_s;
use crate::vec3::length_s;
use crate::vec3::minus_s;
use crate::vec3::plus_s;
use crate::vec3::scaled_s;
use crate::vec3::unit_s;
use crate::vec3::Vec3;
use crate::SceneError;

verus! {

/// Radians per degree in fixed-point.
pub const RAD_PER_DEG: i64 = 1144;

/// The tangent, by the small-angle series `x + x^3/3 + 2*x^5/15`; accurate
/// for the half-field-of-view angles a camera uses (below a quarter turn).
pub open spec fn tan_s(x: i64) -> i64 {
    let x2: i64 = fmul_s(x, x);
    let x3: i64 = fmul_s(x2, x);
    let x5: i64 = fmul_s(x3, x2);
    sadd_s(sadd_s(x, fdiv_s(x3, 196608)), fdiv_s(fmul_s(x5, 131072), 983040))
}

/// Derived, immutable ray-generation parameters.
#[derive(Clone, Copy, PartialEq, Eq, Structural, Debug)]
pub struct Camera {
    pub origin: Vec3,
    pub lower_left: Vec3,
    pub horizontal: Vec3,
    pub vertical: Vec3,
    pub u: Vec3,
    pub v: Vec3,
    pub lens_radius: i64,
}

/// A camera construction is degenerate when the eye and target coincide, or
/// the up vector is parallel to the view direction (either way a basis
/// vector's length underflows to zero).
pub open spec fn degenerate_s(lookfrom: Vec3, lookat: Vec3, vup: Vec3) -> bool {
    let wdir: Vec3 = minus_s(lookfrom, lookat);
    length_s(wdir) <= 0 || length_s(cross_s(vup, unit_s(wdir))) <= 0
}

/// The camera derived from eye position, look-at target, up vector, vertical
/// field of view in fixed-point degrees, aspect ratio, aperture and focus
/// distance (meaningful when the construction is not degenerate).
pub open spec fn camera_s(
    lookfrom: Vec3,
    lookat: Vec3,
    vup: Vec3,
    vfov: i64,
    aspect: i64,
    aperture: i64,
    focus_dist: i64,
) -> Camera {
    let w: Vec3 = unit_s(minus_s(lookfrom, lookat));
    let u: Vec3 = unit_s(cross_s(vup, w));
    let v: Vec3 = cross_s(w, u);
    let half_height: i64 = tan_s(fmul_s(fdiv_s(vfov, 131072), RAD_PER_DEG));
    let half_width: i64 = fmul_s(aspect, half_height);
    let hwf: i64 = fmul_s(half_width, focus_dist);
    let hhf: i64 = fmul_s(half_height, focus_dist);
    Camera {
        origin: lookfrom,
        lower_left: minus_s(
            minus_s(minus_s(lookfrom, scaled_s(u, hwf)), scaled_s(v, hhf)),
            scaled_s(w, focus_dist),
        ),
        horizontal: scaled_s(u, sadd_s(hwf, hwf)),
        vertical: scaled_s(v, sadd_s(hhf, hhf)),
        u,
        v,
        lens_radius: fdiv_s(aperture, 131072),
    }
}

/// The ray through image-plane coordinates `(s, t)`, with a random lens-disk
/// offset of the origin; the direction still passes through the same
/// focus-plane point, so the focus plane stays sharp.
pub open spec fn get_ray_s(c: Camera, s: i64, t: i64, seed: u64) -> (Ray, u64) {
    let d: (Vec3, u64) = riud_s(seed, 64);
    let rd: Vec3 = scaled_s(d.0, c.lens_radius);
    let offset: Vec3 = plus_s(scaled_s(c.u, rd.x), scaled_s(c.v, rd.y));
    let dir: Vec3 = minus_s(
        minus_s(
            plus_s(plus_s(c.lower_left, scaled_s(c.horizontal, s)), scaled_s(c.vertical, t)),
            c.origin,
        ),
        offset,
    );
    (Ray { origin: plus_s(c.origin, offset), direction: dir }, d.1)
}

impl Camera {
    /// Derive a camera, rejecting a degenerate basis before rendering can
    /// start.
    pub fn new(
        lookfrom: Vec3,
        lookat: Vec3,
        vup: Vec3,
        vfov: i64,
        aspect: i64,
        aperture: i64,
        focus_dist: i64,
    ) -> (r: Result<Camera, SceneError>)
        ensures
            degenerate_s(lookfrom, lookat, vup) ==> r == Result::<Camera, SceneError>::Err(
                SceneError::DegenerateCamera,
            ),
            !degenerate_s(lookfrom, lookat, vup) ==> r == Result::<Camera, SceneError>::Ok(
                camera_s(lookfrom, lookat, vup, vfov, aspect, aperture, focus_dist),
            ),
    {
        let wdir: Vec3 = lookfrom.minus(lookat);
        if wdir.length() <= 0 {
            return Result::Err(SceneError::DegenerateCamera);
        }
        let w: Vec3 = wdir.unit();
        let cr: Vec3 = vup.cross(w);
        if cr.length() <= 0 {
            return Result::Err(SceneError::DegenerateCamera);
        }
        let u: Vec3 = cr.unit();
        let v: Vec3 = w.cross(u);
        let half_height: i64 = tan_apx(fmul(fdiv(vfov, 131072), RAD_PER_DEG));
        let half_width: i64 = fmul(aspect, half_height);
        let hwf: i64 = fmul(half_width, focus_dist);
        let hhf: i64 = fmul(half_height, focus_dist);
        Result::Ok(
            Camera {
                origin: lookfrom,
                lower_left: lookfrom.minus(u.scaled(hwf)).minus(v.scaled(hhf)).minus(
                    w.scaled(focus_dist),
                ),
                horizontal: u.scaled(sadd(hwf, hwf)),
                vertical: v.scaled(sadd(hhf, hhf)),
                u,
                v,
                lens_radius: fdiv(aperture, 131072),
            },
        )
    }

    /// The world ray through normalized image-plane coordinates `(s, t)`,
    /// jittered over the lens disk for depth of field.
    pub fn get_ray(&self, s: i64, t: i64, rng: &mut RngState) -> (r: Ray)
        ensures
            r == get_ray_s(*self, s, t, old(rng).s).0,
            final(rng).s == get_ray_s(*self, s, t, old(rng).s).1,
    {
        let d: Vec3 = random_in_unit_disk(rng, 64);
        let rd: Vec3 = d.scaled(self.lens_radius);
        let offset: Vec3 = self.u.scaled(rd.x).plus(self.v.scaled(rd.y));
        let dir: Vec3 = self.lower_left.plus(self.horizontal.scaled(s)).plus(
            self.vertical.scaled(t),
        ).minus(self.origin).minus(offset);
        Ray::new(self.origin.plus(offset), dir)
    }
}

/// The tangent by the small-angle series.
pub fn tan_apx(x: i64) -> (r: i64)
    ensures
        r == tan_s(x),
{
    let x2: i64 = fmul(x, x);
    let x3: i64 = fmul(x2, x);
    let x5: i64 = fmul(x3, x2);
    sadd(sadd(x, fdiv(x3, 196608)), fdiv(fmul(x5, 131072), 983040))
}

} // verus!
