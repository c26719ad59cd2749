//! The scene graph: spheres and an ordered collection of them, with
//! nearest-intersection queries over a distance interval.

use vstd::prelude::*;

use crate::fixed::fdiv_s;
use crate::fixed::fmul;
use crate::fixed::fmul_s;
use crate::fixed::fsqrt;
use crate::fixed::fsqrt_s;
use crate::fixed::sadd;
use crate::fixed::sadd_s;
use crate::fixed::sneg;
use crate::fixed::sneg_s;
use crate::fixed::ssub;
use crate::fixed::ssub_s;
use crate::material::Material;
use crate::ray::point_at_s;
use crate::ray::Ray;
use crate::vec3::divided_s;
use crate::vec3::minus_s;
use crate::vec3::Vec3;
use crate::SceneError;

verus! {

/// One intersection: the distance `t` along the ray, the hit point, and the
/// outward surface normal there.
#[derive(Clone, Copy, PartialEq, Eq, Structural, Debug)]
pub struct HitRecord {
    pub t: i64,
    pub p: Vec3,
    pub normal: Vec3,
}

/// A sphere with a strictly positive radius and a surface material.
#[derive(Clone, Copy, PartialEq, Eq, Structural, Debug)]
pub struct Sphere {
    pub center: Vec3,
    pub radius: i64,
    pub material: Material,
}

/// The hit record for the point at parameter `t` on a sphere's surface.
pub open spec fn sphere_record_s(sp: Sphere, r: Ray, t: i64) -> HitRecord {
    let p: Vec3 = point_at_s(r, t);
    HitRecord { t, p, normal: divided_s(minus_s(p, sp.center), sp.radius) }
}

/// Ray/sphere intersection: the quadratic from substituting the ray equation
/// into the sphere equation; a real root within `(t_min, t_max)` is a hit,
/// the nearer root preferred, the farther one tried when the nearer falls
/// outside the interval.
pub open spec fn hit_sphere_s(sp: Sphere, r: Ray, t_min: i64, t_max: i64) -> Option<HitRecord> {
    let oc: Vec3 = minus_s(r.origin, sp.center);
    let a: i64 = crate::vec3::dot_s(r.direction, r.direction);
    let b: i64 = crate::vec3::dot_s(oc, r.direction);
    let c: i64 = ssub_s(crate::vec3::dot_s(oc, oc), fmul_s(sp.radius, sp.radius));
    let disc: i64 = ssub_s(fmul_s(b, b), fmul_s(a, c));
    if a > 0 && disc > 0 {
        let sq: i64 = fsqrt_s(disc);
        let t1: i64 = fdiv_s(ssub_s(sneg_s(b), sq), a);
        if t_min < t1 && t1 < t_max {
            Some(sphere_record_s(sp, r, t1))
        } else {
            let t2: i64 = fdiv_s(sadd_s(sneg_s(b), sq), a);
            if t_min < t2 && t2 < t_max {
                Some(sphere_record_s(sp, r, t2))
            } else {
                None
            }
        }
    } else {
        None
    }
}

/// The nearest hit over the spheres from index `i` on, given the nearest
/// bound `closest` and best candidate `best` found among the earlier ones.
/// Later spheres must beat the current bound strictly, so exact ties keep
/// the earliest sphere in collection order.
pub open spec fn hit_list_from(
    s: Seq<Sphere>,
    i: int,
    r: Ray,
    t_min: i64,
    closest: i64,
    best: Option<(HitRecord, Material)>,
) -> Option<(HitRecord, Material)>
    decreases s.len() - i,
{
    if i < 0 || i >= s.len() {
        best
    } else {
        match hit_sphere_s(s[i], r, t_min, closest) {
            Some(h) => hit_list_from(s, i + 1, r, t_min, h.t, Some((h, s[i].material))),
            None => hit_list_from(s, i + 1, r, t_min, closest, best),
        }
    }
}

/// The globally nearest valid hit over a whole scene, or `None` when the ray
/// escapes every sphere.
pub open spec fn hit_list_s(s: Seq<Sphere>, r: Ray, t_min: i64, t_max: i64) -> Option<
    (HitRecord, Material),
> {
    hit_list_from(s, 0, r, t_min, t_max, None)
}

impl Sphere {
    /// A valid sphere: strictly positive radius and in-range material
    /// parameters.
    pub open spec fn wf(self) -> bool {
        self.radius > 0 && self.material.wf()
    }

    /// Build a sphere, rejecting degenerate geometry and out-of-range
    /// material parameters before rendering can start.
    pub fn new(center: Vec3, radius: i64, material: Material) -> (r: Result<Sphere, SceneError>)
        ensures
            radius <= 0 ==> r == Result::<Sphere, SceneError>::Err(SceneError::NonPositiveRadius),
            radius > 0 && !material.wf() ==> r == Result::<Sphere, SceneError>::Err(
                SceneError::InvalidMaterial,
            ),
            radius > 0 && material.wf() ==> r == Result::<Sphere, SceneError>::Ok(
                Sphere { center, radius, material },
            ),
    {
        if radius <= 0 {
            Result::Err(SceneError::NonPositiveRadius)
        } else if !material.check() {
            Result::Err(SceneError::InvalidMaterial)
        } else {
            Result::Ok(Sphere { center, radius, material })
        }
    }

    /// The nearest intersection of `r` with this sphere within
    /// `(t_min, t_max)`, if any.
    pub fn hit(&self, r: &Ray, t_min: i64, t_max: i64) -> (h: Option<HitRecord>)
        requires
            self.radius > 0,
        ensures
            h == hit_sphere_s(*self, *r, t_min, t_max),
    {
        let oc: Vec3 = r.origin.minus(self.center);
        let a: i64 = r.direction.dot(r.direction);
        let b: i64 = oc.dot(r.direction);
        let c: i64 = ssub(oc.dot(oc), fmul(self.radius, self.radius));
        let disc: i64 = ssub(fmul(b, b), fmul(a, c));
        if a > 0 && disc > 0 {
            let sq: i64 = fsqrt(disc);
            let t1: i64 = crate::fixed::fdiv(ssub(sneg(b), sq), a);
            if t_min < t1 && t1 < t_max {
                Some(self.record_at(r, t1))
            } else {
                let t2: i64 = crate::fixed::fdiv(sadd(sneg(b), sq), a);
                if t_min < t2 && t2 < t_max {
                    Some(self.record_at(r, t2))
                } else {
                    None
                }
            }
        } else {
            None
        }
    }

    /// The hit record at parameter `t` on this sphere's surface.
    fn record_at(&self, r: &Ray, t: i64) -> (h: HitRecord)
        requires
            self.radius > 0,
        ensures
            h == sphere_record_s(*self, *r, t),
    {
        let p: Vec3 = r.point_at(t);
        HitRecord { t, p, normal: p.minus(self.center).divided(self.radius) }
    }
}

/// A sphere intersection, when it exists, lies strictly inside the queried
/// interval.
pub proof fn lemma_hit_sphere_range(sp: Sphere, r: Ray, t_min: i64, t_max: i64)
    ensures
        hit_sphere_s(sp, r, t_min, t_max) is Some ==> t_min < hit_sphere_s(
            sp,
            r,
            t_min,
            t_max,
        )->Some_0.t < t_max,
{
}

proof fn lemma_hit_list_from_range(
    s: Seq<Sphere>,
    i: int,
    r: Ray,
    t_min: i64,
    closest: i64,
    best: Option<(HitRecord, Material)>,
    t_max: i64,
)
    requires
        closest <= t_max,
        best is Some ==> t_min < best->Some_0.0.t < t_max,
    ensures
        hit_list_from(s, i, r, t_min, closest, best) is Some ==> t_min < hit_list_from(
            s,
            i,
            r,
            t_min,
            closest,
            best,
        )->Some_0.0.t < t_max,
    decreases s.len() - i,
{
    if 0 <= i < s.len() {
        lemma_hit_sphere_range(s[i], r, t_min, closest);
        match hit_sphere_s(s[i], r, t_min, closest) {
            Some(h) => {
                lemma_hit_list_from_range(s, i + 1, r, t_min, h.t, Some((h, s[i].material)), t_max);
            },
            None => {
                lemma_hit_list_from_range(s, i + 1, r, t_min, closest, best, t_max);
            },
        }
    }
}

/// A scene intersection, when it exists, lies strictly inside the queried
/// interval: the nearest-hit scan never hands back a hit at or beyond the
/// current bound.
pub proof fn law_hit_within_interval(s: Seq<Sphere>, r: Ray, t_min: i64, t_max: i64)
    ensures
        hit_list_s(s, r, t_min, t_max) is Some ==> t_min < hit_list_s(
            s,
            r,
            t_min,
            t_max,
        )->Some_0.0.t < t_max,
{
    lemma_hit_list_from_range(s, 0, r, t_min, t_max, None, t_max);
}

/// The two quadratic roots a sphere query considers are ordered: the one
/// built from `-b - sqrt(disc)` never exceeds the one from `-b + sqrt(disc)`.
proof fn lemma_hit_sphere_roots_ordered(sp: Sphere, r: Ray, t_min: i64)
    ensures
        ({
            let oc: Vec3 = minus_s(r.origin, sp.center);
            let a: i64 = crate::vec3::dot_s(r.direction, r.direction);
            let b: i64 = crate::vec3::dot_s(oc, r.direction);
            let c: i64 = ssub_s(crate::vec3::dot_s(oc, oc), fmul_s(sp.radius, sp.radius));
            let disc: i64 = ssub_s(fmul_s(b, b), fmul_s(a, c));
            a > 0 ==> fdiv_s(ssub_s(sneg_s(b), fsqrt_s(disc)), a) <= fdiv_s(
                sadd_s(sneg_s(b), fsqrt_s(disc)),
                a,
            )
        }),
{
    let oc: Vec3 = minus_s(r.origin, sp.center);
    let a: i64 = crate::vec3::dot_s(r.direction, r.direction);
    let b: i64 = crate::vec3::dot_s(oc, r.direction);
    let c: i64 = ssub_s(crate::vec3::dot_s(oc, oc), fmul_s(sp.radius, sp.radius));
    let disc: i64 = ssub_s(fmul_s(b, b), fmul_s(a, c));
    let sq: i64 = fsqrt_s(disc);
    crate::fixed::lemma_fsqrt_s_nonneg(disc);
    crate::fixed::lemma_clip64_monotone(sneg_s(b) as int - sq as int, sneg_s(b) as int + sq as int);
    if a > 0 {
        crate::fixed::lemma_fdiv_monotone(ssub_s(sneg_s(b), sq), sadd_s(sneg_s(b), sq), a);
    }
}

/// Once a sphere has answered a query with a hit at `t`, re-querying it with
/// any upper bound at or below `t` finds nothing nearer.
proof fn lemma_hit_sphere_requery_none(sp: Sphere, r: Ray, t_min: i64, c: i64, c2: i64)
    requires
        hit_sphere_s(sp, r, t_min, c) is Some,
        c2 <= hit_sphere_s(sp, r, t_min, c)->Some_0.t,
    ensures
        hit_sphere_s(sp, r, t_min, c2) is None,
{
    lemma_hit_sphere_roots_ordered(sp, r, t_min);
}

/// A sphere that misses a query keeps missing when the interval shrinks.
proof fn lemma_hit_sphere_shrink_none(sp: Sphere, r: Ray, t_min: i64, c: i64, c2: i64)
    requires
        hit_sphere_s(sp, r, t_min, c) is None,
        c2 <= c,
    ensures
        hit_sphere_s(sp, r, t_min, c2) is None,
{
    lemma_hit_sphere_roots_ordered(sp, r, t_min);
}

/// Once the scan carries a best candidate it never answers `None`.
proof fn lemma_hit_list_from_some_stays(
    s: Seq<Sphere>,
    i: int,
    r: Ray,
    t_min: i64,
    closest: i64,
    best: Option<(HitRecord, Material)>,
)
    requires
        best is Some,
    ensures
        hit_list_from(s, i, r, t_min, closest, best) is Some,
    decreases s.len() - i,
{
    if 0 <= i < s.len() {
        match hit_sphere_s(s[i], r, t_min, closest) {
            Some(h) => {
                lemma_hit_list_from_some_stays(s, i + 1, r, t_min, h.t, Some((h, s[i].material)));
            },
            None => {
                lemma_hit_list_from_some_stays(s, i + 1, r, t_min, closest, best);
            },
        }
    }
}

/// When the best candidate's distance equals the current bound, the scan's
/// answer never lies beyond that bound.
proof fn lemma_hit_list_from_bound(
    s: Seq<Sphere>,
    i: int,
    r: Ray,
    t_min: i64,
    closest: i64,
    best: Option<(HitRecord, Material)>,
)
    requires
        best is Some ==> best->Some_0.0.t == closest,
    ensures
        hit_list_from(s, i, r, t_min, closest, best) is Some ==> hit_list_from(
            s,
            i,
            r,
            t_min,
            closest,
            best,
        )->Some_0.0.t <= closest,
    decreases s.len() - i,
{
    if 0 <= i < s.len() {
        match hit_sphere_s(s[i], r, t_min, closest) {
            Some(h) => {
                lemma_hit_sphere_range(s[i], r, t_min, closest);
                lemma_hit_list_from_bound(s, i + 1, r, t_min, h.t, Some((h, s[i].material)));
            },
            None => {
                lemma_hit_list_from_bound(s, i + 1, r, t_min, closest, best);
            },
        }
    }
}

/// The scan's answer is minimal over the spheres not yet visited: none of
/// them has a hit strictly nearer than the answered distance.
proof fn lemma_hit_list_from_minimal(
    s: Seq<Sphere>,
    i: int,
    r: Ray,
    t_min: i64,
    closest: i64,
    best: Option<(HitRecord, Material)>,
)
    requires
        0 <= i,
        best is Some ==> best->Some_0.0.t == closest,
    ensures
        hit_list_from(s, i, r, t_min, closest, best) is Some ==> forall|k: int|
            i <= k < s.len() ==> (#[trigger] hit_sphere_s(
                s[k],
                r,
                t_min,
                hit_list_from(s, i, r, t_min, closest, best)->Some_0.0.t,
            )) is None,
    decreases s.len() - i,
{
    if i < s.len() {
        let res: Option<(HitRecord, Material)> = hit_list_from(s, i, r, t_min, closest, best);
        match hit_sphere_s(s[i], r, t_min, closest) {
            Some(h) => {
                lemma_hit_sphere_range(s[i], r, t_min, closest);
                lemma_hit_list_from_some_stays(s, i + 1, r, t_min, h.t, Some((h, s[i].material)));
                lemma_hit_list_from_bound(s, i + 1, r, t_min, h.t, Some((h, s[i].material)));
                lemma_hit_list_from_minimal(s, i + 1, r, t_min, h.t, Some((h, s[i].material)));
                lemma_hit_sphere_requery_none(s[i], r, t_min, closest, res->Some_0.0.t);
            },
            None => {
                lemma_hit_list_from_bound(s, i + 1, r, t_min, closest, best);
                lemma_hit_list_from_minimal(s, i + 1, r, t_min, closest, best);
                if res is Some {
                    lemma_hit_sphere_shrink_none(s[i], r, t_min, closest, res->Some_0.0.t);
                }
            },
        }
    }
}

/// A scan that answers `None` saw every sphere miss the full interval.
proof fn lemma_hit_list_from_all_miss(s: Seq<Sphere>, i: int, r: Ray, t_min: i64, closest: i64)
    requires
        0 <= i,
    ensures
        hit_list_from(s, i, r, t_min, closest, None) is None ==> forall|k: int|
            i <= k < s.len() ==> (#[trigger] hit_sphere_s(s[k], r, t_min, closest)) is None,
    decreases s.len() - i,
{
    if i < s.len() {
        match hit_sphere_s(s[i], r, t_min, closest) {
            Some(h) => {
                lemma_hit_list_from_some_stays(s, i + 1, r, t_min, h.t, Some((h, s[i].material)));
            },
            None => {
                lemma_hit_list_from_all_miss(s, i + 1, r, t_min, closest);
            },
        }
    }
}

/// The scene query returns the globally nearest valid hit: when it answers a
/// hit at distance `t`, no sphere in the scene intersects the ray strictly
/// nearer than `t`; and when it answers `None`, every sphere misses the
/// whole interval.
pub proof fn law_nearest_hit(s: Seq<Sphere>, r: Ray, t_min: i64, t_max: i64)
    ensures
        hit_list_s(s, r, t_min, t_max) is Some ==> forall|k: int|
            0 <= k < s.len() ==> (#[trigger] hit_sphere_s(
                s[k],
                r,
                t_min,
                hit_list_s(s, r, t_min, t_max)->Some_0.0.t,
            )) is None,
        hit_list_s(s, r, t_min, t_max) is None ==> forall|k: int|
            0 <= k < s.len() ==> (#[trigger] hit_sphere_s(s[k], r, t_min, t_max)) is None,
{
    lemma_hit_list_from_minimal(s, 0, r, t_min, t_max, None);
    lemma_hit_list_from_all_miss(s, 0, r, t_min, t_max);
}

/// A ray aimed straight at a sphere's center from outside hits it at exactly
/// the center distance minus the radius. Stated for the exactly representable
/// family: a unit direction along the z axis, with center offset `256 * j`
/// and radius `256 * m` (so squares and square roots incur no rounding).
pub proof fn law_head_on_hit(o: Vec3, j: int, m: int, mat: Material)
    requires
        0 < m < j <= 0x100000,
        -0x10000000000 <= o.x <= 0x10000000000,
        -0x10000000000 <= o.y <= 0x10000000000,
        -0x10000000000 <= o.z <= 0x10000000000,
    ensures
        ({
            let sp: Sphere = (Sphere {
                center: (Vec3 { x: o.x, y: o.y, z: (o.z + 256 * j) as i64 }),
                radius: (256 * m) as i64,
                material: mat,
            });
            let ray: Ray = (Ray { origin: o, direction: (Vec3 { x: 0, y: 0, z: 65536 }) });
            hit_sphere_s(sp, ray, 65, i64::MAX) == Some(
                sphere_record_s(sp, ray, (256 * (j - m)) as i64),
            )
        }),
{
    let dz: i64 = (256 * j) as i64;
    let rad: i64 = (256 * m) as i64;
    let sp: Sphere = Sphere {
        center: Vec3 { x: o.x, y: o.y, z: (o.z + 256 * j) as i64 },
        radius: rad,
        material: mat,
    };
    let ray: Ray = Ray { origin: o, direction: Vec3 { x: 0, y: 0, z: 65536 } };
    let oc: Vec3 = minus_s(ray.origin, sp.center);
    assert(oc.x == 0 && oc.y == 0 && oc.z == -dz);
    assert((256 * j) * (256 * j) == 65536 * (j * j)) by (nonlinear_arith);
    assert((256 * m) * (256 * m) == 65536 * (m * m)) by (nonlinear_arith);
    assert(0 < j * j <= 0x10000000000) by (nonlinear_arith)
        requires
            0 < j <= 0x100000,
    ;
    assert(0 < m * m <= 0x10000000000) by (nonlinear_arith)
        requires
            0 < m <= 0x100000,
    ;
    assert(m * m < j * j) by (nonlinear_arith)
        requires
            0 < m < j,
    ;
    crate::fixed::lemma_fmul_one(65536);
    let a: i64 = crate::vec3::dot_s(ray.direction, ray.direction);
    assert(a == 65536);
    crate::fixed::lemma_fmul_one(oc.z);
    let b: i64 = crate::vec3::dot_s(oc, ray.direction);
    assert(b == -dz);
    assert((-dz) as int * (-dz) as int == (256 * j) * (256 * j)) by (nonlinear_arith)
        requires
            dz == 256 * j,
    ;
    crate::fixed::lemma_div_trunc_scale_exact(j * j);
    assert(fmul_s(oc.z, oc.z) == j * j);
    crate::fixed::lemma_div_trunc_scale_exact(m * m);
    assert(fmul_s(rad, rad) == m * m);
    let c: i64 = ssub_s(crate::vec3::dot_s(oc, oc), fmul_s(sp.radius, sp.radius));
    assert(c == j * j - m * m);
    crate::fixed::lemma_div_trunc_scale_exact(c as int);
    assert(fmul_s(a, c) == c);
    assert(fmul_s(b, b) == j * j);
    let disc: i64 = ssub_s(fmul_s(b, b), fmul_s(a, c));
    assert(disc == m * m);
    assert((m * m) * 65536 == (256 * m) * (256 * m)) by (nonlinear_arith);
    crate::fixed::lemma_isqrt_perfect(256 * m);
    assert(fsqrt_s(disc) == rad);
    crate::fixed::lemma_fdiv_one(ssub_s(sneg_s(b), rad));
    assert(fdiv_s(ssub_s(sneg_s(b), fsqrt_s(disc)), a) == dz - rad);
    assert(65 < dz - rad < i64::MAX);
}

/// A ray whose perpendicular offset from a sphere's center exceeds the
/// radius misses the sphere entirely: the discriminant is negative. Stated
/// for the same exactly representable family, with the center offset
/// sideways by `256 * i` against a radius of `256 * m` with `i > m`.
pub proof fn law_perpendicular_miss(o: Vec3, i: int, j: int, m: int, mat: Material)
    requires
        0 < m < i <= 0x100000,
        0 < j <= 0x100000,
        -0x10000000000 <= o.x <= 0x10000000000,
        -0x10000000000 <= o.y <= 0x10000000000,
        -0x10000000000 <= o.z <= 0x10000000000,
    ensures
        ({
            let sp: Sphere = (Sphere {
                center: (Vec3 {
                    x: (o.x + 256 * i) as i64,
                    y: o.y,
                    z: (o.z + 256 * j) as i64,
                }),
                radius: (256 * m) as i64,
                material: mat,
            });
            let ray: Ray = (Ray { origin: o, direction: (Vec3 { x: 0, y: 0, z: 65536 }) });
            hit_sphere_s(sp, ray, 65, i64::MAX) is None
        }),
{
    let dx: i64 = (256 * i) as i64;
    let dz: i64 = (256 * j) as i64;
    let rad: i64 = (256 * m) as i64;
    let sp: Sphere = Sphere {
        center: Vec3 { x: (o.x + 256 * i) as i64, y: o.y, z: (o.z + 256 * j) as i64 },
        radius: rad,
        material: mat,
    };
    let ray: Ray = Ray { origin: o, direction: Vec3 { x: 0, y: 0, z: 65536 } };
    let oc: Vec3 = minus_s(ray.origin, sp.center);
    assert(oc.x == -dx && oc.y == 0 && oc.z == -dz);
    assert((256 * i) * (256 * i) == 65536 * (i * i)) by (nonlinear_arith);
    assert((256 * j) * (256 * j) == 65536 * (j * j)) by (nonlinear_arith);
    assert((256 * m) * (256 * m) == 65536 * (m * m)) by (nonlinear_arith);
    assert(0 < i * i <= 0x10000000000) by (nonlinear_arith)
        requires
            0 < i <= 0x100000,
    ;
    assert(0 < j * j <= 0x10000000000) by (nonlinear_arith)
        requires
            0 < j <= 0x100000,
    ;
    assert(0 < m * m <= 0x10000000000) by (nonlinear_arith)
        requires
            0 < m <= 0x100000,
    ;
    assert(m * m < i * i) by (nonlinear_arith)
        requires
            0 < m < i,
    ;
    crate::fixed::lemma_fmul_one(65536);
    let a: i64 = crate::vec3::dot_s(ray.direction, ray.direction);
    assert(a == 65536);
    crate::fixed::lemma_fmul_one(oc.z);
    let b: i64 = crate::vec3::dot_s(oc, ray.direction);
    assert(b == -dz);
    assert((-dx) as int * (-dx) as int == (256 * i) * (256 * i)) by (nonlinear_arith)
        requires
            dx == 256 * i,
    ;
    assert((-dz) as int * (-dz) as int == (256 * j) * (256 * j)) by (nonlinear_arith)
        requires
            dz == 256 * j,
    ;
    crate::fixed::lemma_div_trunc_scale_exact(i * i);
    assert(fmul_s(oc.x, oc.x) == i * i);
    crate::fixed::lemma_div_trunc_scale_exact(j * j);
    assert(fmul_s(oc.z, oc.z) == j * j);
    crate::fixed::lemma_div_trunc_scale_exact(m * m);
    assert(fmul_s(rad, rad) == m * m);
    let c: i64 = ssub_s(crate::vec3::dot_s(oc, oc), fmul_s(sp.radius, sp.radius));
    assert(c == i * i + j * j - m * m);
    crate::fixed::lemma_div_trunc_scale_exact(c as int);
    assert(fmul_s(a, c) == c);
    assert(fmul_s(b, b) == j * j);
    let disc: i64 = ssub_s(fmul_s(b, b), fmul_s(a, c));
    assert(disc == m * m - i * i);
    assert(disc < 0);
}

/// An ordered collection of spheres, built once and read-only afterwards.
pub struct HitableList {
    pub list: Vec<Sphere>,
}

impl HitableList {
    /// Every sphere in the scene is valid.
    pub open spec fn wf(self) -> bool {
        forall|i: int| 0 <= i < self.list@.len() ==> (#[trigger] self.list@[i]).wf()
    }

    /// Wrap a collection of spheres as a scene.
    pub fn new(list: Vec<Sphere>) -> (r: HitableList)
        ensures
            r.list == list,
    {
        HitableList { list }
    }

    /// Decide whether every sphere in the scene is valid.
    pub fn check(&self) -> (b: bool)
        ensures
            b == self.wf(),
    {
        let mut i: usize = 0;
        while i < self.list.len()
            invariant
                0 <= i <= self.list@.len(),
                forall|j: int| 0 <= j < i ==> (#[trigger] self.list@[j]).wf(),
            decreases self.list@.len() - i,
        {
            let sp: &Sphere = &self.list[i];
            if sp.radius <= 0 || !sp.material.check() {
                assert(!self.list@[i as int].wf());
                return false;
            }
            i = i + 1;
        }
        true
    }

    /// How many spheres the scene holds.
    pub fn len(&self) -> (n: usize)
        ensures
            n == self.list@.len(),
    {
        self.list.len()
    }

    /// The globally nearest valid hit of `r` within `(t_min, t_max)` over
    /// all spheres, with the hit sphere's material; `None` when the ray
    /// escapes the scene.
    pub fn hit(&self, r: &Ray, t_min: i64, t_max: i64) -> (h: Option<(HitRecord, Material)>)
        requires
            self.wf(),
        ensures
            h == hit_list_s(self.list@, *r, t_min, t_max),
    {
        let mut best: Option<(HitRecord, Material)> = None;
        let mut closest: i64 = t_max;
        let mut i: usize = 0;
        while i < self.list.len()
            invariant
                0 <= i <= self.list@.len(),
                self.wf(),
                hit_list_from(self.list@, i as int, *r, t_min, closest, best) == hit_list_s(
                    self.list@,
                    *r,
                    t_min,
                    t_max,
                ),
            decreases self.list@.len() - i,
        {
            let sp: &Sphere = &self.list[i];
            assert(self.list@[i as int].wf());
            match sp.hit(r, t_min, closest) {
                Some(h) => {
                    closest = h.t;
                    best = Some((h, sp.material));
                },
                None => {},
            }
            i = i + 1;
        }
        best
    }
}

} // verus!
