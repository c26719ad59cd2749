//! The surface material model: a closed set of three scattering behaviors.
//! Given an incoming ray and a surface hit, a material yields an outgoing
//! scattered ray, an attenuation color, and whether the light path continues.

use vstd::prelude::*;

use crate::fixed::fdiv;
use crate::fixed::fdiv_s;
use crate::fixed::fmul;
use crate::fixed::fmul_s;
use crate::fixed::fsqrt;
use crate::fixed::fsqrt_s;
use crate::fixed::sadd;
use crate::fixed::sadd_s;
use crate::fixed::sneg;
use crate::fixed::sneg_s;
use crate::fixed::ssub;
use crate::fixed::ssub_s;
use crate::ray::Ray;
use crate::rng::frac_of;
use crate::rng::next_s;
use crate::rng::random_in_unit_sphere;
use crate::rng::rius_s;
use crate::rng::RngState;
use crate::vec3::dot_s;
use crate::vec3::length_s;
use crate::vec3::minus_s;
use crate::vec3::neg_s;
use crate::vec3::plus_s;
use crate::vec3::scaled_s;
use crate::vec3::unit_s;
use crate::vec3::zero_s;
use crate::vec3::Vec3;

verus! {

/// How many rejection draws a unit-sphere sample may use before giving up.
pub const SCATTER_TRIES: u64 = 64;

/// A surface material: diffuse, specular with controlled roughness, or a
/// glass-like refractive surface.
#[derive(Clone, Copy, PartialEq, Eq, Structural, Debug)]
pub enum Material {
    Lambertian { attenuation: Vec3 },
    Metal { attenuation: Vec3, fuzziness: i64 },
    Dielectric { refraction: i64 },
}

/// Each component of a color lies in [0, 1].
pub open spec fn in_unit3(v: Vec3) -> bool {
    &&& 0 <= v.x <= 65536
    &&& 0 <= v.y <= 65536
    &&& 0 <= v.z <= 65536
}

/// The mirror reflection of `v` about the surface normal `n`:
/// `v - 2 * dot(v, n) * n`.
pub open spec fn reflect_s(v: Vec3, n: Vec3) -> Vec3 {
    minus_s(v, scaled_s(n, sadd_s(dot_s(v, n), dot_s(v, n))))
}

/// The refracted direction under Snell's law, when the discriminant allows
/// refraction; `None` under total internal reflection.
pub open spec fn refract_s(v: Vec3, n: Vec3, ni_over_nt: i64) -> Option<Vec3> {
    let uv: Vec3 = unit_s(v);
    let dt: i64 = dot_s(uv, n);
    let nn: i64 = fmul_s(ni_over_nt, ni_over_nt);
    let disc: i64 = ssub_s(65536, fmul_s(nn, ssub_s(65536, fmul_s(dt, dt))));
    if disc > 0 {
        Some(
            minus_s(
                scaled_s(minus_s(uv, scaled_s(n, dt)), ni_over_nt),
                scaled_s(n, fsqrt_s(disc)),
            ),
        )
    } else {
        None
    }
}

/// Schlick's approximation of the Fresnel reflectance:
/// `r0 + (1 - r0) * (1 - cosine)^5` with `r0 = ((n1 - n2) / (n1 + n2))^2`.
pub open spec fn schlick_s(cosine: i64, ref_idx: i64) -> i64 {
    let r0: i64 = fdiv_s(ssub_s(ref_idx, 65536), sadd_s(ref_idx, 65536));
    let r0sq: i64 = fmul_s(r0, r0);
    let omc: i64 = ssub_s(65536, cosine);
    let p2: i64 = fmul_s(omc, omc);
    let p4: i64 = fmul_s(p2, p2);
    let p5: i64 = fmul_s(p4, omc);
    sadd_s(r0sq, fmul_s(ssub_s(65536, r0sq), p5))
}

/// What a material does to a ray hitting a surface point `p` with outward
/// normal `n`, given the random stream state `s`: the scattered ray, the
/// attenuation, whether the path continues, and the stream state afterwards.
pub open spec fn scatter_s(m: Material, r_in: Ray, n: Vec3, p: Vec3, s: u64) -> (Ray, Vec3, bool, u64) {
    match m {
        Material::Lambertian { attenuation } => {
            let d: (Vec3, u64) = rius_s(s, 64);
            (Ray { origin: p, direction: plus_s(n, d.0) }, attenuation, true, d.1)
        },
        Material::Metal { attenuation, fuzziness } => {
            let d: (Vec3, u64) = rius_s(s, 64);
            let refl: Vec3 = reflect_s(unit_s(r_in.direction), n);
            let dir: Vec3 = plus_s(refl, scaled_s(d.0, fuzziness));
            (Ray { origin: p, direction: dir }, attenuation, dot_s(dir, n) > 0, d.1)
        },
        Material::Dielectric { refraction } => scatter_dielectric_s(refraction, r_in, n, p, s),
    }
}

/// The dielectric case of `scatter_s`: pick the side being crossed from the
/// sign of `dot(direction, n)`, test Snell's discriminant, and choose between
/// reflection and refraction by weighing one draw against Schlick's
/// reflectance (reflecting always under total internal reflection).
pub open spec fn scatter_dielectric_s(refraction: i64, r_in: Ray, n: Vec3, p: Vec3, s: u64) -> (
    Ray,
    Vec3,
    bool,
    u64,
) {
    let dv: i64 = dot_s(r_in.direction, n);
    let l: i64 = length_s(r_in.direction);
    let outward: Vec3 = if dv > 0 {
        neg_s(n)
    } else {
        n
    };
    let ni_over_nt: i64 = if dv > 0 {
        refraction
    } else {
        fdiv_s(65536, refraction)
    };
    let cosine: i64 = if l > 0 {
        if dv > 0 {
            fdiv_s(fmul_s(refraction, dv), l)
        } else {
            fdiv_s(sneg_s(dv), l)
        }
    } else {
        0
    };
    let refr: Option<Vec3> = refract_s(r_in.direction, outward, ni_over_nt);
    let reflect_prob: i64 = if refr is Some {
        schlick_s(cosine, refraction)
    } else {
        65536
    };
    let s1: u64 = next_s(s);
    let white: Vec3 = Vec3 { x: 65536, y: 65536, z: 65536 };
    if frac_of(s1) < reflect_prob || refr is None {
        let refl: Vec3 = reflect_s(r_in.direction, n);
        (Ray { origin: p, direction: refl }, white, true, s1)
    } else {
        (Ray { origin: p, direction: refr->Some_0 }, white, true, s1)
    }
}

impl Material {
    /// The material's parameters lie in their documented ranges: color
    /// components in [0, 1], fuzziness in [0, 1], refraction index above 1.
    pub open spec fn wf(self) -> bool {
        match self {
            Material::Lambertian { attenuation } => in_unit3(attenuation),
            Material::Metal { attenuation, fuzziness } => in_unit3(attenuation) && 0 <= fuzziness
                <= 65536,
            Material::Dielectric { refraction } => refraction > 65536,
        }
    }

    /// Decide whether the material's parameters lie in their documented
    /// ranges.
    pub fn check(&self) -> (b: bool)
        ensures
            b == self.wf(),
    {
        match *self {
            Material::Lambertian { attenuation } => check_unit3(attenuation),
            Material::Metal { attenuation, fuzziness } => check_unit3(attenuation) && 0 <= fuzziness
                && fuzziness <= 65536,
            Material::Dielectric { refraction } => refraction > 65536,
        }
    }

    /// Scatter an incoming ray at surface point `p` with outward normal `n`,
    /// drawing from `rng`: the scattered ray, the attenuation, and whether
    /// the light path continues.
    pub fn scatter(&self, r_in: &Ray, n: Vec3, p: Vec3, rng: &mut RngState) -> (out: (
        Ray,
        Vec3,
        bool,
    ))
        requires
            self.wf(),
        ensures
            out.0 == scatter_s(*self, *r_in, n, p, old(rng).s).0,
            out.1 == scatter_s(*self, *r_in, n, p, old(rng).s).1,
            out.2 == scatter_s(*self, *r_in, n, p, old(rng).s).2,
            final(rng).s == scatter_s(*self, *r_in, n, p, old(rng).s).3,
    {
        match *self {
            Material::Lambertian { attenuation } => {
                let d: Vec3 = random_in_unit_sphere(rng, SCATTER_TRIES);
                let dir: Vec3 = n.plus(d);
                (Ray::new(p, dir), attenuation, true)
            },
            Material::Metal { attenuation, fuzziness } => {
                let d: Vec3 = random_in_unit_sphere(rng, SCATTER_TRIES);
                let refl: Vec3 = reflect(r_in.direction.unit(), n);
                let dir: Vec3 = refl.plus(d.scaled(fuzziness));
                let cont: bool = dir.dot(n) > 0;
                (Ray::new(p, dir), attenuation, cont)
            },
            Material::Dielectric { refraction } => {
                let dv: i64 = r_in.direction.dot(n);
                let l: i64 = r_in.direction.length();
                let outward: Vec3 = if dv > 0 {
                    n.neg()
                } else {
                    n
                };
                let ni_over_nt: i64 = if dv > 0 {
                    refraction
                } else {
                    fdiv(65536, refraction)
                };
                let cosine: i64 = if l > 0 {
                    if dv > 0 {
                        fdiv(fmul(refraction, dv), l)
                    } else {
                        fdiv(sneg(dv), l)
                    }
                } else {
                    0
                };
                let refr: Option<Vec3> = refract(r_in.direction, outward, ni_over_nt);
                let reflect_prob: i64 = match refr {
                    Option::Some(_) => schlick(cosine, refraction),
                    Option::None => 65536,
                };
                let f: i64 = rng.unit_frac();
                let white: Vec3 = Vec3::new(65536, 65536, 65536);
                match refr {
                    Option::Some(refracted) => {
                        if f < reflect_prob {
                            let refl: Vec3 = reflect(r_in.direction, n);
                            (Ray::new(p, refl), white, true)
                        } else {
                            (Ray::new(p, refracted), white, true)
                        }
                    },
                    Option::None => {
                        let refl: Vec3 = reflect(r_in.direction, n);
                        (Ray::new(p, refl), white, true)
                    },
                }
            },
        }
    }
}

/// Scaling any vector by the zero scalar yields the zero vector.
proof fn lemma_scaled_zero(v: Vec3)
    ensures
        scaled_s(v, 0) == zero_s(),
{
    assert(v.x as int * 0 == 0) by (nonlinear_arith);
    assert(v.y as int * 0 == 0) by (nonlinear_arith);
    assert(v.z as int * 0 == 0) by (nonlinear_arith);
}

/// Adding the zero vector changes nothing.
proof fn lemma_plus_zero(v: Vec3)
    ensures
        plus_s(v, zero_s()) == v,
{
}

/// A metal surface with zero fuzziness scatters along the exact mirror
/// reflection of the incoming direction, with zero variance: the outgoing
/// direction and the continuation flag do not depend on the random stream.
pub proof fn law_metal_mirror(attenuation: Vec3, r_in: Ray, n: Vec3, p: Vec3, s1: u64, s2: u64)
    ensures
        scatter_s(
            Material::Metal { attenuation, fuzziness: 0 },
            r_in,
            n,
            p,
            s1,
        ).0.direction == reflect_s(unit_s(r_in.direction), n),
        scatter_s(Material::Metal { attenuation, fuzziness: 0 }, r_in, n, p, s1).0.direction
            == scatter_s(Material::Metal { attenuation, fuzziness: 0 }, r_in, n, p, s2).0.direction,
        scatter_s(Material::Metal { attenuation, fuzziness: 0 }, r_in, n, p, s1).2 == scatter_s(
            Material::Metal { attenuation, fuzziness: 0 },
            r_in,
            n,
            p,
            s2,
        ).2,
{
    lemma_scaled_zero(rius_s(s1, 64).0);
    lemma_scaled_zero(rius_s(s2, 64).0);
    lemma_plus_zero(reflect_s(unit_s(r_in.direction), n));
}

/// Decide whether each component of a color lies in [0, 1].
pub fn check_unit3(v: Vec3) -> (b: bool)
    ensures
        b == in_unit3(v),
{
    0 <= v.x && v.x <= 65536 && 0 <= v.y && v.y <= 65536 && 0 <= v.z && v.z <= 65536
}

/// The mirror reflection of `v` about the normal `n`.
pub fn reflect(v: Vec3, n: Vec3) -> (r: Vec3)
    ensures
        r == reflect_s(v, n),
{
    let d: i64 = v.dot(n);
    let k: i64 = sadd(d, d);
    v.minus(n.scaled(k))
}

/// The refracted direction under Snell's law, or `None` under total internal
/// reflection.
pub fn refract(v: Vec3, n: Vec3, ni_over_nt: i64) -> (r: Option<Vec3>)
    ensures
        r == refract_s(v, n, ni_over_nt),
{
    let uv: Vec3 = v.unit();
    let dt: i64 = uv.dot(n);
    let nn: i64 = fmul(ni_over_nt, ni_over_nt);
    let disc: i64 = ssub(65536, fmul(nn, ssub(65536, fmul(dt, dt))));
    if disc > 0 {
        let sq: i64 = fsqrt(disc);
        Option::Some(uv.minus(n.scaled(dt)).scaled(ni_over_nt).minus(n.scaled(sq)))
    } else {
        Option::None
    }
}

/// Schlick's reflectance approximation.
pub fn schlick(cosine: i64, ref_idx: i64) -> (r: i64)
    requires
        ref_idx > 0,
    ensures
        r == schlick_s(cosine, ref_idx),
{
    let denom: i64 = sadd(ref_idx, 65536);
    let r0: i64 = fdiv(ssub(ref_idx, 65536), denom);
    let r0sq: i64 = fmul(r0, r0);
    let omc: i64 = ssub(65536, cosine);
    let p2: i64 = fmul(omc, omc);
    let p4: i64 = fmul(p2, p2);
    let p5: i64 = fmul(p4, omc);
    sadd(r0sq, fmul(ssub(65536, r0sq), p5))
}

} // verus!
