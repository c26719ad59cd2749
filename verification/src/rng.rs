//! A deterministic pseudo-random stream (xorshift64). Each rendering task
//! owns one stream, seeded independently, so repeated renders from the same
//! seed are bit-identical and tasks never contend or correlate.

use vstd::prelude::*;

use crate::vec3::dot_s;
use crate::vec3::zero_s;
use crate::vec3::Vec3;

verus! {

/// The state of one xorshift64 stream.
#[derive(Clone, Copy, PartialEq, Eq, Structural, Debug)]
pub struct RngState {
    pub s: u64,
}

/// The state a stream starts in for a given seed: the seed itself, with the
/// one degenerate value 0 (a fixed point of xorshift) replaced by a nonzero
/// default.
pub open spec fn init_s(seed: u64) -> u64 {
    if seed == 0 {
        0x9e3779b97f4a7c15u64
    } else {
        seed
    }
}

/// One xorshift64 step.
pub open spec fn next_s(s: u64) -> u64 {
    let a: u64 = s ^ (s << 13);
    let b: u64 = a ^ (a >> 7);
    b ^ (b << 17)
}

/// The fixed-point fraction in [0, 1) carried by the low 16 bits of a state.
pub open spec fn frac_of(s: u64) -> i64 {
    (s & 0xffff) as i64
}

/// The fraction drawn from any state lies in [0, 1) in fixed-point terms.
pub proof fn lemma_frac_range(s: u64)
    ensures
        0 <= frac_of(s) < 65536,
{
    assert(s & 0xffff <= 0xffff) by (bit_vector);
}

impl RngState {
    /// Start a stream from a seed.
    pub fn new(seed: u64) -> (r: RngState)
        ensures
            r.s == init_s(seed),
    {
        if seed == 0 {
            RngState { s: 0x9e3779b97f4a7c15 }
        } else {
            RngState { s: seed }
        }
    }

    /// Advance the stream one step and return the new raw state.
    pub fn next(&mut self) -> (r: u64)
        ensures
            final(self).s == next_s(old(self).s),
            r == final(self).s,
    {
        let s0: u64 = self.s;
        let a: u64 = s0 ^ (s0 << 13);
        let b: u64 = a ^ (a >> 7);
        let c: u64 = b ^ (b << 17);
        self.s = c;
        c
    }

    /// Draw a fixed-point fraction uniform over [0, 1).
    pub fn unit_frac(&mut self) -> (f: i64)
        ensures
            final(self).s == next_s(old(self).s),
            f == frac_of(final(self).s),
            0 <= f < 65536,
    {
        let n: u64 = self.next();
        proof {
            lemma_frac_range(n);
        }
        let m: u64 = n & 0xffff;
        m as i64
    }
}

/// A fraction in [0, 1) recentered to [-1, 1).
pub open spec fn centered(f: i64) -> i64 {
    (2 * f - 65536) as i64
}

/// One candidate point for the unit-sphere draw: three recentered fractions,
/// with the stream state after the three draws.
pub open spec fn sphere_draw_s(s: u64) -> (Vec3, u64) {
    let s1: u64 = next_s(s);
    let s2: u64 = next_s(s1);
    let s3: u64 = next_s(s2);
    (
        Vec3 { x: centered(frac_of(s1)), y: centered(frac_of(s2)), z: centered(frac_of(s3)) },
        s3,
    )
}

/// Rejection sampling of a point inside the unit sphere: candidates are drawn
/// from the cube [-1, 1)^3 until one has squared length below one; after
/// `tries` rejections the draw gives up and yields the center point.
pub open spec fn rius_s(s: u64, tries: nat) -> (Vec3, u64)
    decreases tries,
{
    let d: (Vec3, u64) = sphere_draw_s(s);
    if dot_s(d.0, d.0) < 65536 {
        d
    } else if tries == 0 {
        (zero_s(), d.1)
    } else {
        rius_s(d.1, (tries - 1) as nat)
    }
}

/// One candidate point for the unit-disk draw: two recentered fractions.
pub open spec fn disk_draw_s(s: u64) -> (Vec3, u64) {
    let s1: u64 = next_s(s);
    let s2: u64 = next_s(s1);
    (Vec3 { x: centered(frac_of(s1)), y: centered(frac_of(s2)), z: 0 }, s2)
}

/// Rejection sampling of a point inside the unit disk in the xy-plane.
pub open spec fn riud_s(s: u64, tries: nat) -> (Vec3, u64)
    decreases tries,
{
    let d: (Vec3, u64) = disk_draw_s(s);
    if dot_s(d.0, d.0) < 65536 {
        d
    } else if tries == 0 {
        (zero_s(), d.1)
    } else {
        riud_s(d.1, (tries - 1) as nat)
    }
}

/// Draw a point inside the unit sphere by bounded rejection sampling.
pub fn random_in_unit_sphere(rng: &mut RngState, tries: u64) -> (p: Vec3)
    ensures
        p == rius_s(old(rng).s, tries as nat).0,
        final(rng).s == rius_s(old(rng).s, tries as nat).1,
    decreases tries,
{
    let f1: i64 = rng.unit_frac();
    let f2: i64 = rng.unit_frac();
    let f3: i64 = rng.unit_frac();
    let p: Vec3 = Vec3::new(2 * f1 - 65536, 2 * f2 - 65536, 2 * f3 - 65536);
    let q: i64 = p.squared_length();
    if q < 65536 {
        p
    } else if tries == 0 {
        Vec3::zero()
    } else {
        random_in_unit_sphere(rng, tries - 1)
    }
}

/// Draw a point inside the unit disk by bounded rejection sampling.
pub fn random_in_unit_disk(rng: &mut RngState, tries: u64) -> (p: Vec3)
    ensures
        p == riud_s(old(rng).s, tries as nat).0,
        final(rng).s == riud_s(old(rng).s, tries as nat).1,
    decreases tries,
{
    let f1: i64 = rng.unit_frac();
    let f2: i64 = rng.unit_frac();
    let p: Vec3 = Vec3::new(2 * f1 - 65536, 2 * f2 - 65536, 0);
    let q: i64 = p.squared_length();
    if q < 65536 {
        p
    } else if tries == 0 {
        Vec3::zero()
    } else {
        random_in_unit_disk(rng, tries - 1)
    }
}

} // verus!
