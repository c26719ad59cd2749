//! Three-component vectors over Q47.16 fixed-point scalars, with
//! component-wise arithmetic, dot and cross products, Euclidean length and
//! unit-normalization. Every operation is pinned to a spec-level mirror.

use vstd::prelude::*;

use crate::fixed::fdiv;
use crate::fixed::fdiv_s;
use crate::fixed::fmul;
use crate::fixed::fmul_s;
use crate::fixed::fsqrt;
use crate::fixed::fsqrt_s;
use crate::fixed::sadd;
use crate::fixed::sadd_s;
use crate::fixed::sneg;
use crate::fixed::sneg_s;
use crate::fixed::ssub;
use crate::fixed::ssub_s;

verus! {

/// A vector of three fixed-point components.
#[derive(Clone, Copy, PartialEq, Eq, Structural, Debug)]
pub struct Vec3 {
    pub x: i64,
    pub y: i64,
    pub z: i64,
}

/// The all-zero vector.
pub open spec fn zero_s() -> Vec3 {
    Vec3 { x: 0, y: 0, z: 0 }
}

/// Component-wise saturating sum.
pub open spec fn plus_s(a: Vec3, b: Vec3) -> Vec3 {
    Vec3 { x: sadd_s(a.x, b.x), y: sadd_s(a.y, b.y), z: sadd_s(a.z, b.z) }
}

/// Component-wise saturating difference.
pub open spec fn minus_s(a: Vec3, b: Vec3) -> Vec3 {
    Vec3 { x: ssub_s(a.x, b.x), y: ssub_s(a.y, b.y), z: ssub_s(a.z, b.z) }
}

/// Component-wise saturating negation.
pub open spec fn neg_s(a: Vec3) -> Vec3 {
    Vec3 { x: sneg_s(a.x), y: sneg_s(a.y), z: sneg_s(a.z) }
}

/// The vector scaled by a fixed-point factor `t`.
pub open spec fn scaled_s(a: Vec3, t: i64) -> Vec3 {
    Vec3 { x: fmul_s(a.x, t), y: fmul_s(a.y, t), z: fmul_s(a.z, t) }
}

/// The vector divided component-wise by a positive fixed-point scalar `t`.
pub open spec fn divided_s(a: Vec3, t: i64) -> Vec3 {
    Vec3 { x: fdiv_s(a.x, t), y: fdiv_s(a.y, t), z: fdiv_s(a.z, t) }
}

/// The component-wise (Hadamard) product of two vectors.
pub open spec fn hadamard_s(a: Vec3, b: Vec3) -> Vec3 {
    Vec3 { x: fmul_s(a.x, b.x), y: fmul_s(a.y, b.y), z: fmul_s(a.z, b.z) }
}

/// The fixed-point dot product.
pub open spec fn dot_s(a: Vec3, b: Vec3) -> i64 {
    sadd_s(sadd_s(fmul_s(a.x, b.x), fmul_s(a.y, b.y)), fmul_s(a.z, b.z))
}

/// The Euclidean length: the square root of the dot product with itself.
pub open spec fn length_s(a: Vec3) -> i64 {
    fsqrt_s(dot_s(a, a))
}

/// The cross product.
pub open spec fn cross_s(a: Vec3, b: Vec3) -> Vec3 {
    Vec3 {
        x: ssub_s(fmul_s(a.y, b.z), fmul_s(a.z, b.y)),
        y: ssub_s(fmul_s(a.z, b.x), fmul_s(a.x, b.z)),
        z: ssub_s(fmul_s(a.x, b.y), fmul_s(a.y, b.x)),
    }
}

/// The unit vector in the direction of `a`; the zero vector when the length
/// underflows to zero, a degenerate input that callers are meant to avoid.
pub open spec fn unit_s(a: Vec3) -> Vec3 {
    let l: i64 = length_s(a);
    if l <= 0 {
        zero_s()
    } else {
        divided_s(a, l)
    }
}

/// The fixed-point square of a scalar is never negative.
pub proof fn lemma_square_nonneg(a: i64)
    ensures
        fmul_s(a, a) >= 0,
{
    assert(a as int * a as int >= 0) by (nonlinear_arith);
}

/// A vector's dot product with itself is never negative.
pub proof fn lemma_dot_self_nonneg(a: Vec3)
    ensures
        dot_s(a, a) >= 0,
{
    lemma_square_nonneg(a.x);
    lemma_square_nonneg(a.y);
    lemma_square_nonneg(a.z);
}

impl Vec3 {
    /// Build a vector from three fixed-point components.
    pub fn new(x: i64, y: i64, z: i64) -> (r: Vec3)
        ensures
            r == (Vec3 { x, y, z }),
    {
        Vec3 { x, y, z }
    }

    /// The all-zero vector.
    pub fn zero() -> (r: Vec3)
        ensures
            r == zero_s(),
    {
        Vec3 { x: 0, y: 0, z: 0 }
    }

    /// Component-wise saturating sum.
    pub fn plus(self, b: Vec3) -> (r: Vec3)
        ensures
            r == plus_s(self, b),
    {
        Vec3 { x: sadd(self.x, b.x), y: sadd(self.y, b.y), z: sadd(self.z, b.z) }
    }

    /// Component-wise saturating difference.
    pub fn minus(self, b: Vec3) -> (r: Vec3)
        ensures
            r == minus_s(self, b),
    {
        Vec3 { x: ssub(self.x, b.x), y: ssub(self.y, b.y), z: ssub(self.z, b.z) }
    }

    /// Component-wise saturating negation.
    pub fn neg(self) -> (r: Vec3)
        ensures
            r == neg_s(self),
    {
        Vec3 { x: sneg(self.x), y: sneg(self.y), z: sneg(self.z) }
    }

    /// The vector scaled by a fixed-point factor `t`.
    pub fn scaled(self, t: i64) -> (r: Vec3)
        ensures
            r == scaled_s(self, t),
    {
        Vec3 { x: fmul(self.x, t), y: fmul(self.y, t), z: fmul(self.z, t) }
    }

    /// The vector divided component-wise by a positive fixed-point scalar.
    pub fn divided(self, t: i64) -> (r: Vec3)
        requires
            t > 0,
        ensures
            r == divided_s(self, t),
    {
        Vec3 { x: fdiv(self.x, t), y: fdiv(self.y, t), z: fdiv(self.z, t) }
    }

    /// The component-wise (Hadamard) product.
    pub fn hadamard(self, b: Vec3) -> (r: Vec3)
        ensures
            r == hadamard_s(self, b),
    {
        Vec3 { x: fmul(self.x, b.x), y: fmul(self.y, b.y), z: fmul(self.z, b.z) }
    }

    /// The fixed-point dot product.
    pub fn dot(self, b: Vec3) -> (r: i64)
        ensures
            r == dot_s(self, b),
    {
        sadd(sadd(fmul(self.x, b.x), fmul(self.y, b.y)), fmul(self.z, b.z))
    }

    /// The squared Euclidean length.
    pub fn squared_length(self) -> (r: i64)
        ensures
            r == dot_s(self, self),
            r >= 0,
    {
        proof {
            lemma_dot_self_nonneg(self);
        }
        self.dot(self)
    }

    /// The Euclidean length.
    pub fn length(self) -> (r: i64)
        ensures
            r == length_s(self),
            r >= 0,
    {
        let q: i64 = self.squared_length();
        fsqrt(q)
    }

    /// The cross product.
    pub fn cross(self, b: Vec3) -> (r: Vec3)
        ensures
            r == cross_s(self, b),
    {
        Vec3 {
            x: ssub(fmul(self.y, b.z), fmul(self.z, b.y)),
            y: ssub(fmul(self.z, b.x), fmul(self.x, b.z)),
            z: ssub(fmul(self.x, b.y), fmul(self.y, b.x)),
        }
    }

    /// The unit vector in this direction; zero when the length is zero.
    pub fn unit(self) -> (r: Vec3)
        ensures
            r == unit_s(self),
    {
        let l: i64 = self.length();
        if l <= 0 {
            Vec3::zero()
        } else {
            self.divided(l)
        }
    }
}

} // verus!
