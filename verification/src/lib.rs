//! A Monte Carlo path tracer core over spheres, with three surface material
//! kinds (diffuse, reflective, refractive), a thin-lens camera and a
//! deterministic per-task sample stream.
//!
//! All scalar quantities are carried in a signed Q47.16 fixed-point format
//! (an `i64` holding `value * 65536`), so every arithmetic step has an exact
//! mathematical specification.

use vstd::prelude::*;

pub mod camera;
pub mod fixed;
pub mod hitable;
pub mod material;
pub mod ray;
pub mod render;
pub mod rng;
pub mod scene;
pub mod vec3;

verus! {

/// A construction-time validation failure: rendering never starts on a
/// degenerate scene or camera.
#[derive(Clone, Copy, PartialEq, Eq, Structural, Debug)]
pub enum SceneError {
    /// A sphere was given a zero or negative radius.
    NonPositiveRadius,
    /// A material parameter lies outside its documented range.
    InvalidMaterial,
    /// The camera's eye and target coincide, or its up vector is parallel to
    /// the view direction.
    DegenerateCamera,
}

} // verus!
