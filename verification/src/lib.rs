//! A single-frame offline ray tracer.
//!
//! The renderer computes a 2D image of a 3D scene by casting rays from a
//! virtual camera, resolving the nearest intersection against the scene's
//! solids, evaluating shadow-tested direct lighting, and following bounded
//! recursive reflection.
//!
//! All geometry and radiometry is carried by [`fixed::Fixed`], a saturating
//! fixed-point scalar with sixteen fractional bits, so that every arithmetic
//! step has an exact, machine-checked contract. Collaborators that work in
//! floating point convert at the boundary.

pub mod fixed;
pub mod vector;
pub mod frame;
pub mod color;
pub mod camera;
pub mod material;
pub mod light;
pub mod trace;
pub mod draw;
