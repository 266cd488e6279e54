//! Depth rendering of a triangle scene by fixed-step ray marching.
//!
//! A frame is computed in camera space: the scene is moved, and on
//! request rotated, to the camera; for each pixel a ray direction is
//! generated, sample points are taken along it at a fixed number of steps,
//! and each sample is tested against every triangle with an
//! orientation-based containment test. The step of the first hit is the
//! pixel's depth; a ray that uses up its steps reports the step budget.
//!
//! The library is generic in the scalar that coordinates and angles are
//! made of: it computes with scalars through the operations of
//! [`scalar::Scalar`] alone, and its contracts say what each result is in
//! terms of what those operations return. The laws of the renderer, such
//! as the agreement of the two backends, are proved for every scalar
//! whose operations are functions of their arguments.

pub mod backend;
pub mod contain;
pub mod dispatch;
pub mod frame;
pub mod march;
pub mod ray;
pub mod rotation;
pub mod scalar;
pub mod scene;
pub mod sink;
pub mod vector;
