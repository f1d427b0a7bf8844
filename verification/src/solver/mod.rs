//! Index logic of the numerical solvers.

pub mod vof;

pub use vof::{face_stencil, FaceStencil};
