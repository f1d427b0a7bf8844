//! Boundary conditions: wall kinds and the region behind the wave paddle.

pub mod walls;
pub mod waves;

pub use walls::WallType;
