//! Discrete core of a two-dimensional Volume-of-Fluid wave-flume solver.
//!
//! The solver works on a staggered (MAC) mesh: pressure, VOF fraction and the
//! cell classification live at cell centres, the horizontal velocity on the
//! vertical faces and the vertical velocity on the horizontal faces.  This crate
//! holds, with their contracts, the parts of the solver that are exact: the cell
//! classification, the mesh indexing and enumeration, the per-cell state grid,
//! the configuration choices and defaults, and the output file bookkeeping.

pub mod boundary;
pub mod cell_grid;
pub mod cell_type;
pub mod config;
pub mod fields;
pub mod mesh;
pub mod output;
pub mod solver;

pub use cell_type::CellType;
pub use fields::Fields;
pub use mesh::Mesh;
