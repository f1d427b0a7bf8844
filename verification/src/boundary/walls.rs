//! Solid-wall boundary condition kinds.

use vstd::prelude::*;

verus! {

/// Wall boundary condition type.
#[derive(Debug, Clone, Copy, PartialEq, Eq, Structural)]
pub enum WallType {
    /// No-slip: velocity = 0 at the wall.
    NoSlip,
    /// Free-slip: normal velocity = 0, tangential velocity free.
    FreeSlip,
}

} // verus!
