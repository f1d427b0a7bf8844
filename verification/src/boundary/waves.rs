//! Solid region behind the moving wave paddle.
//!
//! The piston paddle sweeps the flume near its left wall; the cells whose
//! centres lie left of the paddle form a block of leading columns, blocked to
//! the flow.  Where the paddle stands is the application's computation (it
//! depends on the wave theory); this module turns the number of blocked
//! columns into the mask that the pressure solver skips.

use vstd::prelude::*;
use crate::mesh::Mesh;

verus! {

/// The solid mask behind the paddle, by `[column][row]`: a cell is masked
/// exactly when its column is one of the first `n_behind` columns.
pub fn solid_mask_behind(mesh: &Mesh, n_behind: usize) -> (mask: Vec<Vec<bool>>)
    ensures
        mask@.len() == mesh.nx,
        forall|i: int| 0 <= i < mesh.nx ==> #[trigger] mask@[i]@.len() == mesh.ny,
        forall|i: int, j: int|
            0 <= i < mesh.nx && 0 <= j < mesh.ny ==> #[trigger] mask@[i]@[j] == (i < n_behind),
{
    let mut mask: Vec<Vec<bool>> = Vec::new();
    for i in 0..mesh.nx
        invariant
            mask@.len() == i,
            forall|a: int| 0 <= a < i ==> #[trigger] mask@[a]@.len() == mesh.ny,
            forall|a: int, b: int|
                0 <= a < i && 0 <= b < mesh.ny ==> #[trigger] mask@[a]@[b] == (a < n_behind),
    {
        let behind = i < n_behind;
        let mut column: Vec<bool> = Vec::new();
        for j in 0..mesh.ny
            invariant
                column@.len() == j,
                forall|b: int| 0 <= b < j ==> #[trigger] column@[b] == behind,
        {
            column.push(behind);
        }
        mask.push(column);
    }
    mask
}

} // verus!
