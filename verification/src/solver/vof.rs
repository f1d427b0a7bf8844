//! Stencil selection of the VOF advection scheme.
//!
//! The VOF fraction at a face is taken upwind: from the cell on the side the
//! flow comes from.  Where that cell has neighbours on both sides, the TVD
//! scheme corrects the upwind value with a Van Leer-limited slope built from
//! the cell further upwind and the cell downwind; next to the border of the
//! mesh it falls back to the plain upwind value.  This module chooses the
//! cells; the arithmetic on the VOF values is the application's part.

use vstd::prelude::*;

verus! {

/// The cells from which the VOF value at a face is built, along one
/// direction of the mesh.
#[derive(Debug, Clone, Copy, PartialEq, Eq, Structural)]
pub enum FaceStencil {
    /// The value of the upwind cell alone.
    Upwind(usize),
    /// The upwind cell `center` corrected by the limited slope between the
    /// cell further upwind, `far`, and the downwind cell, `down`.
    Limited { far: usize, center: usize, down: usize },
}

/// The upwind cell of face `face` (the face between cells `face - 1` and
/// `face`) along a line of `n` cells, for a flow towards increasing indices
/// (`forward`) or decreasing ones, clamped to the line.
pub open spec fn upwind_cell(n: int, face: int, forward: bool) -> int {
    let c = if forward {
        face - 1
    } else {
        face
    };
    if c < 0 {
        0
    } else if c > n - 1 {
        n - 1
    } else {
        c
    }
}

/// The stencil of face `face`: limited when the upwind cell has a neighbour
/// on each side, the plain upwind cell otherwise.
pub open spec fn spec_face_stencil(n: int, face: int, forward: bool) -> FaceStencil {
    let c = upwind_cell(n, face, forward);
    if 1 <= c && c + 1 < n {
        if forward {
            FaceStencil::Limited {
                far: (c - 1) as usize,
                center: c as usize,
                down: (c + 1) as usize,
            }
        } else {
            FaceStencil::Limited {
                far: (c + 1) as usize,
                center: c as usize,
                down: (c - 1) as usize,
            }
        }
    } else {
        FaceStencil::Upwind(c as usize)
    }
}

/// Choose the cells from which the VOF value at face `face` of a line of `n`
/// cells is built, for a flow towards increasing indices (`forward`, a
/// non-negative face velocity) or decreasing ones.
pub fn face_stencil(n: usize, face: usize, forward: bool) -> (s: FaceStencil)
    requires
        n >= 1,
    ensures
        s == spec_face_stencil(n as int, face as int, forward),
{
    if forward {
        if face == 0 {
            return FaceStencil::Upwind(0);
        }
        let c = face - 1;
        if c >= 1 && c + 1 < n {
            FaceStencil::Limited { far: c - 1, center: c, down: c + 1 }
        } else {
            FaceStencil::Upwind(if c < n - 1 { c } else { n - 1 })
        }
    } else {
        if face >= n {
            return FaceStencil::Upwind(n - 1);
        }
        let c = face;
        if c >= 1 && c + 1 < n {
            FaceStencil::Limited { far: c + 1, center: c, down: c - 1 }
        } else {
            FaceStencil::Upwind(c)
        }
    }
}

/// Every cell that a stencil names lies on the line, and inside the mesh the
/// stencil is centred on the cell adjacent to the face on the side the flow
/// comes from, with `far` further upwind and `down` across the face.
pub proof fn lemma_face_stencil_cells(n: int, face: int, forward: bool)
    requires
        1 <= n <= usize::MAX,
        face >= 0,
    ensures
        match spec_face_stencil(n, face, forward) {
            FaceStencil::Upwind(c) => c < n,
            FaceStencil::Limited { far, center, down } => far < n && center < n && down < n,
        },
        forward && 1 <= face <= n ==> upwind_cell(n, face, forward) == face - 1,
        !forward && face < n ==> upwind_cell(n, face, forward) == face,
        match spec_face_stencil(n, face, forward) {
            FaceStencil::Limited { far, center, down } => if forward {
                far + 1 == center && center + 1 == down
            } else {
                down + 1 == center && center + 1 == far
            },
            FaceStencil::Upwind(_) => true,
        },
{
}

/// Where the flow comes through a face from a cell with a neighbour on
/// each side, the stencil is the limited one around that cell: through face
/// `f` a forward flow comes from cell `f - 1`, and when `2 <= f < n` the
/// stencil is `far = f - 2`, `center = f - 1`, `down = f`; a backward flow
/// comes from cell `f`, and when `1 <= f < n - 1` the stencil is
/// `far = f + 1`, `center = f`, `down = f - 1`.  Only where the upwind cell
/// is an end cell of the line is the stencil the plain upwind cell.
pub proof fn lemma_face_stencil_limited_inside(n: int, face: int)
    requires
        1 <= n <= usize::MAX,
        0 <= face <= n,
    ensures
        2 <= face < n ==> spec_face_stencil(n, face, true) == (FaceStencil::Limited {
            far: (face - 2) as usize,
            center: (face - 1) as usize,
            down: face as usize,
        }),
        1 <= face < n - 1 ==> spec_face_stencil(n, face, false) == (FaceStencil::Limited {
            far: (face + 1) as usize,
            center: face as usize,
            down: (face - 1) as usize,
        }),
        face <= 1 ==> spec_face_stencil(n, face, true) == FaceStencil::Upwind(0),
        face == n ==> spec_face_stencil(n, face, true) == FaceStencil::Upwind((n - 1) as usize),
        face == 0 ==> spec_face_stencil(n, face, false) == FaceStencil::Upwind(0),
        face >= n - 1 ==> spec_face_stencil(n, face, false) == FaceStencil::Upwind((n - 1) as usize),
{
}

} // verus!
