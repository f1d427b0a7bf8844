//! The per-cell state of the simulation fields.
//!
//! The solver's fields are stored on the staggered mesh; the discrete part of
//! them, which every solver stage consults, is the classification of each cell
//! as fluid, solid, porous or paddle.  `Fields` holds it, in an `ndarray`
//! array of shape `(nx, ny)` indexed by `[[column, row]]`.

use vstd::prelude::*;
use crate::cell_grid::{CellGrid, nonzero_size};
use crate::cell_type::CellType;
use crate::mesh::{Mesh, grid_points, lemma_cells_in_index_order, lemma_grid_points_members};

verus! {

/// New type of a cell when the paddle stands behind it (`behind`) or not: a
/// cell behind the paddle becomes a paddle cell unless it is a permanent
/// solid; a paddle cell no longer behind the paddle becomes fluid again.
pub open spec fn paddle_update(c: CellType, behind: bool) -> CellType {
    if behind {
        if c == CellType::Solid {
            CellType::Solid
        } else {
            CellType::Paddle
        }
    } else if c == CellType::Paddle {
        CellType::Fluid
    } else {
        c
    }
}

/// Moving the paddle never changes a permanent solid, leaves every cell
/// behind the paddle solid, and leaves no paddle cell ahead of it: after the
/// move a cell is solid exactly when it is behind the paddle (where the
/// paddle's solid mask is set) or a permanent solid.
pub proof fn lemma_paddle_update_effect(c: CellType, behind: bool)
    ensures
        paddle_update(c, behind).spec_blocks_flow() <==> (behind || c == CellType::Solid),
        c == CellType::Solid ==> paddle_update(c, behind) == CellType::Solid,
        behind ==> paddle_update(c, behind).spec_blocks_flow(),
        !behind ==> paddle_update(c, behind) != CellType::Paddle,
        !behind && c != CellType::Paddle ==> paddle_update(c, behind) == c,
{
}

/// Marking the cells behind the paddle twice for the same paddle position
/// changes nothing the second time.
pub proof fn lemma_paddle_update_idempotent(c: CellType, behind: bool)
    ensures
        paddle_update(paddle_update(c, behind), behind) == paddle_update(c, behind),
{
}

/// The cell types after a paddle move depend only on the last paddle
/// position, not on the earlier ones, for every cell that is not porous (a
/// porous cell that the paddle passes over comes back as fluid).
pub proof fn lemma_paddle_update_forgets_history(c: CellType, earlier: bool, later: bool)
    requires
        c != CellType::Porous,
    ensures
        paddle_update(paddle_update(c, earlier), later) == paddle_update(c, later),
{
}

/// Open neighbours are mutual: if the cell across a side of a non-solid cell
/// is open, the first cell is open across the opposite side of the second.
pub proof fn lemma_open_neighbors_are_mutual(f: Fields, mesh: Mesh, i: int, j: int, side: Side)
    requires
        f.fits(&mesh),
        f.in_bounds(i, j),
        !f.cells()[(i, j)].spec_blocks_flow(),
    ensures
        f.spec_open_neighbor(i, j, side) matches Some(n) ==> f.spec_open_neighbor(
            n.0 as int,
            n.1 as int,
            opposite(side),
        ) == Some((i as usize, j as usize)),
{
    match side {
        Side::Left => {},
        Side::Right => {},
        Side::Bottom => {},
        Side::Top => {},
    }
}

/// An interior face is open to the flow (touches no solid) exactly when the
/// two cells it separates are each other's open neighbours: the face
/// predicates of the momentum stages and the neighbour relation of the
/// pressure and VOF stages agree.
pub proof fn lemma_open_faces_are_open_neighbors(f: Fields, mesh: Mesh, i: int, j: int)
    requires
        f.fits(&mesh),
        0 <= i < mesh.nx,
        0 <= j < mesh.ny,
    ensures
        0 < i ==> (!f.spec_u_face_touches_solid(mesh.nx as int, i, j) <==> (!f.cells()[(
            i - 1,
            j,
        )].spec_blocks_flow() && f.spec_open_neighbor(i - 1, j, Side::Right) == Some(
            (i as usize, j as usize),
        ))),
        0 < j ==> (!f.spec_v_face_touches_solid(mesh.ny as int, i, j) <==> (!f.cells()[(
            i,
            j - 1,
        )].spec_blocks_flow() && f.spec_open_neighbor(i, j - 1, Side::Top) == Some(
            (i as usize, j as usize),
        ))),
{
}

/// A face touches a (permanent) solid exactly when a cell on one of its two
/// sides is one: the vertical face `(i, j)` of a mesh of `nx` columns lies
/// between cell `(i - 1, j)` on its left (when `i > 0`) and cell `(i, j)` on
/// its right (when `i < nx`); the horizontal face `(i, j)` of a mesh of `ny`
/// rows between cell `(i, j - 1)` below (when `j > 0`) and cell `(i, j)`
/// above (when `j < ny`).  Solid cells are the permanent solids and the
/// paddle cells.
pub proof fn lemma_faces_touch_the_cells_on_both_sides(f: Fields, nx: int, ny: int, i: int, j: int)
    ensures
        0 <= i < nx && f.cells()[(i, j)] == CellType::Solid ==> f.spec_u_face_touches_permanent_solid(nx, i, j),
        0 < i && f.cells()[(i - 1, j)] == CellType::Solid ==> f.spec_u_face_touches_permanent_solid(nx, i, j),
        0 <= i <= nx && (i == nx || f.cells()[(i, j)] != CellType::Solid) && (i == 0 || f.cells()[(i - 1, j)] != CellType::Solid) ==> !f.spec_u_face_touches_permanent_solid(nx, i, j),
        0 <= j < ny && f.cells()[(i, j)] == CellType::Solid ==> f.spec_v_face_touches_permanent_solid(ny, i, j),
        0 < j && f.cells()[(i, j - 1)] == CellType::Solid ==> f.spec_v_face_touches_permanent_solid(ny, i, j),
        0 <= j <= ny && (j == ny || f.cells()[(i, j)] != CellType::Solid) && (j == 0 || f.cells()[(i, j - 1)] != CellType::Solid) ==> !f.spec_v_face_touches_permanent_solid(ny, i, j),
        0 <= i < nx && (f.cells()[(i, j)] == CellType::Solid || f.cells()[(i, j)] == CellType::Paddle) ==> f.spec_u_face_touches_solid(nx, i, j),
        0 < i && (f.cells()[(i - 1, j)] == CellType::Solid || f.cells()[(i - 1, j)] == CellType::Paddle) ==> f.spec_u_face_touches_solid(nx, i, j),
        0 <= i <= nx && (i == nx || f.cells()[(i, j)] == CellType::Fluid || f.cells()[(i, j)] == CellType::Porous) && (i == 0 || f.cells()[(i - 1, j)] == CellType::Fluid || f.cells()[(i - 1, j)] == CellType::Porous) ==> !f.spec_u_face_touches_solid(nx, i, j),
        0 <= j < ny && (f.cells()[(i, j)] == CellType::Solid || f.cells()[(i, j)] == CellType::Paddle) ==> f.spec_v_face_touches_solid(ny, i, j),
        0 < j && (f.cells()[(i, j - 1)] == CellType::Solid || f.cells()[(i, j - 1)] == CellType::Paddle) ==> f.spec_v_face_touches_solid(ny, i, j),
        0 <= j <= ny && (j == ny || f.cells()[(i, j)] == CellType::Fluid || f.cells()[(i, j)] == CellType::Porous) && (j == 0 || f.cells()[(i, j - 1)] == CellType::Fluid || f.cells()[(i, j - 1)] == CellType::Porous) ==> !f.spec_v_face_touches_solid(ny, i, j),
{
}

/// A face next to a permanent solid is a face next to a solid.
pub proof fn lemma_permanent_solid_faces_are_solid_faces(f: Fields, nx: int, ny: int, i: int, j: int)
    ensures
        f.spec_u_face_touches_permanent_solid(nx, i, j) ==> f.spec_u_face_touches_solid(nx, i, j),
        f.spec_v_face_touches_permanent_solid(ny, i, j) ==> f.spec_v_face_touches_solid(ny, i, j),
{
}

/// Replacing the value of a key already in a map leaves its domain unchanged.
proof fn lemma_insert_keeps_domain(m: Map<(int, int), CellType>, k: (int, int), v: CellType)
    requires
        m.dom().contains(k),
    ensures
        m.insert(k, v).dom() == m.dom(),
{
    assert(m.insert(k, v).dom() =~= m.dom());
}

/// A side of a cell.
#[derive(Debug, Clone, Copy, PartialEq, Eq, Structural)]
pub enum Side {
    Left,
    Right,
    Bottom,
    Top,
}

/// The cell across `side` of cell `(i, j)`, which may lie outside the mesh.
pub open spec fn across(i: int, j: int, side: Side) -> (int, int) {
    match side {
        Side::Left => (i - 1, j),
        Side::Right => (i + 1, j),
        Side::Bottom => (i, j - 1),
        Side::Top => (i, j + 1),
    }
}

/// The side facing `side`.
pub open spec fn opposite(side: Side) -> Side {
    match side {
        Side::Left => Side::Right,
        Side::Right => Side::Left,
        Side::Bottom => Side::Top,
        Side::Top => Side::Bottom,
    }
}

/// Per-cell state of the simulation fields: the cell classification.
#[derive(Debug)]
pub struct Fields {
    /// Cell type (fluid/solid/porous/paddle) at the cell centres.
    pub cell_type: CellGrid,
}

impl Fields {
    /// The cell types, by `(column, row)`.
    pub open spec fn cells(&self) -> Map<(int, int), CellType> {
        self.cell_type@
    }

    /// The number of `(columns, rows)`.
    pub open spec fn shape(&self) -> (int, int) {
        self.cell_type.shape()
    }

    /// Whether `(i, j)` indexes a cell.
    pub open spec fn in_bounds(&self, i: int, j: int) -> bool {
        0 <= i < self.shape().0 && 0 <= j < self.shape().1
    }

    /// The cell types are defined exactly on the cells.
    pub open spec fn wf(&self) -> bool {
        self.cell_type.wf()
    }

    /// Whether the fields are laid out on `mesh`: one cell type per cell.
    pub open spec fn fits(&self, mesh: &Mesh) -> bool {
        self.wf() && self.shape() == (mesh.nx as int, mesh.ny as int)
    }

    /// Create the fields of `mesh`: every cell fluid.
    pub fn new(mesh: &Mesh) -> (f: Fields)
        requires
            nonzero_size(mesh.nx as int, mesh.ny as int) <= isize::MAX,
        ensures
            f.fits(mesh),
            forall|i: int, j: int| f.in_bounds(i, j) ==> #[trigger] f.cells()[(i, j)] == CellType::Fluid,
    {
        Fields { cell_type: CellGrid::from_elem(mesh.nx, mesh.ny, CellType::default()) }
    }

    /// The cell type of cell `(i, j)`.
    pub fn cell_type_at(&self, i: usize, j: usize) -> (c: CellType)
        requires
            self.in_bounds(i as int, j as int),
        ensures
            c == self.cells()[(i as int, j as int)],
    {
        self.cell_type.get(i, j)
    }

    /// Set the cell type of every cell of the rectangle of columns
    /// `i_start <= i < i_end` and rows `j_start <= j < j_end`; the other cells
    /// keep theirs.
    pub fn set_cell_type_rect(
        &mut self,
        mesh: &Mesh,
        i_start: usize,
        i_end: usize,
        j_start: usize,
        j_end: usize,
        cell_type: CellType,
    )
        requires
            old(self).fits(mesh),
        ensures
            final(self).fits(mesh),
            forall|i: int, j: int|
                old(self).in_bounds(i, j) ==> #[trigger] final(self).cells()[(i, j)] == if i_start
                    <= i < i_end && j_start <= j < j_end {
                    cell_type
                } else {
                    old(self).cells()[(i, j)]
                },
    {
        let ghost before = self.cells();
        for j in 0..mesh.ny
            invariant
                self.fits(mesh),
                forall|a: int, b: int|
                    self.in_bounds(a, b) ==> #[trigger] self.cells()[(a, b)] == if b < j && i_start
                        <= a < i_end && j_start <= b < j_end {
                        cell_type
                    } else {
                        before[(a, b)]
                    },
        {
            for i in 0..mesh.nx
                invariant
                    self.fits(mesh),
                    j < mesh.ny,
                    forall|a: int, b: int|
                        self.in_bounds(a, b) ==> #[trigger] self.cells()[(a, b)] == if (b < j || (b
                            == j && a < i)) && i_start <= a < i_end && j_start <= b < j_end {
                            cell_type
                        } else {
                            before[(a, b)]
                        },
            {
                if i_start <= i && i < i_end && j_start <= j && j < j_end {
                    self.set_cell(i, j, cell_type);
                }
            }
        }
    }

    /// Mark the cells behind the paddle, that is the first `n_behind` columns
    /// (those whose centre lies left of the paddle), as paddle cells, except
    /// permanent solids; paddle cells of the other columns become fluid again.
    pub fn set_solid_behind_paddle(&mut self, mesh: &Mesh, n_behind: usize)
        requires
            old(self).fits(mesh),
        ensures
            final(self).fits(mesh),
            forall|i: int, j: int|
                old(self).in_bounds(i, j) ==> #[trigger] final(self).cells()[(i, j)]
                    == paddle_update(old(self).cells()[(i, j)], i < n_behind),
    {
        let ghost before = self.cells();
        for j in 0..mesh.ny
            invariant
                self.fits(mesh),
                forall|a: int, b: int|
                    self.in_bounds(a, b) ==> #[trigger] self.cells()[(a, b)] == if b < j {
                        paddle_update(before[(a, b)], a < n_behind)
                    } else {
                        before[(a, b)]
                    },
        {
            for i in 0..mesh.nx
                invariant
                    self.fits(mesh),
                    j < mesh.ny,
                    forall|a: int, b: int|
                        self.in_bounds(a, b) ==> #[trigger] self.cells()[(a, b)] == if b < j || (b
                            == j && a < i) {
                            paddle_update(before[(a, b)], a < n_behind)
                        } else {
                            before[(a, b)]
                        },
            {
                let c = self.cell_type.get(i, j);
                if i < n_behind {
                    if !c.is_permanent_solid() {
                        self.set_cell(i, j, CellType::Paddle);
                    }
                } else if c.is_paddle() {
                    self.set_cell(i, j, CellType::Fluid);
                }
            }
        }
    }

    /// Replace the cell type of cell `(i, j)`, and no other.
    fn set_cell(&mut self, i: usize, j: usize, c: CellType)
        requires
            old(self).wf(),
            old(self).in_bounds(i as int, j as int),
        ensures
            final(self).wf(),
            final(self).shape() == old(self).shape(),
            final(self).cells() == old(self).cells().insert((i as int, j as int), c),
    {
        proof {
            lemma_insert_keeps_domain(self.cells(), (i as int, j as int), c);
        }
        self.cell_type.set(i, j, c);
    }

    /// Check if cell `(i, j)` is fluid.
    pub fn is_fluid(&self, i: usize, j: usize) -> (r: bool)
        requires
            self.in_bounds(i as int, j as int),
        ensures
            r == (self.cells()[(i as int, j as int)] == CellType::Fluid),
    {
        self.cell_type.get(i, j).is_fluid()
    }

    /// Check if cell `(i, j)` is solid (permanent solid or paddle).
    pub fn is_solid(&self, i: usize, j: usize) -> (r: bool)
        requires
            self.in_bounds(i as int, j as int),
        ensures
            r == self.cells()[(i as int, j as int)].spec_blocks_flow(),
    {
        self.cell_type.get(i, j).is_solid()
    }

    /// The number of `(columns, rows)` of the cell types.
    pub fn cell_shape(&self) -> (r: (usize, usize))
        ensures
            (r.0 as int, r.1 as int) == self.shape(),
    {
        self.cell_type.dim()
    }

    /// The solid mask of the cells, row by row from the bottom: entry
    /// `j * nx + i` is 1 if cell `(i, j)` blocks flow and 0 otherwise.
    pub fn solid_mask_row_major(&self, mesh: &Mesh) -> (r: Vec<i8>)
        requires
            self.fits(mesh),
            mesh.nx * mesh.ny <= usize::MAX,
        ensures
            r@.len() == mesh.nx * mesh.ny,
            forall|i: int, j: int| 0 <= i < mesh.nx && 0 <= j < mesh.ny ==> #[trigger] r@[mesh.spec_cell_index(i, j)] == (if self.cells()[(i, j)].spec_blocks_flow() { 1i8 } else { 0i8 }),
    {
        let cells = mesh.cells();
        let mut mask: Vec<i8> = Vec::new();
        let mut k: usize = 0;
        while k < cells.len()
            invariant
                self.fits(mesh),
                cells@ == grid_points(0, mesh.nx as int, 0, mesh.ny as int),
                k <= cells@.len(),
                mask@.len() == k,
                forall|m: int| 0 <= m < k ==> #[trigger] mask@[m] == (if self.cells()[(cells@[m].0 as int, cells@[m].1 as int)].spec_blocks_flow() { 1i8 } else { 0i8 }),
            decreases cells.len() - k,
        {
            let (i, j) = cells[k];
            proof {
                assert(cells@.contains(cells@[k as int]));
                lemma_grid_points_members(0, mesh.nx as int, 0, mesh.ny as int, i as int, j as int);
            }
            let entry: i8 = if self.is_solid(i, j) { 1 } else { 0 };
            mask.push(entry);
            k = k + 1;
        }
        proof {
            assert forall|i: int, j: int| 0 <= i < mesh.nx && 0 <= j < mesh.ny implies #[trigger] mask@[mesh.spec_cell_index(i, j)] == (if self.cells()[(i, j)].spec_blocks_flow() { 1i8 } else { 0i8 }) by {
                lemma_cells_in_index_order(*mesh, i, j);
                let idx = mesh.spec_cell_index(i, j);
                assert(0 <= idx < mesh.nx * mesh.ny) by (nonlinear_arith)
                    requires
                        0 <= i < mesh.nx,
                        0 <= j < mesh.ny,
                        idx == j * mesh.nx + i,
                ;
                assert(cells@[idx] == (i as usize, j as usize));
            }
        }
        mask
    }

    /// Check if cell `(i, j)` allows flow (fluid or porous).
    pub fn allows_flow(&self, i: usize, j: usize) -> (r: bool)
        requires
            self.in_bounds(i as int, j as int),
        ensures
            r == (self.cells()[(i as int, j as int)] == CellType::Fluid || self.cells()[(
                i as int,
                j as int,
            )] == CellType::Porous),
    {
        self.cell_type.get(i, j).allows_flow()
    }

    /// Whether the vertical face `(i, j)` touches a solid cell of a mesh of
    /// `nx` columns.
    pub open spec fn spec_u_face_touches_solid(&self, nx: int, i: int, j: int) -> bool {
        (i > 0 && self.cells()[(i - 1, j)].spec_blocks_flow()) || (i < nx && self.cells()[(
            i,
            j,
        )].spec_blocks_flow())
    }

    /// Whether the horizontal face `(i, j)` touches a solid cell of a mesh of
    /// `ny` rows.
    pub open spec fn spec_v_face_touches_solid(&self, ny: int, i: int, j: int) -> bool {
        (j > 0 && self.cells()[(i, j - 1)].spec_blocks_flow()) || (j < ny && self.cells()[(
            i,
            j,
        )].spec_blocks_flow())
    }

    /// Whether the vertical face `(i, j)` touches a permanent solid cell of a
    /// mesh of `nx` columns.
    pub open spec fn spec_u_face_touches_permanent_solid(&self, nx: int, i: int, j: int) -> bool {
        (i > 0 && self.cells()[(i - 1, j)] == CellType::Solid) || (i < nx && self.cells()[(i, j)]
            == CellType::Solid)
    }

    /// Whether the horizontal face `(i, j)` touches a permanent solid cell of
    /// a mesh of `ny` rows.
    pub open spec fn spec_v_face_touches_permanent_solid(&self, ny: int, i: int, j: int) -> bool {
        (j > 0 && self.cells()[(i, j - 1)] == CellType::Solid) || (j < ny && self.cells()[(i, j)]
            == CellType::Solid)
    }

    /// The cell across `side` of cell `(i, j)`, when it is inside the mesh and
    /// not solid.
    pub open spec fn spec_open_neighbor(&self, i: int, j: int, side: Side) -> Option<
        (usize, usize),
    > {
        let (a, b) = across(i, j, side);
        if self.in_bounds(a, b) && !self.cells()[(a, b)].spec_blocks_flow() {
            Some((a as usize, b as usize))
        } else {
            None
        }
    }

    /// The cell across `side` of cell `(i, j)`, when that cell is inside the
    /// mesh and not solid; `None` when the side is a wall: the border of the
    /// mesh or a solid cell.  This is the neighbour through which pressure and
    /// VOF flux couple to the cell.
    pub fn open_neighbor(&self, mesh: &Mesh, i: usize, j: usize, side: Side) -> (r: Option<
        (usize, usize),
    >)
        requires
            self.fits(mesh),
            i < mesh.nx,
            j < mesh.ny,
        ensures
            r == self.spec_open_neighbor(i as int, j as int, side),
    {
        match side {
            Side::Left => {
                if i == 0 || self.is_solid(i - 1, j) {
                    None
                } else {
                    Some((i - 1, j))
                }
            },
            Side::Right => {
                if i + 1 >= mesh.nx || self.is_solid(i + 1, j) {
                    None
                } else {
                    Some((i + 1, j))
                }
            },
            Side::Bottom => {
                if j == 0 || self.is_solid(i, j - 1) {
                    None
                } else {
                    Some((i, j - 1))
                }
            },
            Side::Top => {
                if j + 1 >= mesh.ny || self.is_solid(i, j + 1) {
                    None
                } else {
                    Some((i, j + 1))
                }
            },
        }
    }

    /// The lowest row of column `i` whose cell is not solid, or 0 when every
    /// cell of the column is solid.
    pub fn first_non_solid_row(&self, mesh: &Mesh, i: usize) -> (r: usize)
        requires
            self.fits(mesh),
            i < mesh.nx,
        ensures
            r < mesh.ny ==> forall|j: int| 0 <= j < r ==> #[trigger] self.cells()[(
                i as int,
                j,
            )].spec_blocks_flow(),
            (exists|j: int| 0 <= j < mesh.ny && !#[trigger] self.cells()[(i as int, j)].spec_blocks_flow())
                ==> r < mesh.ny && !self.cells()[(i as int, r as int)].spec_blocks_flow(),
            (forall|j: int| 0 <= j < mesh.ny ==> #[trigger] self.cells()[(i as int, j)].spec_blocks_flow())
                ==> r == 0,
    {
        let mut j: usize = 0;
        while j < mesh.ny
            invariant
                self.fits(mesh),
                i < mesh.nx,
                j <= mesh.ny,
                forall|b: int| 0 <= b < j ==> #[trigger] self.cells()[(i as int, b)].spec_blocks_flow(),
            decreases mesh.ny - j,
        {
            if !self.is_solid(i, j) {
                return j;
            }
            j = j + 1;
        }
        0
    }

    /// Check if the vertical face `(i, j)` (between cells `(i - 1, j)` and
    /// `(i, j)`, where the horizontal velocity lives) touches a solid cell.
    pub fn u_face_touches_solid(&self, mesh: &Mesh, i: usize, j: usize) -> (r: bool)
        requires
            self.fits(mesh),
            i <= mesh.nx,
            j < mesh.ny,
        ensures
            r == self.spec_u_face_touches_solid(mesh.nx as int, i as int, j as int),
    {
        let left_solid = i > 0 && self.is_solid(i - 1, j);
        let right_solid = i < mesh.nx && self.is_solid(i, j);
        left_solid || right_solid
    }

    /// Check if the horizontal face `(i, j)` (between cells `(i, j - 1)` and
    /// `(i, j)`, where the vertical velocity lives) touches a solid cell.
    pub fn v_face_touches_solid(&self, mesh: &Mesh, i: usize, j: usize) -> (r: bool)
        requires
            self.fits(mesh),
            i < mesh.nx,
            j <= mesh.ny,
        ensures
            r == self.spec_v_face_touches_solid(mesh.ny as int, i as int, j as int),
    {
        let below_solid = j > 0 && self.is_solid(i, j - 1);
        let above_solid = j < mesh.ny && self.is_solid(i, j);
        below_solid || above_solid
    }

    /// Check if the vertical face `(i, j)` touches a permanent solid cell
    /// (bathymetry, walls), paddle cells not counted.
    pub fn u_face_touches_permanent_solid(&self, mesh: &Mesh, i: usize, j: usize) -> (r: bool)
        requires
            self.fits(mesh),
            i <= mesh.nx,
            j < mesh.ny,
        ensures
            r == self.spec_u_face_touches_permanent_solid(mesh.nx as int, i as int, j as int),
    {
        let left = i > 0 && self.cell_type.get(i - 1, j).is_permanent_solid();
        let right = i < mesh.nx && self.cell_type.get(i, j).is_permanent_solid();
        left || right
    }

    /// Check if the horizontal face `(i, j)` touches a permanent solid cell
    /// (bathymetry, walls), paddle cells not counted.
    pub fn v_face_touches_permanent_solid(&self, mesh: &Mesh, i: usize, j: usize) -> (r: bool)
        requires
            self.fits(mesh),
            i < mesh.nx,
            j <= mesh.ny,
        ensures
            r == self.spec_v_face_touches_permanent_solid(mesh.ny as int, i as int, j as int),
    {
        let below = j > 0 && self.cell_type.get(i, j - 1).is_permanent_solid();
        let above = j < mesh.ny && self.cell_type.get(i, j).is_permanent_solid();
        below || above
    }

    /// Set cell `(i, j)` as a permanent solid; no other cell changes.
    pub fn set_solid(&mut self, i: usize, j: usize)
        requires
            old(self).wf(),
            old(self).in_bounds(i as int, j as int),
        ensures
            final(self).wf(),
            final(self).shape() == old(self).shape(),
            final(self).cells() == old(self).cells().insert((i as int, j as int), CellType::Solid),
    {
        self.set_cell(i, j, CellType::Solid);
    }

    /// Set cell `(i, j)` as fluid; no other cell changes.
    pub fn set_fluid(&mut self, i: usize, j: usize)
        requires
            old(self).wf(),
            old(self).in_bounds(i as int, j as int),
        ensures
            final(self).wf(),
            final(self).shape() == old(self).shape(),
            final(self).cells() == old(self).cells().insert((i as int, j as int), CellType::Fluid),
    {
        self.set_cell(i, j, CellType::Fluid);
    }
}

} // verus!
