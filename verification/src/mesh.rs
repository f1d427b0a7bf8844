//! Index arithmetic of the two-dimensional staggered (MAC) mesh.
//!
//! Pressure, VOF and the cell classification live at the `nx × ny` cell
//! centres; the horizontal velocity lives on the `(nx + 1) × ny` vertical
//! faces and the vertical velocity on the `nx × (ny + 1)` horizontal faces.
//! Cell `(i, j)` is column `i`, row `j`; rows are numbered from the bottom.

use vstd::prelude::*;
use vstd::arithmetic::div_mod::lemma_fundamental_div_mod_converse;
use vstd::arithmetic::div_mod::lemma_fundamental_div_mod;
use vstd::arithmetic::mul::lemma_mul_is_distributive_add_other_way;
use vstd::arithmetic::mul::lemma_mul_is_commutative;

verus! {

/// The points `(i, j)` with `x0 <= i < x1` and `y0 <= j < y1`, row by row
/// from the bottom, each row from left to right.
pub open spec fn grid_points(x0: int, x1: int, y0: int, y1: int) -> Seq<(usize, usize)> {
    let w = x1 - x0;
    let h = y1 - y0;
    if w <= 0 || h <= 0 {
        Seq::empty()
    } else {
        Seq::new((w * h) as nat, |k: int| ((x0 + k % w) as usize, (y0 + k / w) as usize))
    }
}

/// Position of `(i, j)` among the points that `grid_points(x0, x1, y0, y1)` lists.
pub open spec fn grid_position(x0: int, x1: int, y0: int, i: int, j: int) -> int {
    (j - y0) * (x1 - x0) + (i - x0)
}

/// Two-dimensional staggered mesh: its number of cells in each direction.
#[derive(Debug, Clone, Copy, PartialEq, Eq)]
pub struct Mesh {
    /// Number of cells in the x direction.
    pub nx: usize,
    /// Number of cells in the y direction.
    pub ny: usize,
}

/// Classification of a cell by its place on the border of the mesh.
#[derive(Debug, Clone, Copy, PartialEq, Eq, Structural)]
pub enum BoundaryType {
    Interior,
    Left,
    Right,
    Bottom,
    Top,
    CornerBottomLeft,
    CornerBottomRight,
    CornerTopLeft,
    CornerTopRight,
}

impl BoundaryType {
    /// Whether the classification is `Interior`.
    pub open spec fn spec_is_interior(self) -> bool {
        self == BoundaryType::Interior
    }

    /// Check if the classification is `Interior`.
    pub fn is_interior(&self) -> (r: bool)
        ensures
            r == self.spec_is_interior(),
    {
        matches!(self, BoundaryType::Interior)
    }

    /// Check if the classification is any side or corner of the border.
    pub fn is_boundary(&self) -> (r: bool)
        ensures
            r == !self.spec_is_interior(),
    {
        !self.is_interior()
    }
}

impl Mesh {
    /// Whether cell `(i, j)` lies on the border of the mesh.
    pub open spec fn spec_is_boundary(self, i: int, j: int) -> bool {
        i == 0 || i == self.nx - 1 || j == 0 || j == self.ny - 1
    }

    /// Side or corner of the border on which cell `(i, j)` lies; a cell on
    /// two sides is a corner, and the left and bottom sides take precedence
    /// over the right and top ones.
    pub open spec fn spec_boundary_type(self, i: int, j: int) -> BoundaryType {
        let left = i == 0;
        let right = i == self.nx - 1;
        let bottom = j == 0;
        let top = j == self.ny - 1;
        if left && bottom {
            BoundaryType::CornerBottomLeft
        } else if left && top {
            BoundaryType::CornerTopLeft
        } else if right && bottom {
            BoundaryType::CornerBottomRight
        } else if right && top {
            BoundaryType::CornerTopRight
        } else if left {
            BoundaryType::Left
        } else if right {
            BoundaryType::Right
        } else if bottom {
            BoundaryType::Bottom
        } else if top {
            BoundaryType::Top
        } else {
            BoundaryType::Interior
        }
    }

    /// Linear (row-major) index of cell `(i, j)`.
    pub open spec fn spec_cell_index(self, i: int, j: int) -> int {
        j * self.nx + i
    }

    /// Create a mesh of `nx × ny` cells.
    pub fn new(nx: usize, ny: usize) -> (m: Mesh)
        ensures
            m.nx == nx,
            m.ny == ny,
    {
        Mesh { nx, ny }
    }

    /// Total number of cells.
    pub fn num_cells(&self) -> (r: usize)
        requires
            self.nx * self.ny <= usize::MAX,
        ensures
            r == self.nx * self.ny,
    {
        self.nx * self.ny
    }

    /// Shape of the horizontal-velocity points (on the vertical faces).
    pub fn num_u(&self) -> (r: (usize, usize))
        requires
            self.nx + 1 <= usize::MAX,
        ensures
            r == (((self.nx + 1) as usize), self.ny),
    {
        (self.nx + 1, self.ny)
    }

    /// Shape of the vertical-velocity points (on the horizontal faces).
    pub fn num_v(&self) -> (r: (usize, usize))
        requires
            self.ny + 1 <= usize::MAX,
        ensures
            r == (self.nx, ((self.ny + 1) as usize)),
    {
        (self.nx, self.ny + 1)
    }

    /// Linear index of cell `(i, j)` in row-major order.
    pub fn cell_index(&self, i: usize, j: usize) -> (r: usize)
        requires
            self.spec_cell_index(i as int, j as int) <= usize::MAX,
        ensures
            r == self.spec_cell_index(i as int, j as int),
    {
        proof {
            assert(0 <= j * self.nx) by (nonlinear_arith);
        }
        j * self.nx + i
    }

    /// Cell indices `(i, j)` of a linear index.
    pub fn cell_ij(&self, idx: usize) -> (r: (usize, usize))
        requires
            self.nx > 0,
        ensures
            r == ((idx % self.nx) as usize, (idx / self.nx) as usize),
    {
        (idx % self.nx, idx / self.nx)
    }

    /// Check if cell `(i, j)` is on the border of the mesh.
    pub fn is_boundary(&self, i: usize, j: usize) -> (r: bool)
        requires
            i != 0 ==> self.nx >= 1,
            i != 0 && i != self.nx - 1 && j != 0 ==> self.ny >= 1,
        ensures
            r == self.spec_is_boundary(i as int, j as int),
    {
        i == 0 || i == self.nx - 1 || j == 0 || j == self.ny - 1
    }

    /// Side or corner of the border on which cell `(i, j)` lies.
    pub fn boundary_type(&self, i: usize, j: usize) -> (r: BoundaryType)
        requires
            self.nx >= 1,
            self.ny >= 1,
        ensures
            r == self.spec_boundary_type(i as int, j as int),
    {
        let left = i == 0;
        let right = i == self.nx - 1;
        let bottom = j == 0;
        let top = j == self.ny - 1;
        if left && bottom {
            BoundaryType::CornerBottomLeft
        } else if left && top {
            BoundaryType::CornerTopLeft
        } else if right && bottom {
            BoundaryType::CornerBottomRight
        } else if right && top {
            BoundaryType::CornerTopRight
        } else if left {
            BoundaryType::Left
        } else if right {
            BoundaryType::Right
        } else if bottom {
            BoundaryType::Bottom
        } else if top {
            BoundaryType::Top
        } else {
            BoundaryType::Interior
        }
    }

    /// All cell indices `(i, j)`, row by row from the bottom.
    pub fn cells(&self) -> (r: Vec<(usize, usize)>)
        requires
            self.nx * self.ny <= usize::MAX,
        ensures
            r@ == grid_points(0, self.nx as int, 0, self.ny as int),
    {
        points_in_range(0, self.nx, 0, self.ny)
    }

    /// Cell indices of the cells off the border, row by row from the bottom.
    pub fn interior_cells(&self) -> (r: Vec<(usize, usize)>)
        requires
            self.ny >= 1,
            self.ny > 2 ==> self.nx >= 1,
            grid_points(1, self.nx - 1, 1, self.ny - 1).len() <= usize::MAX,
        ensures
            r@ == grid_points(1, self.nx - 1, 1, self.ny - 1),
    {
        let y_end = self.ny - 1;
        if y_end <= 1 {
            return Vec::new();
        }
        let x_end = self.nx - 1;
        points_in_range(1, x_end, 1, y_end)
    }

    /// Indices of the horizontal-velocity points, row by row from the bottom.
    pub fn u_points(&self) -> (r: Vec<(usize, usize)>)
        requires
            self.nx + 1 <= usize::MAX,
            (self.nx + 1) * self.ny <= usize::MAX,
        ensures
            r@ == grid_points(0, self.nx + 1, 0, self.ny as int),
    {
        let (nu, nv) = self.num_u();
        points_in_range(0, nu, 0, nv)
    }

    /// Indices of the vertical-velocity points, row by row from the bottom.
    pub fn v_points(&self) -> (r: Vec<(usize, usize)>)
        requires
            self.ny + 1 <= usize::MAX,
            self.nx * (self.ny + 1) <= usize::MAX,
        ensures
            r@ == grid_points(0, self.nx as int, 0, self.ny + 1),
    {
        let (nu, nv) = self.num_v();
        points_in_range(0, nu, 0, nv)
    }
}


/// The linear index of a cell and the cell indices of a linear index undo each
/// other: `cell_ij(cell_index(i, j)) == (i, j)` for every column `i < nx`, and
/// `cell_index(cell_ij(idx)) == idx` for every linear index.
pub proof fn lemma_cell_index_round_trip(m: Mesh, i: int, j: int, idx: int)
    requires
        m.nx > 0,
        0 <= i < m.nx,
        0 <= j,
        0 <= idx,
    ensures
        m.spec_cell_index(i, j) % (m.nx as int) == i,
        m.spec_cell_index(i, j) / (m.nx as int) == j,
        m.spec_cell_index(idx % (m.nx as int), idx / (m.nx as int)) == idx,
{
    lemma_fundamental_div_mod_converse(j * m.nx + i, m.nx as int, j, i);
    lemma_fundamental_div_mod(idx, m.nx as int);
    lemma_mul_is_commutative(m.nx as int, idx / (m.nx as int));
}

/// A cell is classified as interior exactly when it is not on the border.
pub proof fn lemma_boundary_type_matches_is_boundary(m: Mesh, i: int, j: int)
    ensures
        m.spec_boundary_type(i, j).spec_is_interior() <==> !m.spec_is_boundary(i, j),
{
}

/// `cells()` lists cell `(i, j)` at position `cell_index(i, j)`, and lists
/// `num_cells()` cells.
pub proof fn lemma_cells_in_index_order(m: Mesh, i: int, j: int)
    requires
        0 <= i < m.nx,
        0 <= j < m.ny,
    ensures
        grid_points(0, m.nx as int, 0, m.ny as int).len() == m.nx * m.ny,
        grid_points(0, m.nx as int, 0, m.ny as int)[m.spec_cell_index(i, j)] == (
            i as usize,
            j as usize,
        ),
{
    let k = j * m.nx + i;
    lemma_fundamental_div_mod_converse(k, m.nx as int, j, i);
    assert(k < m.nx * m.ny) by (nonlinear_arith)
        requires
            k == j * m.nx + i,
            0 <= i < m.nx,
            0 <= j < m.ny,
    ;
}

/// The points that `grid_points(x0, x1, y0, y1)` lists are exactly the points
/// of the rectangle `x0 <= i < x1`, `y0 <= j < y1`, each once.
pub proof fn lemma_grid_points_members(x0: int, x1: int, y0: int, y1: int, i: int, j: int)
    requires
        0 <= x0,
        0 <= y0,
        x1 <= usize::MAX,
        y1 <= usize::MAX,
        0 <= i <= usize::MAX,
        0 <= j <= usize::MAX,
    ensures
        grid_points(x0, x1, y0, y1).contains((i as usize, j as usize)) <==> (x0 <= i < x1 && y0
            <= j < y1),
        x0 <= i < x1 && y0 <= j < y1 ==> grid_points(x0, x1, y0, y1)[grid_position(
            x0,
            x1,
            y0,
            i,
            j,
        )] == (i as usize, j as usize),
        grid_points(x0, x1, y0, y1).no_duplicates(),
{
    let g = grid_points(x0, x1, y0, y1);
    let w = x1 - x0;
    let h = y1 - y0;
    if x0 <= i < x1 && y0 <= j < y1 {
        let k = grid_position(x0, x1, y0, i, j);
        lemma_fundamental_div_mod_converse(k, w, j - y0, i - x0);
        assert(k < w * h) by (nonlinear_arith)
            requires
                k == (j - y0) * w + (i - x0),
                0 <= i - x0 < w,
                0 <= j - y0 < h,
        ;
        assert(g[k] == (i as usize, j as usize));
    }
    if g.contains((i as usize, j as usize)) {
        let k = choose|k: int| 0 <= k < g.len() && g[k] == (i as usize, j as usize);
        lemma_point_in_rectangle(x0, x1, y0, y1, k);
        assert((x0 + k % w) as usize == i as usize);
        assert(x0 + k % w == i);
        assert(y0 + k / w == j);
    }
    assert forall|a: int, b: int| 0 <= a < g.len() && 0 <= b < g.len() && a != b implies g[a]
        != g[b] by {
        lemma_point_in_rectangle(x0, x1, y0, y1, a);
        lemma_point_in_rectangle(x0, x1, y0, y1, b);
        lemma_fundamental_div_mod(a, w);
        lemma_fundamental_div_mod(b, w);
    }
}

proof fn lemma_point_in_rectangle(x0: int, x1: int, y0: int, y1: int, k: int)
    requires
        0 <= x0,
        0 <= y0,
        x1 <= usize::MAX,
        y1 <= usize::MAX,
        0 <= k < grid_points(x0, x1, y0, y1).len(),
    ensures
        x0 < x1,
        y0 < y1,
        0 <= k % (x1 - x0) < x1 - x0,
        0 <= k / (x1 - x0) < y1 - y0,
        grid_points(x0, x1, y0, y1)[k] == ((x0 + k % (x1 - x0)) as usize, (y0 + k / (x1
            - x0)) as usize),
{
    let w = x1 - x0;
    let h = y1 - y0;
    lemma_fundamental_div_mod(k, w);
    assert(0 <= k % w < w);
    assert(0 <= k / w < h) by (nonlinear_arith)
        requires
            k == w * (k / w) + k % w,
            0 <= k % w < w,
            0 <= k < w * h,
            w > 0,
    ;
}

/// `interior_cells()` lists exactly the cells of the mesh that are not on its
/// border.
pub proof fn lemma_interior_cells_are_the_non_border_cells(m: Mesh, i: int, j: int)
    requires
        m.nx >= 1,
        m.ny >= 1,
        0 <= i < m.nx,
        0 <= j < m.ny,
    ensures
        grid_points(1, m.nx - 1, 1, m.ny - 1).contains((i as usize, j as usize))
            <==> !m.spec_is_boundary(i, j),
{
    lemma_grid_points_members(1, m.nx - 1, 1, m.ny - 1, i, j);
}

/// The points of the rectangle `x0 <= i < x1`, `y0 <= j < y1`, row by row.
fn points_in_range(x0: usize, x1: usize, y0: usize, y1: usize) -> (r: Vec<(usize, usize)>)
    requires
        grid_points(x0 as int, x1 as int, y0 as int, y1 as int).len() <= usize::MAX,
    ensures
        r@ == grid_points(x0 as int, x1 as int, y0 as int, y1 as int),
{
    let mut r: Vec<(usize, usize)> = Vec::new();
    if x1 <= x0 || y1 <= y0 {
        return r;
    }
    let ghost w = x1 - x0;
    let mut j = y0;
    while j < y1
        invariant
            x0 < x1,
            y0 <= j <= y1,
            w == x1 - x0,
            r@.len() == (j - y0) * w,
            forall|k: int|
                0 <= k < r@.len() ==> #[trigger] r@[k] == ((x0 + k % w) as usize, (y0 + k / w) as usize),
        decreases y1 - j,
    {
        let mut i = x0;
        while i < x1
            invariant
                x0 <= i <= x1,
                y0 <= j < y1,
                w == x1 - x0,
                r@.len() == (j - y0) * w + (i - x0),
                forall|k: int|
                    0 <= k < r@.len() ==> #[trigger] r@[k] == ((x0 + k % w) as usize, (y0 + k
                        / w) as usize),
            decreases x1 - i,
        {
            proof {
                let k = (j - y0) * w + (i - x0);
                lemma_fundamental_div_mod_converse(k, w, (j - y0) as int, (i - x0) as int);
            }
            r.push((i, j));
            i = i + 1;
        }
        proof {
            lemma_mul_is_distributive_add_other_way(w, (j - y0) as int, 1);
        }
        j = j + 1;
    }
    proof {
        let g = grid_points(x0 as int, x1 as int, y0 as int, y1 as int);
        lemma_mul_is_commutative(w, (y1 - y0) as int);
        assert(r@.len() == g.len());
        assert(r@ =~= g);
    }
    r
}

} // verus!
