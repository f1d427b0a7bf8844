//! The `ndarray` array that holds the cell types.
//!
//! The cell classification is stored, as in the rest of the solver's fields,
//! in an `ndarray::Array2` indexed by `[[column, row]]`.  Verus does not see
//! inside such an array, and it does not accept a declaration of `ndarray`'s
//! array type (its storage parameter is bound by a trait of `ndarray`), so the
//! array is held in a private field of `CellGrid`, a type opaque to Verus.
//! Its contents and shape are given names, and each `ndarray` operation that
//! the library uses has a trusted wrapper whose contract states, over those
//! names, what the operation does.

use vstd::prelude::*;
use ndarray::Array2;
use crate::cell_type::CellType;

verus! {

/// A two-dimensional `ndarray` array of cell types, indexed by
/// `(column, row)`.
#[verifier::external_body]
#[derive(Debug)]
pub struct CellGrid {
    cells: Array2<CellType>,
}

/// The cell types that a grid holds, by `(column, row)`.
pub uninterp spec fn grid_cells(grid: CellGrid) -> Map<(int, int), CellType>;

/// The shape `(columns, rows)` of a grid.
pub uninterp spec fn grid_shape(grid: CellGrid) -> (int, int);

/// The index pairs of an array of shape `(w, h)`.
pub open spec fn grid_domain(w: int, h: int) -> Set<(int, int)> {
    Set::new(|p: (int, int)| 0 <= p.0 < w && 0 <= p.1 < h)
}

/// The product of the axis lengths that are not zero, which `ndarray` requires
/// to fit in an `isize`.
pub open spec fn nonzero_size(w: int, h: int) -> int {
    (if w == 0 {
        1
    } else {
        w
    }) * (if h == 0 {
        1
    } else {
        h
    })
}

impl View for CellGrid {
    type V = Map<(int, int), CellType>;

    /// The cell types held, by `(column, row)`.
    open spec fn view(&self) -> Map<(int, int), CellType> {
        grid_cells(*self)
    }
}

impl CellGrid {
    /// The shape `(columns, rows)`.
    pub open spec fn shape(self) -> (int, int) {
        grid_shape(self)
    }

    /// The contents are defined exactly on the index pairs of the shape.
    pub open spec fn wf(self) -> bool {
        &&& grid_cells(self).dom() == grid_domain(grid_shape(self).0, grid_shape(self).1)
        &&& 0 <= grid_shape(self).0
        &&& 0 <= grid_shape(self).1
    }

    /// `Array2::from_elem((w, h), elem)`: an array of shape `(w, h)` whose
    /// every element is `elem`.  `ndarray` panics when the product of the
    /// non-zero axis lengths overflows `isize`, which `requires` excludes.
    #[verifier::external_body]
    pub(crate) fn from_elem(w: usize, h: usize, elem: CellType) -> (grid: CellGrid)
        requires
            nonzero_size(w as int, h as int) <= isize::MAX,
        ensures
            grid_shape(grid) == (w as int, h as int),
            grid_cells(grid).dom() == grid_domain(w as int, h as int),
            forall|i: int, j: int|
                0 <= i < w && 0 <= j < h ==> #[trigger] grid_cells(grid)[(i, j)] == elem,
    {
        CellGrid { cells: Array2::from_elem((w, h), elem) }
    }

    /// `self.cells.dim()`: the shape `(columns, rows)`.
    #[verifier::external_body]
    pub(crate) fn dim(&self) -> (r: (usize, usize))
        ensures
            (r.0 as int, r.1 as int) == grid_shape(*self),
    {
        self.cells.dim()
    }

    /// `self.cells[[i, j]]`: the element at column `i`, row `j`.  `ndarray`
    /// panics on an index out of bounds, which `requires` excludes.
    #[verifier::external_body]
    pub(crate) fn get(&self, i: usize, j: usize) -> (c: CellType)
        requires
            i < grid_shape(*self).0,
            j < grid_shape(*self).1,
        ensures
            c == grid_cells(*self)[(i as int, j as int)],
    {
        self.cells[[i, j]]
    }

    /// `self.cells[[i, j]] = c`: replace the element at column `i`, row `j`,
    /// and no other.  `ndarray` panics on an index out of bounds, which
    /// `requires` excludes.
    #[verifier::external_body]
    pub(crate) fn set(&mut self, i: usize, j: usize, c: CellType)
        requires
            i < grid_shape(*old(self)).0,
            j < grid_shape(*old(self)).1,
        ensures
            grid_shape(*final(self)) == grid_shape(*old(self)),
            grid_cells(*final(self)) == grid_cells(*old(self)).insert((i as int, j as int), c),
    {
        self.cells[[i, j]] = c;
    }
}

} // verus!
