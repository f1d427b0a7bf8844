//! Cell type classification.
//!
//! Each cell is fluid (water or air, as the VOF fraction says), solid
//! (permanently blocked), porous (partially permeable) or paddle (a temporary
//! solid behind the moving wave paddle).

use vstd::prelude::*;

verus! {

/// Classification of a cell of the mesh.
#[derive(Debug, Clone, Copy, PartialEq, Eq, Structural)]
pub enum CellType {
    /// Fluid cell: the VOF fraction says how much of it is water.
    Fluid,
    /// Permanently blocked cell (bathymetry, walls): no flow, excluded from
    /// the pressure solve.
    Solid,
    /// Partially permeable cell (Darcy/Forchheimer resistance).
    Porous,
    /// Temporary solid behind the moving paddle; it turns back into fluid
    /// when the paddle moves away.
    Paddle,
}

impl CellType {
    /// The byte that stands for the variant when cell types are stored as
    /// bytes: the variants in declaration order, from 0.
    pub open spec fn code(self) -> u8 {
        match self {
            CellType::Fluid => 0,
            CellType::Solid => 1,
            CellType::Porous => 2,
            CellType::Paddle => 3,
        }
    }

    /// Whether a cell of this type blocks the flow: permanent solid or paddle.
    pub open spec fn spec_blocks_flow(self) -> bool {
        self == CellType::Solid || self == CellType::Paddle
    }

    /// Check if the cell is fluid (water or air).
    pub fn is_fluid(self) -> (r: bool)
        ensures
            r == (self == CellType::Fluid),
    {
        matches!(self, CellType::Fluid)
    }

    /// Check if the cell is solid: a permanent solid or a paddle cell.
    pub fn is_solid(self) -> (r: bool)
        ensures
            r == self.spec_blocks_flow(),
    {
        matches!(self, CellType::Solid | CellType::Paddle)
    }

    /// Check if the cell is a permanent solid (bathymetry, walls), not a paddle.
    pub fn is_permanent_solid(self) -> (r: bool)
        ensures
            r == (self == CellType::Solid),
    {
        matches!(self, CellType::Solid)
    }

    /// Check if the cell is a paddle cell (temporary solid).
    pub fn is_paddle(self) -> (r: bool)
        ensures
            r == (self == CellType::Paddle),
    {
        matches!(self, CellType::Paddle)
    }

    /// Check if the cell is porous.
    pub fn is_porous(self) -> (r: bool)
        ensures
            r == (self == CellType::Porous),
    {
        matches!(self, CellType::Porous)
    }

    /// Check if flow is allowed through the cell: fluid or porous.
    pub fn allows_flow(self) -> (r: bool)
        ensures
            r == (self == CellType::Fluid || self == CellType::Porous),
    {
        matches!(self, CellType::Fluid | CellType::Porous)
    }

    /// Convert a stored byte back to a cell type; a byte that stands for no
    /// variant reads as fluid.
    pub fn from_u8(val: u8) -> (r: CellType)
        ensures
            val < 4 ==> r.code() == val,
            val >= 4 ==> r == CellType::Fluid,
    {
        match val {
            0 => CellType::Fluid,
            1 => CellType::Solid,
            2 => CellType::Porous,
            3 => CellType::Paddle,
            _ => CellType::Fluid,
        }
    }
}

impl Default for CellType {
    /// A cell is fluid unless something marks it otherwise.
    fn default() -> (r: CellType)
        ensures
            r == CellType::Fluid,
    {
        CellType::Fluid
    }
}

/// Flow is allowed through a cell exactly when the cell is not solid, and a
/// cell is solid exactly when it is a permanent solid or a paddle cell.
pub proof fn lemma_flow_iff_not_solid(c: CellType)
    ensures
        (c == CellType::Fluid || c == CellType::Porous) <==> !c.spec_blocks_flow(),
        c.spec_blocks_flow() <==> (c == CellType::Solid || c == CellType::Paddle),
{
}

/// Every cell type is of exactly one of the four kinds.
pub proof fn lemma_exactly_one_kind(c: CellType)
    ensures
        (c == CellType::Fluid) as int + (c == CellType::Solid) as int
            + (c == CellType::Porous) as int + (c == CellType::Paddle) as int == 1,
{
}

/// Reading back the byte stored for a cell type gives the same cell type,
/// and distinct cell types are stored as distinct bytes.
pub proof fn lemma_code_round_trip(c: CellType, d: CellType)
    ensures
        c.code() < 4,
        c.code() == d.code() ==> c == d,
{
}

} // verus!
