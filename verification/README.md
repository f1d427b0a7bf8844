# rustvof

A two-dimensional Volume-of-Fluid (VOF) solver for free-surface, two-phase
(water-air) flow in wave flumes, on a staggered (MAC) mesh.

The crate is written in Verus.  `src/` is the verified library: the parts of
the solver that are exact, each with its contract and the laws that relate
them.

- `cell_type` — the cell classification (fluid, solid, porous, paddle).
- `mesh` — index arithmetic of the staggered mesh: linear indices, border
  classification, and the enumeration of cells and velocity points.
- `cell_grid`, `fields` — the per-cell classification held in an `ndarray`
  array; paddle sweeps, rectangles, solid faces and open neighbours.
- `solver::vof` — the choice of cells for the TVD VOF face values.
- `boundary` — wall kinds and the solid mask behind the wave paddle.
- `config` — configuration choices and defaults.
- `output` — frame numbering and file naming of the VTK and NetCDF output,
  the VTK header lines and section order, and the NetCDF-3 file layout
  (dimensions, variables and attributes), defined with `netcdf3`.

`app/` is the command-line program around the library: TOML configuration,
the floating-point solver stages (advection, diffusion, SOR pressure solve,
projection, VOF fluxes, k-ε turbulence, wave kinematics), and the file
writing of the VTK, NetCDF and probe output.

Run a simulation with `rustvof run config.toml`.
