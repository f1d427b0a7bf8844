//! Configuration choices and defaults.
//!
//! The settings read from the TOML configuration that are choices among
//! variants or plain counts and names: the pressure solver, the wave type,
//! the bathymetry type, the output format and file naming, and the default
//! values of the optional settings that are not measurements.

use vstd::prelude::*;

verus! {

/// Pressure solver type.
#[derive(Debug, Clone, Copy, PartialEq, Eq, Structural)]
pub enum PressureSolverType {
    /// Iterative SOR solver (works with any geometry).
    Iterative,
}

impl Default for PressureSolverType {
    fn default() -> (r: PressureSolverType)
        ensures
            r == PressureSolverType::Iterative,
    {
        PressureSolverType::Iterative
    }
}

/// Wave type for generation.
#[derive(Debug, Clone, Copy, PartialEq, Eq, Structural)]
pub enum WaveType {
    /// Regular periodic wave (linear theory, piston wavemaker).
    Periodic,
    /// Solitary wave (Boussinesq theory).
    Solitary,
}

impl Default for WaveType {
    fn default() -> (r: WaveType)
        ensures
            r == WaveType::Periodic,
    {
        WaveType::Periodic
    }
}

/// Bathymetry type.
#[derive(Debug, Clone, Copy, PartialEq, Eq, Structural)]
pub enum BathymetryType {
    /// Flat bottom.
    Flat,
    /// Linear slope.
    Slope,
    /// Custom bathymetry from a file (not yet implemented: reads as flat).
    Custom,
}

impl Default for BathymetryType {
    fn default() -> (r: BathymetryType)
        ensures
            r == BathymetryType::Flat,
    {
        BathymetryType::Flat
    }
}

/// Output file format.
#[derive(Debug, Clone, Copy, PartialEq, Eq, Structural)]
pub enum OutputFormat {
    /// VTK legacy format (for ParaView).
    Vtk,
    /// NetCDF-3 format (CF-compliant).
    Netcdf,
    /// Both VTK and NetCDF.
    Both,
}

impl Default for OutputFormat {
    fn default() -> (r: OutputFormat)
        ensures
            r == OutputFormat::Vtk,
    {
        OutputFormat::Vtk
    }
}

impl OutputFormat {
    /// Whether this format writes VTK files (`Vtk` or `Both`).
    pub fn writes_vtk(self) -> (r: bool)
        ensures
            r <==> (self == OutputFormat::Vtk || self == OutputFormat::Both),
    {
        match self {
            OutputFormat::Vtk | OutputFormat::Both => true,
            OutputFormat::Netcdf => false,
        }
    }

    /// Whether this format writes NetCDF files (`Netcdf` or `Both`).
    pub fn writes_netcdf(self) -> (r: bool)
        ensures
            r <==> (self == OutputFormat::Netcdf || self == OutputFormat::Both),
    {
        match self {
            OutputFormat::Netcdf | OutputFormat::Both => true,
            OutputFormat::Vtk => false,
        }
    }
}

/// Output configuration.
#[derive(Debug)]
pub struct OutputConfig {
    /// Output format: VTK, NetCDF or both.
    pub format: OutputFormat,
    /// Output file prefix (VTK: `prefix_000001.vtk`, NetCDF: `prefix.nc`).
    pub prefix: String,
    /// Number of frames per NetCDF file (0 = a single file at the end); when
    /// set, the files are `prefix_000.nc`, `prefix_001.nc`, ...
    pub frames_per_file: usize,
}

/// Default maximum number of iterations of the iterative pressure solver.
pub fn default_max_iter() -> (r: usize)
    ensures
        r == 10000,
{
    10000
}

/// Default turbulence model name.
pub fn default_turbulence_model() -> (r: String)
    ensures
        r@ == "k-epsilon"@,
{
    String::from_str("k-epsilon")
}

/// Default file name of the probe time series.
pub fn default_probe_file() -> (r: String)
    ensures
        r@ == "probes.csv"@,
{
    String::from_str("probes.csv")
}

} // verus!
