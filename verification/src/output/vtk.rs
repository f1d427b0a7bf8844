//! The VTK (legacy, rectilinear grid) output: where the frames go, how they
//! are numbered, and the integer lines and section order of a frame's file.
//! Writing the files, and the floating-point values in them, are the
//! application's part.

use vstd::prelude::*;
use super::{append_decimal, append_zero_padded, decimal, lemma_numbered_names_distinct, zero_padded};

verus! {

/// The text of `Path::new(p).parent()`, for the path spelled `p`: the path
/// without its final component, if it has one.
pub uninterp spec fn path_parent(p: Seq<char>) -> Option<Seq<char>>;

/// The text of `Path::new(p).file_name()`, for the path spelled `p`: the
/// final component of the path, if it is a normal component.
pub uninterp spec fn path_file_name(p: Seq<char>) -> Option<Seq<char>>;

/// `std::path::Path::parent`, for a path given as text, with the result as
/// text.  What `std` returns is given the name `path_parent` and not stated
/// further (it depends on the component rules of the platform's paths).  A
/// path made from a `&str` is valid UTF-8, and so is its parent, so the
/// conversion back to text loses nothing.
#[verifier::external_body]
fn parent_text(p: &str) -> (r: Option<String>)
    ensures
        path_parent(p@) == match r {
            Some(s) => Some(s@),
            None => None,
        },
{
    match std::path::Path::new(p).parent() {
        Some(q) => Some(q.to_string_lossy().into_owned()),
        None => None,
    }
}

/// `std::path::Path::file_name`, for a path given as text, with the result
/// as text.  What `std` returns is given the name `path_file_name` and not
/// stated further.  The final component of a path made from a `&str` is valid
/// UTF-8, so the conversion back to text loses nothing.
#[verifier::external_body]
fn file_name_text(p: &str) -> (r: Option<String>)
    ensures
        path_file_name(p@) == match r {
            Some(s) => Some(s@),
            None => None,
        },
{
    match std::path::Path::new(p).file_name() {
        Some(q) => Some(q.to_string_lossy().into_owned()),
        None => None,
    }
}

/// The output directory for an output prefix: the prefix's parent path, or
/// the current directory when it has none.
pub open spec fn output_dir_of(prefix: Seq<char>) -> Seq<char> {
    match path_parent(prefix) {
        Some(d) => d,
        None => "."@,
    }
}

/// The file prefix for an output prefix: its final component, or `output`
/// when it has none.
pub open spec fn file_prefix_of(prefix: Seq<char>) -> Seq<char> {
    match path_file_name(prefix) {
        Some(f) => f,
        None => "output"@,
    }
}

/// The number of successful outcomes among `outcomes`.
pub open spec fn successes(outcomes: Seq<bool>) -> nat
    decreases outcomes.len(),
{
    if outcomes.len() == 0 {
        0
    } else {
        successes(outcomes.drop_last()) + (if outcomes.last() { 1nat } else { 0nat })
    }
}

/// VTK output writer state: the output directory, the file prefix and the
/// number of frames written so far.
pub struct VtkWriter {
    /// Output directory.
    pub output_dir: String,
    /// File prefix.
    pub prefix: String,
    /// Frame counter.
    frame: usize,
}

impl VtkWriter {
    /// The number of frames written so far.
    pub closed spec fn frames(&self) -> nat {
        self.frame as nat
    }

    /// The output directory, as text.
    pub closed spec fn dir(&self) -> Seq<char> {
        self.output_dir@
    }

    /// The file prefix, as text.
    pub closed spec fn file_prefix(&self) -> Seq<char> {
        self.prefix@
    }

    /// The file name of the frame numbered `frame`:
    /// `<output_dir>/<prefix>_<frame, six digits>.vtk`.
    pub open spec fn frame_file_name(&self, frame: nat) -> Seq<char> {
        self.dir() + "/"@ + self.file_prefix() + "_"@ + zero_padded(frame, 6) + ".vtk"@
    }

    /// Distinct frames go to distinct files, so no frame overwrites another.
    pub proof fn lemma_frame_files_distinct(&self, a: nat, b: nat)
        requires
            a != b,
        ensures
            self.frame_file_name(a) != self.frame_file_name(b),
    {
        let before = self.dir() + "/"@ + self.file_prefix() + "_"@;
        lemma_numbered_names_distinct(before, ".vtk"@, 6, a, b);
        assert(self.frame_file_name(a) =~= before + zero_padded(a, 6) + ".vtk"@);
        assert(self.frame_file_name(b) =~= before + zero_padded(b, 6) + ".vtk"@);
    }

    /// Create a VTK writer for an output prefix such as `output/run`: frames
    /// go to the prefix's directory, named after its final component, and
    /// numbering starts at 0.  Creating the directory is left to the caller
    /// (see `needs_output_dir`).
    pub fn new(prefix: &str) -> (w: VtkWriter)
        ensures
            w.dir() == output_dir_of(prefix@),
            w.file_prefix() == file_prefix_of(prefix@),
            w.frames() == 0,
    {
        VtkWriter::from_path_parts(parent_text(prefix), file_name_text(prefix))
    }

    /// Create a VTK writer from the parts of an output prefix: its parent
    /// path, which becomes the output directory (`.` when there is none), and
    /// its final component, which becomes the file prefix (`output` when
    /// there is none).  Numbering starts at 0.
    pub fn from_path_parts(parent: Option<String>, file_name: Option<String>) -> (w: VtkWriter)
        ensures
            w.dir() == (match parent {
                Some(d) => d@,
                None => "."@,
            }),
            w.file_prefix() == (match file_name {
                Some(f) => f@,
                None => "output"@,
            }),
            w.frames() == 0,
    {
        let output_dir = match parent {
            Some(d) => d,
            None => String::from_str("."),
        };
        let file_prefix = match file_name {
            Some(f) => f,
            None => String::from_str("output"),
        };
        VtkWriter { output_dir, prefix: file_prefix, frame: 0 }
    }

    /// Whether the output directory has to be created: it is neither empty
    /// nor the current directory `.`.
    pub fn needs_output_dir(&self) -> (r: bool)
        ensures
            r == (self.dir().len() != 0 && self.dir() != "."@),
    {
        let current = String::from_str(".");
        !self.output_dir.as_str().is_empty() && !(self.output_dir == current)
    }

    /// Get the number of frames written so far.
    pub fn frame(&self) -> (r: usize)
        ensures
            r == self.frames(),
    {
        self.frame
    }

    /// The file to which the next frame is written.
    pub fn next_file_name(&self) -> (r: String)
        ensures
            r@ == self.frame_file_name(self.frames()),
    {
        let mut name = self.output_dir.clone();
        name.append("/");
        name.append(self.prefix.as_str());
        name.append("_");
        append_zero_padded(&mut name, self.frame, 6);
        name.append(".vtk");
        name
    }

    /// The step that a write attempt makes from `before` to `after`: after
    /// a successful write the frame counter moves on by one, after a failed
    /// one it stays; the directory and the prefix stay.
    pub open spec fn recorded(before: VtkWriter, succeeded: bool, after: VtkWriter) -> bool {
        &&& after.dir() == before.dir()
        &&& after.file_prefix() == before.file_prefix()
        &&& after.frames() == before.frames() + (if succeeded { 1nat } else { 0nat })
    }

    /// Record the outcome of an attempt to write the next frame: a frame
    /// written moves the counter on, a failed write leaves it.
    pub fn record_write(&mut self, succeeded: bool)
        requires
            succeeded ==> old(self).frames() < usize::MAX,
        ensures
            VtkWriter::recorded(*old(self), succeeded, *final(self)),
    {
        if succeeded {
            self.frame = self.frame + 1;
        }
    }

    /// Over a run of write attempts from a new writer, with outcomes
    /// `outcomes` and writer states `states` (`states[i]` before attempt `i`,
    /// each step as `record_write` makes it): the frame counter counts the
    /// successful writes, and the `k`-th successful write (from 0) goes to
    /// the file of frame `k`.
    pub proof fn lemma_write_run(states: Seq<VtkWriter>, outcomes: Seq<bool>)
        requires
            states.len() == outcomes.len() + 1,
            states[0].frames() == 0,
            forall|i: int| 0 <= i < outcomes.len() ==> VtkWriter::recorded(#[trigger] states[i], outcomes[i], states[i + 1]),
        ensures
            states.last().frames() == successes(outcomes),
            forall|i: int| 0 <= i < outcomes.len() && #[trigger] outcomes[i] ==> states[i].frame_file_name(states[i].frames()) == states[0].frame_file_name(successes(outcomes.take(i))),
        decreases outcomes.len(),
    {
        if outcomes.len() > 0 {
            let n = outcomes.len() - 1;
            let prefix_states = states.take(n + 1);
            let prefix_outcomes = outcomes.take(n);
            assert forall|i: int| 0 <= i < prefix_outcomes.len() implies VtkWriter::recorded(#[trigger] prefix_states[i], prefix_outcomes[i], prefix_states[i + 1]) by {
                assert(VtkWriter::recorded(states[i], outcomes[i], states[i + 1]));
            }
            VtkWriter::lemma_write_run(prefix_states, prefix_outcomes);
            assert(prefix_outcomes =~= outcomes.drop_last());
            assert(VtkWriter::recorded(states[n], outcomes[n], states[n + 1]));
            assert forall|i: int| 0 <= i < outcomes.len() && #[trigger] outcomes[i] implies states[i].frame_file_name(states[i].frames()) == states[0].frame_file_name(successes(outcomes.take(i))) by {
                VtkWriter::lemma_states_keep_names(states, outcomes, i);
                if i < n {
                    assert(prefix_outcomes[i] == outcomes[i]);
                    assert(prefix_outcomes.take(i) =~= outcomes.take(i));
                    assert(prefix_states[i] == states[i]);
                } else {
                    assert(outcomes.take(i) =~= prefix_outcomes);
                    assert(prefix_states.last() == states[n]);
                }
            }
        }
    }

    /// Along a run of write attempts the directory and the prefix stay those
    /// of the first state.
    proof fn lemma_states_keep_names(states: Seq<VtkWriter>, outcomes: Seq<bool>, i: int)
        requires
            states.len() == outcomes.len() + 1,
            forall|k: int| 0 <= k < outcomes.len() ==> VtkWriter::recorded(#[trigger] states[k], outcomes[k], states[k + 1]),
            0 <= i < states.len(),
        ensures
            states[i].dir() == states[0].dir(),
            states[i].file_prefix() == states[0].file_prefix(),
        decreases i,
    {
        if i > 0 {
            VtkWriter::lemma_states_keep_names(states, outcomes, i - 1);
            assert(VtkWriter::recorded(states[i - 1], outcomes[i - 1], states[i]));
        }
    }
}


/// The `DIMENSIONS` line of a rectilinear grid of `nx` by `ny` cells: the
/// number of grid points along x, y and z.
pub fn vtk_dimensions_line(nx: usize, ny: usize) -> (r: String)
    requires
        nx < usize::MAX,
        ny < usize::MAX,
    ensures
        r@ == "DIMENSIONS "@ + decimal((nx + 1) as nat) + " "@ + decimal((ny + 1) as nat) + " 1"@,
{
    let mut line = String::from_str("DIMENSIONS ");
    append_decimal(&mut line, nx + 1);
    line.append(" ");
    append_decimal(&mut line, ny + 1);
    line.append(" 1");
    line
}

/// The coordinates line of an axis (`X`, `Y` or `Z`) with `cells` cells:
/// the number of grid points along it, which the line's values follow.
pub fn vtk_coordinates_line(axis: &str, cells: usize) -> (r: String)
    requires
        cells < usize::MAX,
    ensures
        r@ == axis@ + "_COORDINATES "@ + decimal((cells + 1) as nat) + " float"@,
{
    let mut line = String::from_str(axis);
    line.append("_COORDINATES ");
    append_decimal(&mut line, cells + 1);
    line.append(" float");
    line
}

/// The `CELL_DATA` line of a grid of `nx` by `ny` cells: the number of
/// cells, which each data section has a value for.
pub fn vtk_cell_data_line(nx: usize, ny: usize) -> (r: String)
    requires
        nx * ny <= usize::MAX,
    ensures
        r@ == "CELL_DATA "@ + decimal((nx * ny) as nat),
{
    let mut line = String::from_str("CELL_DATA ");
    append_decimal(&mut line, nx * ny);
    line
}

/// A data section of a VTK frame: one value per cell.
#[derive(Debug, Clone, Copy, PartialEq, Eq, Structural)]
pub enum VtkSection {
    /// Volume of fluid fraction.
    Vof,
    /// Pressure.
    Pressure,
    /// Density.
    Density,
    /// Velocity at the cell centre, a vector.
    Velocity,
    /// Magnitude of the velocity at the cell centre.
    VelocityMagnitude,
    /// Turbulent kinetic energy `k`.
    TurbulentKineticEnergy,
    /// Turbulent dissipation rate `epsilon`.
    DissipationRate,
    /// Turbulent viscosity `nu_t`.
    TurbulentViscosity,
}

impl VtkSection {
    /// The lines that open the section: `SCALARS <name> float 1` and
    /// `LOOKUP_TABLE default` for a scalar, `VECTORS velocity float` for the
    /// velocity.
    pub open spec fn header_text(self) -> Seq<char> {
        match self {
            VtkSection::Vof => "SCALARS vof float 1\nLOOKUP_TABLE default"@,
            VtkSection::Pressure => "SCALARS pressure float 1\nLOOKUP_TABLE default"@,
            VtkSection::Density => "SCALARS density float 1\nLOOKUP_TABLE default"@,
            VtkSection::Velocity => "VECTORS velocity float"@,
            VtkSection::VelocityMagnitude => "SCALARS velocity_magnitude float 1\nLOOKUP_TABLE default"@,
            VtkSection::TurbulentKineticEnergy => "SCALARS k float 1\nLOOKUP_TABLE default"@,
            VtkSection::DissipationRate => "SCALARS epsilon float 1\nLOOKUP_TABLE default"@,
            VtkSection::TurbulentViscosity => "SCALARS nu_t float 1\nLOOKUP_TABLE default"@,
        }
    }

    /// Each section's header names that section alone: distinct sections
    /// open with distinct headers, so no two data arrays of a frame carry the
    /// same name.  The velocity opens a vector array; every other section a
    /// scalar array (`SCALARS <name> float 1` and `LOOKUP_TABLE default`).
    pub proof fn lemma_headers_distinct(a: VtkSection, b: VtkSection)
        ensures
            a != b ==> a.header_text() != b.header_text(),
            a == VtkSection::Velocity <==> a.header_text() == "VECTORS velocity float"@,
            a != VtkSection::Velocity ==> a.header_text().take(8) == "SCALARS "@ && a.header_text().skip(a.header_text().len() - 29) == " float 1\nLOOKUP_TABLE default"@,
    {
        reveal_strlit("SCALARS vof float 1\nLOOKUP_TABLE default");
        reveal_strlit("SCALARS pressure float 1\nLOOKUP_TABLE default");
        reveal_strlit("SCALARS density float 1\nLOOKUP_TABLE default");
        reveal_strlit("VECTORS velocity float");
        reveal_strlit("SCALARS velocity_magnitude float 1\nLOOKUP_TABLE default");
        reveal_strlit("SCALARS k float 1\nLOOKUP_TABLE default");
        reveal_strlit("SCALARS epsilon float 1\nLOOKUP_TABLE default");
        reveal_strlit("SCALARS nu_t float 1\nLOOKUP_TABLE default");
        reveal_strlit("SCALARS ");
        reveal_strlit(" float 1\nLOOKUP_TABLE default");
        let ha = a.header_text();
        let hb = b.header_text();
        if a != b && ha == hb {
            assert(ha.len() == hb.len());
            assert(ha[8] == hb[8]);
            assert(ha[0] == hb[0]);
        }
        if a != VtkSection::Velocity {
            assert(ha.take(8) =~= "SCALARS "@);
            assert(ha.skip(ha.len() - 29) =~= " float 1\nLOOKUP_TABLE default"@);
            assert(ha.len() != "VECTORS velocity float"@.len());
        }
    }

    /// The lines that open the section, as `header_text` gives them.
    pub fn header(self) -> (r: String)
        ensures
            r@ == self.header_text(),
    {
        match self {
            VtkSection::Vof => String::from_str("SCALARS vof float 1\nLOOKUP_TABLE default"),
            VtkSection::Pressure => String::from_str("SCALARS pressure float 1\nLOOKUP_TABLE default"),
            VtkSection::Density => String::from_str("SCALARS density float 1\nLOOKUP_TABLE default"),
            VtkSection::Velocity => String::from_str("VECTORS velocity float"),
            VtkSection::VelocityMagnitude => String::from_str("SCALARS velocity_magnitude float 1\nLOOKUP_TABLE default"),
            VtkSection::TurbulentKineticEnergy => String::from_str("SCALARS k float 1\nLOOKUP_TABLE default"),
            VtkSection::DissipationRate => String::from_str("SCALARS epsilon float 1\nLOOKUP_TABLE default"),
            VtkSection::TurbulentViscosity => String::from_str("SCALARS nu_t float 1\nLOOKUP_TABLE default"),
        }
    }
}

/// The data sections of a frame, in the order they are written: `vof`,
/// `pressure`, `density`, `velocity` and `velocity_magnitude`, then, with
/// turbulence, `k`, `epsilon` and `nu_t`.
pub open spec fn vtk_section_order(has_turbulence: bool) -> Seq<VtkSection> {
    let base = seq![
        VtkSection::Vof,
        VtkSection::Pressure,
        VtkSection::Density,
        VtkSection::Velocity,
        VtkSection::VelocityMagnitude,
    ];
    if has_turbulence {
        base + seq![VtkSection::TurbulentKineticEnergy, VtkSection::DissipationRate, VtkSection::TurbulentViscosity]
    } else {
        base
    }
}

/// The data sections of a frame, in the order they are written.
pub fn vtk_sections(has_turbulence: bool) -> (r: Vec<VtkSection>)
    ensures
        r@ == vtk_section_order(has_turbulence),
{
    let mut sections: Vec<VtkSection> = Vec::new();
    sections.push(VtkSection::Vof);
    sections.push(VtkSection::Pressure);
    sections.push(VtkSection::Density);
    sections.push(VtkSection::Velocity);
    sections.push(VtkSection::VelocityMagnitude);
    if has_turbulence {
        sections.push(VtkSection::TurbulentKineticEnergy);
        sections.push(VtkSection::DissipationRate);
        sections.push(VtkSection::TurbulentViscosity);
    }
    assert(sections@ =~= vtk_section_order(has_turbulence));
    sections
}

} // verus!
