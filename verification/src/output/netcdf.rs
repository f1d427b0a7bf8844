//! The NetCDF-3 output: how many frames are buffered, when a file is full,
//! which file the buffered frames go to, and the definition of the files
//! (their dimensions, variables and attributes, following the CF
//! conventions).  NetCDF-3 files are written in one pass, so the application
//! buffers the frames in memory and writes them, with this definition, when a
//! file is full or the run ends.
//!
//! The definition is a `netcdf3::DataSet`, built through trusted wrappers of
//! its methods whose contracts state, over the names `nc_dims`, `nc_vars`,
//! `nc_var_attrs` and `nc_global_attrs`, what each method does to it.

use vstd::prelude::*;
use netcdf3::{DataSet, InvalidDataSet};
use vstd::string::StrSliceExecFns;
use vstd::utf8::encode_utf8;
use super::{append_zero_padded, lemma_numbered_names_distinct, zero_padded};
use vstd::arithmetic::div_mod::{lemma_fundamental_div_mod, lemma_fundamental_div_mod_converse, lemma_mod_pos_bound};

verus! {

/// NetCDF output writer state: the output prefix, the number of frames per
/// file (0 for a single file), the index of the current file and the number
/// of frames buffered for it.
pub struct NetcdfWriter {
    /// Output file prefix (without the `.nc` extension).
    prefix: String,
    /// Frames per file (0 = single file).
    frames_per_file: usize,
    /// Current file index.
    file_index: usize,
    /// Frames buffered for the current file.
    buffered: usize,
}

impl NetcdfWriter {
    /// The output prefix, as text.
    pub closed spec fn prefix_text(&self) -> Seq<char> {
        self.prefix@
    }

    /// Frames per file (0 for a single file).
    pub closed spec fn per_file(&self) -> nat {
        self.frames_per_file as nat
    }

    /// Index of the current file.
    pub closed spec fn index(&self) -> nat {
        self.file_index as nat
    }

    /// Frames buffered for the current file.
    pub closed spec fn frames(&self) -> nat {
        self.buffered as nat
    }

    /// Name of the file with index `index`: `<prefix>.nc` for a single file,
    /// `<prefix>_<index, three digits>.nc` when files rotate.
    pub open spec fn file_name(prefix: Seq<char>, per_file: nat, index: nat) -> Seq<char> {
        if per_file == 0 {
            prefix + ".nc"@
        } else {
            prefix + "_"@ + zero_padded(index, 3) + ".nc"@
        }
    }

    /// When files rotate, each file index has its own file name, so a new file
    /// never overwrites an earlier one.
    pub proof fn lemma_rotated_files_distinct(prefix: Seq<char>, per_file: nat, a: nat, b: nat)
        requires
            per_file > 0,
            a != b,
        ensures
            Self::file_name(prefix, per_file, a) != Self::file_name(prefix, per_file, b),
    {
        lemma_numbered_names_distinct(prefix + "_"@, ".nc"@, 3, a, b);
        assert(Self::file_name(prefix, per_file, a) =~= prefix + "_"@ + zero_padded(a, 3) + ".nc"@);
        assert(Self::file_name(prefix, per_file, b) =~= prefix + "_"@ + zero_padded(b, 3) + ".nc"@);
    }

    /// Create a NetCDF writer for `prefix`, writing `frames_per_file` frames
    /// per file (0 = a single file at the end).
    pub fn new(prefix: &str, frames_per_file: usize) -> (w: NetcdfWriter)
        ensures
            w.prefix_text() == prefix@,
            w.per_file() == frames_per_file,
            w.index() == 0,
            w.frames() == 0,
    {
        NetcdfWriter { prefix: String::from_str(prefix), frames_per_file, file_index: 0, buffered: 0 }
    }

    /// Get the number of frames buffered for the current file.
    pub fn frame(&self) -> (r: usize)
        ensures
            r == self.frames(),
    {
        self.buffered
    }

    /// Get the index of the current file.
    pub fn file_index(&self) -> (r: usize)
        ensures
            r == self.index(),
    {
        self.file_index
    }

    /// Get the output prefix.
    pub fn prefix(&self) -> (r: &str)
        ensures
            r@ == self.prefix_text(),
    {
        self.prefix.as_str()
    }

    /// Path of the current output file.
    pub fn current_filepath(&self) -> (r: String)
        ensures
            r@ == Self::file_name(self.prefix_text(), self.per_file(), self.index()),
    {
        let mut name = self.prefix.clone();
        if self.frames_per_file == 0 {
            name.append(".nc");
        } else {
            name.append("_");
            append_zero_padded(&mut name, self.file_index, 3);
            name.append(".nc");
        }
        name
    }

    /// Count one more buffered frame, and tell whether the current file is
    /// now full and has to be written (only when files rotate).
    pub fn buffer_frame(&mut self) -> (full: bool)
        requires
            old(self).frames() < usize::MAX,
        ensures
            NetcdfWriter::frame_buffered(*old(self), *final(self)),
            full == final(self).is_full(),
    {
        self.buffered = self.buffered + 1;
        self.frames_per_file > 0 && self.buffered >= self.frames_per_file
    }

    /// Whether there are buffered frames to write.
    pub fn has_frames(&self) -> (r: bool)
        ensures
            r == (self.frames() > 0),
    {
        self.buffered > 0
    }

    /// Record that the buffered frames were written to the current file: the
    /// buffer is empty again and the file name is unchanged.
    pub fn file_written(&mut self)
        ensures
            NetcdfWriter::file_emptied(*old(self), *final(self)),
    {
        self.buffered = 0;
    }

    /// Move on to the next file.
    pub fn next_file(&mut self)
        requires
            old(self).index() < usize::MAX,
        ensures
            NetcdfWriter::file_advanced(*old(self), *final(self)),
    {
        self.file_index = self.file_index + 1;
    }

    /// Whether the current file is full: files rotate and it has
    /// `frames_per_file` frames or more.
    pub open spec fn is_full(&self) -> bool {
        self.per_file() > 0 && self.frames() >= self.per_file()
    }

    /// `a` and `b` hold the same prefix, frames per file, file index and
    /// number of buffered frames.
    pub open spec fn same_state(a: NetcdfWriter, b: NetcdfWriter) -> bool {
        &&& b.prefix_text() == a.prefix_text()
        &&& b.per_file() == a.per_file()
        &&& b.index() == a.index()
        &&& b.frames() == a.frames()
    }

    /// The step that `buffer_frame` makes: one more frame buffered for the
    /// same file.
    pub open spec fn frame_buffered(before: NetcdfWriter, after: NetcdfWriter) -> bool {
        &&& after.prefix_text() == before.prefix_text()
        &&& after.per_file() == before.per_file()
        &&& after.index() == before.index()
        &&& after.frames() == before.frames() + 1
    }

    /// The step that `file_written` makes: no frame buffered, same file.
    pub open spec fn file_emptied(before: NetcdfWriter, after: NetcdfWriter) -> bool {
        &&& after.prefix_text() == before.prefix_text()
        &&& after.per_file() == before.per_file()
        &&& after.index() == before.index()
        &&& after.frames() == 0
    }

    /// The step that `next_file` makes: the next file, same buffer.
    pub open spec fn file_advanced(before: NetcdfWriter, after: NetcdfWriter) -> bool {
        &&& after.prefix_text() == before.prefix_text()
        &&& after.per_file() == before.per_file()
        &&& after.index() == before.index() + 1
        &&& after.frames() == before.frames()
    }

    /// The steps of frame `i` of a run: `states[i]` buffers the frame
    /// (`buffered[i]`); when that fills the file, the file is written
    /// (`emptied[i]`) and the writer moves to the next file (`states[i + 1]`),
    /// otherwise it goes on as it is.
    pub open spec fn frame_steps(
        states: Seq<NetcdfWriter>,
        buffered: Seq<NetcdfWriter>,
        emptied: Seq<NetcdfWriter>,
        i: int,
    ) -> bool {
        &&& NetcdfWriter::frame_buffered(states[i], buffered[i])
        &&& buffered[i].is_full() ==> NetcdfWriter::file_emptied(buffered[i], emptied[i])
            && NetcdfWriter::file_advanced(emptied[i], states[i + 1])
        &&& !buffered[i].is_full() ==> NetcdfWriter::same_state(buffered[i], states[i + 1])
    }

    /// Over a run of `n` frames from a new writer, each file written as soon
    /// as it is full: with `frames_per_file` = p > 0, frame `i` (from 0) goes
    /// to the file with index `i / p`, named `<prefix>_<i / p, three
    /// digits>.nc`, so each file gets `p` consecutive frames, and after frame
    /// `i` the writer holds `(i + 1) % p` frames for file `(i + 1) / p`.  With
    /// p = 0 every frame goes to the single file `<prefix>.nc`.
    pub proof fn lemma_rotation_run(
        states: Seq<NetcdfWriter>,
        buffered: Seq<NetcdfWriter>,
        emptied: Seq<NetcdfWriter>,
        n: nat,
    )
        requires
            states.len() == n + 1,
            buffered.len() == n,
            emptied.len() == n,
            states[0].index() == 0,
            states[0].frames() == 0,
            forall|i: int| 0 <= i < n ==> #[trigger] NetcdfWriter::frame_steps(states, buffered, emptied, i),
        ensures
            forall|i: int| 0 <= i <= n ==> (#[trigger] states[i]).prefix_text() == states[0].prefix_text() && states[i].per_file() == states[0].per_file(),
            forall|i: int| 0 <= i <= n ==> (#[trigger] states[i]).index() == (if states[0].per_file() > 0 { i / (states[0].per_file() as int) } else { 0 }),
            forall|i: int| 0 <= i <= n ==> (#[trigger] states[i]).frames() == (if states[0].per_file() > 0 { i % (states[0].per_file() as int) } else { i }),
            forall|i: int| 0 <= i < n ==> NetcdfWriter::file_name((#[trigger] buffered[i]).prefix_text(), buffered[i].per_file(), buffered[i].index()) == NetcdfWriter::file_name(states[0].prefix_text(), states[0].per_file(), (if states[0].per_file() > 0 { i / (states[0].per_file() as int) } else { 0 }) as nat),
    {
        assert forall|i: int| 0 <= i <= n implies (#[trigger] states[i]).prefix_text() == states[0].prefix_text() && states[i].per_file() == states[0].per_file() && states[i].index() == (if states[0].per_file() > 0 { i / (states[0].per_file() as int) } else { 0 }) && states[i].frames() == (if states[0].per_file() > 0 { i % (states[0].per_file() as int) } else { i }) by {
            NetcdfWriter::lemma_rotation_at(states, buffered, emptied, n, i);
        }
        assert forall|i: int| 0 <= i < n implies NetcdfWriter::file_name((#[trigger] buffered[i]).prefix_text(), buffered[i].per_file(), buffered[i].index()) == NetcdfWriter::file_name(states[0].prefix_text(), states[0].per_file(), (if states[0].per_file() > 0 { i / (states[0].per_file() as int) } else { 0 }) as nat) by {
            NetcdfWriter::lemma_rotation_at(states, buffered, emptied, n, i);
            assert(NetcdfWriter::frame_steps(states, buffered, emptied, i));
        }
    }

    /// The state before frame `i` of a run, as `lemma_rotation_run` states it.
    proof fn lemma_rotation_at(
        states: Seq<NetcdfWriter>,
        buffered: Seq<NetcdfWriter>,
        emptied: Seq<NetcdfWriter>,
        n: nat,
        i: int,
    )
        requires
            states.len() == n + 1,
            buffered.len() == n,
            emptied.len() == n,
            states[0].index() == 0,
            states[0].frames() == 0,
            forall|k: int| 0 <= k < n ==> #[trigger] NetcdfWriter::frame_steps(states, buffered, emptied, k),
            0 <= i <= n,
        ensures
            states[i].prefix_text() == states[0].prefix_text(),
            states[i].per_file() == states[0].per_file(),
            states[i].index() == (if states[0].per_file() > 0 { i / (states[0].per_file() as int) } else { 0 }),
            states[i].frames() == (if states[0].per_file() > 0 { i % (states[0].per_file() as int) } else { i }),
        decreases i,
    {
        let p = states[0].per_file() as int;
        if i == 0 {
            if p > 0 {
                lemma_fundamental_div_mod_converse(0, p, 0, 0);
            }
        } else {
            let j = i - 1;
            NetcdfWriter::lemma_rotation_at(states, buffered, emptied, n, j);
            assert(NetcdfWriter::frame_steps(states, buffered, emptied, j));
            if p > 0 {
                let q = j / p;
                let r = j % p;
                lemma_fundamental_div_mod(j, p);
                lemma_mod_pos_bound(j, p);
                if r + 1 == p {
                    assert(i == (q + 1) * p + 0) by (nonlinear_arith)
                        requires
                            j == p * q + r,
                            r + 1 == p,
                            i == j + 1,
                    ;
                    lemma_fundamental_div_mod_converse(i, p, q + 1, 0);
                } else {
                    assert(i == q * p + (r + 1)) by (nonlinear_arith)
                        requires
                            j == p * q + r,
                            i == j + 1,
                    ;
                    lemma_fundamental_div_mod_converse(i, p, q, r + 1);
                }
            }
        }
    }
}

/// A NetCDF-3 data set definition (dimensions, variables and attributes)
/// from the `netcdf3` crate.  Verus sees nothing inside it; what the layout
/// code needs of it is given by `nc_dims`, `nc_vars`, `nc_var_attrs` and
/// `nc_global_attrs`.
#[verifier::external_type_specification]
#[verifier::external_body]
pub struct ExDataSet(netcdf3::DataSet);

/// The error `netcdf3` reports for a data set definition it refuses.
#[verifier::external_type_specification]
#[verifier::external_body]
pub struct ExInvalidDataSet(netcdf3::InvalidDataSet);

/// The element type of a NetCDF-3 variable.
#[derive(Debug, Clone, Copy, PartialEq, Eq, Structural)]
pub enum NcType {
    /// 8-bit signed integers (`NC_BYTE`).
    I8,
    /// 8-bit unsigned integers (`NC_CHAR`).
    U8,
    /// 16-bit signed integers (`NC_SHORT`).
    I16,
    /// 32-bit signed integers (`NC_INT`).
    I32,
    /// 32-bit floats (`NC_FLOAT`).
    F32,
    /// 64-bit floats (`NC_DOUBLE`).
    F64,
}

/// The dimensions of a data set, in the order they were defined: name, size
/// and whether it is the unlimited (record) dimension.
pub uninterp spec fn nc_dims(ds: DataSet) -> Seq<(Seq<char>, nat, bool)>;

/// The variables of a data set, in the order they were defined: name, names
/// of its dimensions in order, and element type.
pub uninterp spec fn nc_vars(ds: DataSet) -> Seq<(Seq<char>, Seq<Seq<char>>, NcType)>;

/// The attributes of the variables of a data set: for each defined
/// variable, by name, its attributes in the order they were defined, each a
/// name and, for a byte (`u8`) attribute, its bytes.
pub uninterp spec fn nc_var_attrs(ds: DataSet) -> Map<Seq<char>, Seq<(Seq<char>, Seq<u8>)>>;

/// The global attributes of a data set, in the order they were defined:
/// name and, for a byte (`u8`) attribute, its bytes.
pub uninterp spec fn nc_global_attrs(ds: DataSet) -> Seq<(Seq<char>, Seq<u8>)>;

/// Largest size of a fixed dimension that NetCDF-3 accepts (`netcdf3`'s
/// `NC_MAX_DIM_SIZE`, `i32::MAX - 3`).
pub const MAX_DIM_SIZE: usize = 2147483644;

/// Largest number of dimensions of one variable (`netcdf3`'s
/// `NC_MAX_VAR_DIMS`).
pub const MAX_VAR_DIMS: usize = 1024;

/// Whether NetCDF-3 accepts `size` as the size of a fixed dimension.
pub open spec fn fixed_dim_size_ok(size: nat) -> bool {
    0 < size <= MAX_DIM_SIZE
}

/// A character allowed anywhere in a plain name: an ASCII letter or digit,
/// or `_`.
pub open spec fn name_char(c: char) -> bool {
    ('a' <= c <= 'z') || ('A' <= c <= 'Z') || ('0' <= c <= '9') || c == '_'
}

/// A plain NetCDF name: 1 to 256 ASCII letters, digits and underscores.
/// Every such name follows the NetCDF-3 naming rules.
pub open spec fn plain_name(s: Seq<char>) -> bool {
    1 <= s.len() <= 256 && forall|i: int| 0 <= i < s.len() ==> name_char(#[trigger] s[i])
}

/// The names of a list of dimension names given as text.
pub open spec fn dim_names(dims: Seq<&str>) -> Seq<Seq<char>> {
    dims.map_values(|d: &str| d@)
}

/// Whether a dimension called `name` is defined.
pub open spec fn has_dim(dims: Seq<(Seq<char>, nat, bool)>, name: Seq<char>) -> bool {
    exists|k: int| 0 <= k < dims.len() && (#[trigger] dims[k]).0 == name
}

/// Whether the dimension called `name` is the unlimited dimension.
pub open spec fn is_unlimited_dim(dims: Seq<(Seq<char>, nat, bool)>, name: Seq<char>) -> bool {
    exists|k: int| 0 <= k < dims.len() && (#[trigger] dims[k]).0 == name && dims[k].2
}

/// Whether the unlimited dimension is defined.
pub open spec fn has_unlimited_dim(dims: Seq<(Seq<char>, nat, bool)>) -> bool {
    exists|k: int| 0 <= k < dims.len() && (#[trigger] dims[k]).2
}

/// Whether a variable called `name` is defined.
pub open spec fn has_var(vars: Seq<(Seq<char>, Seq<Seq<char>>, NcType)>, name: Seq<char>) -> bool {
    exists|k: int| 0 <= k < vars.len() && (#[trigger] vars[k]).0 == name
}

/// Whether an attribute called `name` is among `attrs`.
pub open spec fn has_attr(attrs: Seq<(Seq<char>, Seq<u8>)>, name: Seq<char>) -> bool {
    exists|k: int| 0 <= k < attrs.len() && (#[trigger] attrs[k]).0 == name
}

/// Whether a variable may be defined over `var_dims`: every dimension is
/// defined, none is named twice, the unlimited dimension comes only first,
/// and there are at most `MAX_VAR_DIMS` of them.
pub open spec fn var_dims_valid(dims: Seq<(Seq<char>, nat, bool)>, var_dims: Seq<Seq<char>>) -> bool {
    &&& var_dims.len() <= MAX_VAR_DIMS
    &&& forall|k: int| 0 <= k < var_dims.len() ==> has_dim(dims, #[trigger] var_dims[k])
    &&& forall|k: int| 1 <= k < var_dims.len() ==> !is_unlimited_dim(dims, #[trigger] var_dims[k])
    &&& forall|a: int, b: int| 0 <= a < b < var_dims.len() ==> var_dims[a] != var_dims[b]
}

/// `DataSet::new`: an empty data set.
#[verifier::external_body]
fn nc_new() -> (ds: DataSet)
    ensures
        nc_dims(ds).len() == 0,
        nc_vars(ds).len() == 0,
        nc_var_attrs(ds).dom() == Set::<Seq<char>>::empty(),
        nc_global_attrs(ds).len() == 0,
{
    DataSet::new()
}

/// `DataSet::set_unlimited_dim`: defines the unlimited dimension, appended
/// to the dimensions, unless an unlimited dimension or a dimension of the
/// same name is already defined.  On an error nothing changes.  For a plain
/// name that is the whole rule; for other names the NetCDF naming rules
/// decide too, and are not stated.
#[verifier::external_body]
fn nc_set_unlimited_dim(ds: &mut DataSet, name: &str, size: usize) -> (r: Result<(), InvalidDataSet>)
    ensures
        r is Ok ==> nc_dims(*final(ds)) == nc_dims(*old(ds)).push((name@, size as nat, true)),
        r is Err ==> nc_dims(*final(ds)) == nc_dims(*old(ds)),
        nc_vars(*final(ds)) == nc_vars(*old(ds)),
        nc_var_attrs(*final(ds)) == nc_var_attrs(*old(ds)),
        nc_global_attrs(*final(ds)) == nc_global_attrs(*old(ds)),
        plain_name(name@) ==> (r is Ok <==> !has_unlimited_dim(nc_dims(*old(ds))) && !has_dim(
            nc_dims(*old(ds)),
            name@,
        )),
{
    ds.set_unlimited_dim(name, size)
}

/// `DataSet::add_fixed_dim`: appends a fixed dimension, unless a dimension
/// of the same name is defined or the size is 0 or above `MAX_DIM_SIZE`.
/// On an error nothing changes.  For a plain name that is the whole rule;
/// for other names the NetCDF naming rules decide too, and are not stated.
#[verifier::external_body]
fn nc_add_fixed_dim(ds: &mut DataSet, name: &str, size: usize) -> (r: Result<(), InvalidDataSet>)
    ensures
        r is Ok ==> nc_dims(*final(ds)) == nc_dims(*old(ds)).push((name@, size as nat, false)),
        r is Err ==> nc_dims(*final(ds)) == nc_dims(*old(ds)),
        nc_vars(*final(ds)) == nc_vars(*old(ds)),
        nc_var_attrs(*final(ds)) == nc_var_attrs(*old(ds)),
        nc_global_attrs(*final(ds)) == nc_global_attrs(*old(ds)),
        plain_name(name@) ==> (r is Ok <==> (!has_dim(nc_dims(*old(ds)), name@) && fixed_dim_size_ok(size as nat))),
{
    ds.add_fixed_dim(name, size)
}

/// `DataSet::add_var_i8`: appends an `i8` variable over the named
/// dimensions, with no attributes yet, unless a variable of the same name is
/// defined or the dimensions do not pass `var_dims_valid`.  On an error
/// nothing changes.  For a plain name that is the whole rule; for other
/// names the NetCDF naming rules decide too, and are not stated.
#[verifier::external_body]
fn nc_add_var_i8(ds: &mut DataSet, name: &str, dims: &[&str]) -> (r: Result<(), InvalidDataSet>)
    ensures
        r is Ok ==> nc_vars(*final(ds)) == nc_vars(*old(ds)).push(
            (name@, dim_names(dims@), NcType::I8),
        ),
        r is Ok ==> nc_var_attrs(*final(ds)) == nc_var_attrs(*old(ds)).insert(name@, Seq::empty()),
        r is Err ==> nc_vars(*final(ds)) == nc_vars(*old(ds)),
        r is Err ==> nc_var_attrs(*final(ds)) == nc_var_attrs(*old(ds)),
        nc_dims(*final(ds)) == nc_dims(*old(ds)),
        nc_global_attrs(*final(ds)) == nc_global_attrs(*old(ds)),
        plain_name(name@) ==> (r is Ok <==> var_dims_valid(nc_dims(*old(ds)), dim_names(dims@))
            && !has_var(nc_vars(*old(ds)), name@)),
{
    ds.add_var_i8(name, dims)
}

/// `DataSet::add_var_f32`: as `nc_add_var_i8`, for an `f32` variable.
#[verifier::external_body]
fn nc_add_var_f32(ds: &mut DataSet, name: &str, dims: &[&str]) -> (r: Result<(), InvalidDataSet>)
    ensures
        r is Ok ==> nc_vars(*final(ds)) == nc_vars(*old(ds)).push(
            (name@, dim_names(dims@), NcType::F32),
        ),
        r is Ok ==> nc_var_attrs(*final(ds)) == nc_var_attrs(*old(ds)).insert(name@, Seq::empty()),
        r is Err ==> nc_vars(*final(ds)) == nc_vars(*old(ds)),
        r is Err ==> nc_var_attrs(*final(ds)) == nc_var_attrs(*old(ds)),
        nc_dims(*final(ds)) == nc_dims(*old(ds)),
        nc_global_attrs(*final(ds)) == nc_global_attrs(*old(ds)),
        plain_name(name@) ==> (r is Ok <==> var_dims_valid(nc_dims(*old(ds)), dim_names(dims@))
            && !has_var(nc_vars(*old(ds)), name@)),
{
    ds.add_var_f32(name, dims)
}

/// `DataSet::add_var_f64`: as `nc_add_var_i8`, for an `f64` variable.
#[verifier::external_body]
fn nc_add_var_f64(ds: &mut DataSet, name: &str, dims: &[&str]) -> (r: Result<(), InvalidDataSet>)
    ensures
        r is Ok ==> nc_vars(*final(ds)) == nc_vars(*old(ds)).push(
            (name@, dim_names(dims@), NcType::F64),
        ),
        r is Ok ==> nc_var_attrs(*final(ds)) == nc_var_attrs(*old(ds)).insert(name@, Seq::empty()),
        r is Err ==> nc_vars(*final(ds)) == nc_vars(*old(ds)),
        r is Err ==> nc_var_attrs(*final(ds)) == nc_var_attrs(*old(ds)),
        nc_dims(*final(ds)) == nc_dims(*old(ds)),
        nc_global_attrs(*final(ds)) == nc_global_attrs(*old(ds)),
        plain_name(name@) ==> (r is Ok <==> var_dims_valid(nc_dims(*old(ds)), dim_names(dims@))
            && !has_var(nc_vars(*old(ds)), name@)),
{
    ds.add_var_f64(name, dims)
}

/// `DataSet::add_var_attr_u8`: appends the byte attribute `attr` to the
/// attributes of variable `var`, unless the variable is not defined or
/// already has an attribute of that name.  On an error nothing changes.  For a plain attribute name
/// that is the whole rule; for other names the NetCDF naming rules decide
/// too, and are not stated.
#[verifier::external_body]
fn nc_add_var_attr_u8(ds: &mut DataSet, var: &str, attr: &str, value: Vec<u8>) -> (r: Result<(), InvalidDataSet>)
    ensures
        r is Ok ==> nc_var_attrs(*final(ds)) == nc_var_attrs(*old(ds)).insert(var@, nc_var_attrs(*old(ds))[var@].push((attr@, value@))),
        r is Err ==> nc_var_attrs(*final(ds)) == nc_var_attrs(*old(ds)),
        nc_dims(*final(ds)) == nc_dims(*old(ds)),
        nc_vars(*final(ds)) == nc_vars(*old(ds)),
        nc_global_attrs(*final(ds)) == nc_global_attrs(*old(ds)),
        plain_name(attr@) ==> (r is Ok <==> (has_var(nc_vars(*old(ds)), var@) && !has_attr(nc_var_attrs(*old(ds))[var@], attr@))),
{
    ds.add_var_attr_u8(var, attr, value)
}

/// `DataSet::add_global_attr_u8`: appends a byte global attribute, unless
/// one of the same name is defined.  On an error nothing changes.  For a
/// plain name that is the whole rule; for other names the NetCDF naming
/// rules decide too, and are not stated.
#[verifier::external_body]
fn nc_add_global_attr_u8(ds: &mut DataSet, name: &str, value: Vec<u8>) -> (r: Result<(), InvalidDataSet>)
    ensures
        r is Ok ==> nc_global_attrs(*final(ds)) == nc_global_attrs(*old(ds)).push(
            (name@, value@),
        ),
        r is Err ==> nc_global_attrs(*final(ds)) == nc_global_attrs(*old(ds)),
        nc_dims(*final(ds)) == nc_dims(*old(ds)),
        nc_vars(*final(ds)) == nc_vars(*old(ds)),
        nc_var_attrs(*final(ds)) == nc_var_attrs(*old(ds)),
        plain_name(name@) ==> (r is Ok <==> !has_attr(nc_global_attrs(*old(ds)), name@)),
{
    ds.add_global_attr_u8(name, value)
}


/// Why the definition of a NetCDF output file could not be made.
#[derive(Debug)]
pub enum LayoutError {
    /// NetCDF-3 does not accept the size of a fixed dimension (0, or above
    /// `MAX_DIM_SIZE`).
    DimensionSize {
        /// Name of the dimension.
        dim: String,
        /// The size asked for.
        size: usize,
    },
    /// `netcdf3` refused another part of the definition.
    Refused,
}

/// The text of an attribute value, as the bytes stored in the file.
pub open spec fn text_bytes(text: Seq<char>) -> Seq<u8> {
    encode_utf8(text)
}

/// The attributes that describe a variable, in order: `units`, then
/// `long_name`.
pub open spec fn description(units: Seq<char>, long_name: Seq<char>) -> Seq<(Seq<char>, Seq<u8>)> {
    seq![("units"@, text_bytes(units)), ("long_name"@, text_bytes(long_name))]
}

/// `attrs` with variable `var` described by `units` and `long_name`.
pub open spec fn described(
    attrs: Map<Seq<char>, Seq<(Seq<char>, Seq<u8>)>>,
    var: Seq<char>,
    units: Seq<char>,
    long_name: Seq<char>,
) -> Map<Seq<char>, Seq<(Seq<char>, Seq<u8>)>> {
    attrs.insert(var, description(units, long_name))
}

/// The names of the variables among `vars`, in order.
pub open spec fn var_names(vars: Seq<(Seq<char>, Seq<Seq<char>>, NcType)>) -> Seq<Seq<char>> {
    vars.map_values(|v: (Seq<char>, Seq<Seq<char>>, NcType)| v.0)
}

/// The names of the output's variables, in the order they are defined.
pub open spec fn output_var_names() -> Seq<Seq<char>> {
    seq![
        "x"@,
        "y"@,
        "time"@,
        "vof"@,
        "p"@,
        "rho"@,
        "u"@,
        "v"@,
        "eta"@,
        "solid"@,
        "k"@,
        "epsilon"@,
        "nu_t"@,
    ]
}

/// The output's variable names are plain and pairwise distinct, and so are
/// the attribute names `units` and `long_name`.
proof fn lemma_output_names()
    ensures
        output_var_names().len() == 13,
        forall|i: int| 0 <= i < 13 ==> plain_name(#[trigger] output_var_names()[i]),
        forall|i: int, j: int| 0 <= i < 13 && 0 <= j < 13 && i != j ==> #[trigger] output_var_names()[i] != #[trigger] output_var_names()[j],
        plain_name("units"@),
        plain_name("long_name"@),
        "units"@ != "long_name"@,
{
    reveal_strlit("x");
    reveal_strlit("y");
    reveal_strlit("time");
    reveal_strlit("vof");
    reveal_strlit("p");
    reveal_strlit("rho");
    reveal_strlit("u");
    reveal_strlit("v");
    reveal_strlit("eta");
    reveal_strlit("solid");
    reveal_strlit("k");
    reveal_strlit("epsilon");
    reveal_strlit("nu_t");
    reveal_strlit("units");
    reveal_strlit("long_name");
    let names = output_var_names();
    // Each name is told apart from the others by its length and first character.
    let keys: Seq<(nat, char)> = seq![
        (1, 'x'),
        (1, 'y'),
        (4, 't'),
        (3, 'v'),
        (1, 'p'),
        (3, 'r'),
        (1, 'u'),
        (1, 'v'),
        (3, 'e'),
        (5, 's'),
        (1, 'k'),
        (7, 'e'),
        (4, 'n'),
    ];
    assert forall|i: int| 0 <= i < 13 implies plain_name(#[trigger] names[i]) && names[i].len() == keys[i].0 && names[i][0] == keys[i].1 by {
        if i == 0 {} else if i == 1 {} else if i == 2 {} else if i == 3 {} else if i == 4 {}
        else if i == 5 {} else if i == 6 {} else if i == 7 {} else if i == 8 {} else if i == 9 {}
        else if i == 10 {} else if i == 11 {} else {}
    }
    assert forall|i: int, j: int| 0 <= i < 13 && 0 <= j < 13 && i != j implies keys[i] != keys[j] by {
        if i == 0 {} else if i == 1 {} else if i == 2 {} else if i == 3 {} else if i == 4 {}
        else if i == 5 {} else if i == 6 {} else if i == 7 {} else if i == 8 {} else if i == 9 {}
        else if i == 10 {} else if i == 11 {} else {}
    }
    assert forall|i: int, j: int| 0 <= i < 13 && 0 <= j < 13 && i != j implies #[trigger] names[i] != #[trigger] names[j] by {
        assert(plain_name(names[i]) && plain_name(names[j]));
        assert(keys[i] != keys[j]);
        if names[i] == names[j] {
            assert(names[i].len() == names[j].len() && names[i][0] == names[j][0]);
        }
    }
    assert("units"@[0] != "long_name"@[0]);
}

/// The `k`-th output variable is not yet defined while the variables
/// defined are the first `k` output variables.
proof fn lemma_next_output_var_is_new(vars: Seq<(Seq<char>, Seq<Seq<char>>, NcType)>, k: int)
    requires
        0 <= k < 13,
        var_names(vars) == output_var_names().take(k),
    ensures
        !has_var(vars, output_var_names()[k]),
        plain_name(output_var_names()[k]),
{
    lemma_output_names();
    if has_var(vars, output_var_names()[k]) {
        let m = choose|m: int| 0 <= m < vars.len() && (#[trigger] vars[m]).0 == output_var_names()[k];
        assert(var_names(vars).len() == vars.len());
        assert(m < k);
        assert(var_names(vars)[m] == vars[m].0);
        assert(output_var_names()[m] == output_var_names().take(k)[m]);
    }
}

/// The dimensions of the output: `time`, the unlimited (record) dimension
/// with one record per frame, then `y` and `x`, the grid's cell rows and
/// columns.
pub open spec fn netcdf_dims(n_time: nat, ny: nat, nx: nat) -> Seq<(Seq<char>, nat, bool)> {
    seq![("time"@, n_time, true), ("y"@, ny, false), ("x"@, nx, false)]
}

/// The dimensions of a field: one value per frame and cell.
pub open spec fn field_dims() -> Seq<Seq<char>> {
    seq!["time"@, "y"@, "x"@]
}

/// The output's dimensions allow each list of dimensions that its variables
/// are defined over.
proof fn lemma_output_var_dims(n_time: nat, ny: nat, nx: nat)
    ensures
        var_dims_valid(netcdf_dims(n_time, ny, nx), seq!["x"@]),
        var_dims_valid(netcdf_dims(n_time, ny, nx), seq!["y"@]),
        var_dims_valid(netcdf_dims(n_time, ny, nx), seq!["time"@]),
        var_dims_valid(netcdf_dims(n_time, ny, nx), field_dims()),
        var_dims_valid(netcdf_dims(n_time, ny, nx), seq!["time"@, "x"@]),
        var_dims_valid(netcdf_dims(n_time, ny, nx), seq!["y"@, "x"@]),
{
    reveal_strlit("time");
    reveal_strlit("y");
    reveal_strlit("x");
    let dims = netcdf_dims(n_time, ny, nx);
    assert(dims[0].0 == "time"@ && dims[1].0 == "y"@ && dims[2].0 == "x"@);
    assert("y"@[0] != "x"@[0]);
    assert("time"@.len() != "x"@.len() && "time"@.len() != "y"@.len());
    assert(has_dim(dims, "time"@) && has_dim(dims, "y"@) && has_dim(dims, "x"@));
    assert(!is_unlimited_dim(dims, "y"@) && !is_unlimited_dim(dims, "x"@));
}

/// The variables of the output, in order: the cell-centre coordinates `x`
/// and `y`, the frame times `time`, the fields `vof`, `p`, `rho`, `u` and
/// `v` per frame and cell, the free surface `eta` per frame and column, the
/// static `solid` mask per cell, and, with turbulence, the fields `k`,
/// `epsilon` and `nu_t`.
pub open spec fn netcdf_vars(has_turbulence: bool) -> Seq<(Seq<char>, Seq<Seq<char>>, NcType)> {
    if has_turbulence {
        turbulence_vars()
    } else {
        surface_vars()
    }
}

/// The attributes of the output's variables: each has `units`, then
/// `long_name`.
pub open spec fn netcdf_var_attrs(has_turbulence: bool) -> Map<Seq<char>, Seq<(Seq<char>, Seq<u8>)>> {
    if has_turbulence {
        turbulence_attrs()
    } else {
        surface_attrs()
    }
}

/// The coordinate variables `x`, `y` and `time`.
pub open spec fn coordinate_vars() -> Seq<(Seq<char>, Seq<Seq<char>>, NcType)> {
    seq![("x"@, seq!["x"@], NcType::F32), ("y"@, seq!["y"@], NcType::F32), ("time"@, seq!["time"@], NcType::F64)]
}

/// The coordinate variables, then the fields `vof`, `p`, `rho`, `u`, `v`.
pub open spec fn field_vars() -> Seq<(Seq<char>, Seq<Seq<char>>, NcType)> {
    coordinate_vars().push(("vof"@, field_dims(), NcType::F32)).push(("p"@, field_dims(), NcType::F32)).push(
        ("rho"@, field_dims(), NcType::F32),
    ).push(("u"@, field_dims(), NcType::F32)).push(("v"@, field_dims(), NcType::F32))
}

/// The variables before, then `eta` and `solid`.
pub open spec fn surface_vars() -> Seq<(Seq<char>, Seq<Seq<char>>, NcType)> {
    field_vars().push(("eta"@, seq!["time"@, "x"@], NcType::F32)).push(("solid"@, seq!["y"@, "x"@], NcType::I8))
}

/// The variables before, then `k`, `epsilon` and `nu_t`.
pub open spec fn turbulence_vars() -> Seq<(Seq<char>, Seq<Seq<char>>, NcType)> {
    surface_vars().push(("k"@, field_dims(), NcType::F32)).push(("epsilon"@, field_dims(), NcType::F32)).push(
        ("nu_t"@, field_dims(), NcType::F32),
    )
}

/// The attributes of the coordinate variables.
pub open spec fn coordinate_attrs() -> Map<Seq<char>, Seq<(Seq<char>, Seq<u8>)>> {
    let a = described(Map::empty(), "x"@, "m"@, "x-coordinate of cell center"@);
    let a = described(a, "y"@, "m"@, "y-coordinate of cell center"@);
    described(a, "time"@, "s"@, "simulation time"@)
}

/// The attributes of the variables in `field_vars`.
pub open spec fn field_attrs() -> Map<Seq<char>, Seq<(Seq<char>, Seq<u8>)>> {
    let a = described(coordinate_attrs(), "vof"@, "1"@, "volume of fluid fraction"@);
    let a = described(a, "p"@, "Pa"@, "pressure"@);
    let a = described(a, "rho"@, "kg m-3"@, "density"@);
    let a = described(a, "u"@, "m s-1"@, "x-velocity at cell center"@);
    described(a, "v"@, "m s-1"@, "y-velocity at cell center"@)
}

/// The attributes of the variables in `surface_vars`.
pub open spec fn surface_attrs() -> Map<Seq<char>, Seq<(Seq<char>, Seq<u8>)>> {
    let a = described(field_attrs(), "eta"@, "m"@, "free surface elevation"@);
    described(a, "solid"@, "1"@, "solid mask (1=solid, 0=fluid)"@)
}

/// The attributes of the variables in `turbulence_vars`.
pub open spec fn turbulence_attrs() -> Map<Seq<char>, Seq<(Seq<char>, Seq<u8>)>> {
    let a = described(surface_attrs(), "k"@, "m2 s-2"@, "turbulent kinetic energy"@);
    let a = described(a, "epsilon"@, "m2 s-3"@, "turbulent dissipation rate"@);
    described(a, "nu_t"@, "m2 s-1"@, "turbulent viscosity"@)
}

/// Whether the dimensions `var_dims` of a variable come in the order in
/// which `dims` defines them.
pub open spec fn in_dataset_order(var_dims: Seq<Seq<char>>, dims: Seq<(Seq<char>, nat, bool)>) -> bool {
    forall|a: int, b: int, p: int, q: int|
        0 <= a < b < var_dims.len() && 0 <= p < dims.len() && 0 <= q < dims.len() && #[trigger] dims[p].0 == #[trigger] var_dims[a] && #[trigger] dims[q].0 == #[trigger] var_dims[b] ==> p < q
}

/// Each dimension list that the output's variables use follows the order of
/// the output's dimensions.
proof fn lemma_dim_lists_in_order(n_time: nat, ny: nat, nx: nat)
    ensures
        in_dataset_order(seq!["x"@], netcdf_dims(n_time, ny, nx)),
        in_dataset_order(seq!["y"@], netcdf_dims(n_time, ny, nx)),
        in_dataset_order(seq!["time"@], netcdf_dims(n_time, ny, nx)),
        in_dataset_order(field_dims(), netcdf_dims(n_time, ny, nx)),
        in_dataset_order(seq!["time"@, "x"@], netcdf_dims(n_time, ny, nx)),
        in_dataset_order(seq!["y"@, "x"@], netcdf_dims(n_time, ny, nx)),
{
    reveal_strlit("time");
    reveal_strlit("y");
    reveal_strlit("x");
    let d = netcdf_dims(n_time, ny, nx);
    assert("y"@[0] != "x"@[0]);
    assert("time"@.len() != "x"@.len() && "time"@.len() != "y"@.len());
    assert(d[0].0 == "time"@ && d[1].0 == "y"@ && d[2].0 == "x"@);
    assert(forall|p: int| 0 <= p < 3 && d[p].0 == "time"@ ==> p == 0);
    assert(forall|p: int| 0 <= p < 3 && d[p].0 == "y"@ ==> p == 1);
    assert(forall|p: int| 0 <= p < 3 && d[p].0 == "x"@ ==> p == 2);
}

/// The output's variables are laid out row by row: every variable lists its
/// dimensions in the order the data set defines them (`time`, then `y`,
/// then `x`), so that `x` varies fastest in its data, as
/// `Fields::solid_mask_row_major` lays out the solid mask (entry
/// `j * nx + i` for cell `(i, j)`).  The solid mask is defined over
/// (`y`, `x`), and each per-frame field over (`time`, `y`, `x`).
pub proof fn lemma_variables_row_major(has_turbulence: bool, n_time: nat, ny: nat, nx: nat)
    ensures
        forall|k: int| 0 <= k < netcdf_vars(has_turbulence).len() ==> in_dataset_order(#[trigger] netcdf_vars(has_turbulence)[k].1, netcdf_dims(n_time, ny, nx)),
        forall|k: int| 0 <= k < netcdf_vars(has_turbulence).len() && (#[trigger] netcdf_vars(has_turbulence)[k]).0 == "solid"@ ==> netcdf_vars(has_turbulence)[k].1 == seq!["y"@, "x"@],
        forall|k: int| 0 <= k < netcdf_vars(has_turbulence).len() && (#[trigger] netcdf_vars(has_turbulence)[k]).1.len() == 3 ==> netcdf_vars(has_turbulence)[k].1 == seq!["time"@, "y"@, "x"@],
{
    lemma_dim_lists_in_order(n_time, ny, nx);
    lemma_output_names();
    let vars = netcdf_vars(has_turbulence);
    assert(var_names(vars) =~= output_var_names().take(vars.len() as int));
    assert forall|k: int| 0 <= k < vars.len() implies in_dataset_order(#[trigger] vars[k].1, netcdf_dims(n_time, ny, nx)) by {
        if k == 0 {} else if k == 1 {} else if k == 2 {} else if k == 3 {} else if k == 4 {}
        else if k == 5 {} else if k == 6 {} else if k == 7 {} else if k == 8 {} else if k == 9 {}
        else if k == 10 {} else if k == 11 {} else {}
    }
    assert forall|k: int| 0 <= k < vars.len() && (#[trigger] vars[k]).0 == "solid"@ implies vars[k].1 == seq!["y"@, "x"@] by {
        assert(var_names(vars)[k] == vars[k].0);
        assert(output_var_names()[k] == output_var_names().take(vars.len() as int)[k]);
        assert(output_var_names()[9] == "solid"@);
        assert(k == 9);
    }
    assert forall|k: int| 0 <= k < vars.len() && (#[trigger] vars[k]).1.len() == 3 implies vars[k].1 == seq!["time"@, "y"@, "x"@] by {
        if k == 0 {} else if k == 1 {} else if k == 2 {} else if k == 3 {} else if k == 4 {}
        else if k == 5 {} else if k == 6 {} else if k == 7 {} else if k == 8 {} else if k == 9 {}
        else if k == 10 {} else if k == 11 {} else {}
    }
}

/// The global attributes of the output (CF conventions).
pub open spec fn netcdf_global_attrs() -> Seq<(Seq<char>, Seq<u8>)> {
    seq![
        ("title"@, text_bytes("VOF2D simulation output"@)),
        ("institution"@, text_bytes("VOF2D Solver"@)),
        ("Conventions"@, text_bytes("CF-1.8"@)),
    ]
}

/// Define the `k`-th output variable, `name`, of element type `ty` over
/// `dims`, with its `units` and `long_name` attributes, in `ds`, which holds
/// the output's dimensions and its first `k` variables.
fn add_described_var(
    ds: &mut DataSet,
    Ghost(k): Ghost<int>,
    ty: NcType,
    name: &str,
    dims: &[&str],
    units: &str,
    long_name: &str,
) -> (r: Result<(), InvalidDataSet>)
    requires
        0 <= k < 13,
        name@ == output_var_names()[k],
        var_names(nc_vars(*old(ds))) == output_var_names().take(k),
        ty == NcType::I8 || ty == NcType::F32 || ty == NcType::F64,
        var_dims_valid(nc_dims(*old(ds)), dim_names(dims@)),
    ensures
        r is Ok,
        nc_dims(*final(ds)) == nc_dims(*old(ds)),
        nc_vars(*final(ds)) == nc_vars(*old(ds)).push((name@, dim_names(dims@), ty)),
        var_names(nc_vars(*final(ds))) == output_var_names().take(k + 1),
        nc_var_attrs(*final(ds)) == described(nc_var_attrs(*old(ds)), name@, units@, long_name@),
        nc_global_attrs(*final(ds)) == nc_global_attrs(*old(ds)),
{
    proof {
        lemma_output_names();
        lemma_next_output_var_is_new(nc_vars(*ds), k);
    }
    let ghost before = *ds;
    let added = match ty {
        NcType::I8 => nc_add_var_i8(ds, name, dims),
        NcType::F64 => nc_add_var_f64(ds, name, dims),
        _ => nc_add_var_f32(ds, name, dims),
    };
    match added {
        Ok(()) => {},
        Err(e) => {
            return Err(e);
        },
    }
    assert(nc_vars(*ds)[nc_vars(before).len() as int].0 == name@);
    assert(has_var(nc_vars(*ds), name@));
    assert(var_names(nc_vars(*ds)) =~= var_names(nc_vars(before)).push(name@));
    assert(output_var_names().take(k + 1) =~= output_var_names().take(k).push(output_var_names()[k]));
    match nc_add_var_attr_u8(ds, name, "units", units.as_bytes_vec()) {
        Ok(()) => {},
        Err(e) => {
            return Err(e);
        },
    }
    assert(nc_var_attrs(*ds)[name@] =~= seq![("units"@, text_bytes(units@))]);
    match nc_add_var_attr_u8(ds, name, "long_name", long_name.as_bytes_vec()) {
        Ok(()) => {},
        Err(e) => {
            return Err(e);
        },
    }
    assert(nc_var_attrs(*ds)[name@] =~= description(units@, long_name@));
    assert(nc_var_attrs(*ds) =~= described(nc_var_attrs(before), name@, units@, long_name@));
    Ok(())
}

/// Define the coordinate variables in `ds`, which holds the output's
/// dimensions and nothing else.
fn define_coordinates(ds: &mut DataSet, Ghost(dims): Ghost<(nat, nat, nat)>) -> (r: Result<(), InvalidDataSet>)
    requires
        nc_dims(*old(ds)) == netcdf_dims(dims.0, dims.1, dims.2),
        nc_vars(*old(ds)).len() == 0,
        var_names(nc_vars(*old(ds))) == output_var_names().take(0),
        nc_var_attrs(*old(ds)).dom() == Set::<Seq<char>>::empty(),
    ensures
        r is Ok,
        nc_dims(*final(ds)) == nc_dims(*old(ds)),
        nc_vars(*final(ds)) == coordinate_vars(),
        var_names(nc_vars(*final(ds))) == output_var_names().take(3),
        nc_var_attrs(*final(ds)) == coordinate_attrs(),
        nc_global_attrs(*final(ds)) == nc_global_attrs(*old(ds)),
{
    proof {
        lemma_output_var_dims(dims.0, dims.1, dims.2);
        assert(nc_var_attrs(*ds) =~= Map::<Seq<char>, Seq<(Seq<char>, Seq<u8>)>>::empty());
    }
    let x_dims: [&str; 1] = ["x"];
    assert(dim_names(x_dims@) == seq!["x"@]);
    let y_dims: [&str; 1] = ["y"];
    assert(dim_names(y_dims@) == seq!["y"@]);
    let time_dims: [&str; 1] = ["time"];
    assert(dim_names(time_dims@) == seq!["time"@]);
    match add_described_var(ds, Ghost(0), NcType::F32, "x", &x_dims, "m", "x-coordinate of cell center") {
        Ok(()) => {},
        Err(e) => {
            return Err(e);
        },
    }
    match add_described_var(ds, Ghost(1), NcType::F32, "y", &y_dims, "m", "y-coordinate of cell center") {
        Ok(()) => {},
        Err(e) => {
            return Err(e);
        },
    }
    match add_described_var(ds, Ghost(2), NcType::F64, "time", &time_dims, "s", "simulation time") {
        Ok(()) => {},
        Err(e) => {
            return Err(e);
        },
    }
    Ok(())
}

/// Define the fields `vof`, `p`, `rho`, `u` and `v` in `ds`, which holds
/// the output's dimensions and coordinate variables.
fn define_fields(ds: &mut DataSet, Ghost(dims): Ghost<(nat, nat, nat)>) -> (r: Result<(), InvalidDataSet>)
    requires
        nc_dims(*old(ds)) == netcdf_dims(dims.0, dims.1, dims.2),
        nc_vars(*old(ds)) == coordinate_vars(),
        var_names(nc_vars(*old(ds))) == output_var_names().take(3),
        nc_var_attrs(*old(ds)) == coordinate_attrs(),
    ensures
        r is Ok,
        nc_dims(*final(ds)) == nc_dims(*old(ds)),
        nc_vars(*final(ds)) == field_vars(),
        var_names(nc_vars(*final(ds))) == output_var_names().take(8),
        nc_var_attrs(*final(ds)) == field_attrs(),
        nc_global_attrs(*final(ds)) == nc_global_attrs(*old(ds)),
{
    proof {
        lemma_output_var_dims(dims.0, dims.1, dims.2);
    }
    let field: [&str; 3] = ["time", "y", "x"];
    assert(dim_names(field@) == field_dims());
    match add_described_var(ds, Ghost(3), NcType::F32, "vof", &field, "1", "volume of fluid fraction") {
        Ok(()) => {},
        Err(e) => {
            return Err(e);
        },
    }
    match add_described_var(ds, Ghost(4), NcType::F32, "p", &field, "Pa", "pressure") {
        Ok(()) => {},
        Err(e) => {
            return Err(e);
        },
    }
    match add_described_var(ds, Ghost(5), NcType::F32, "rho", &field, "kg m-3", "density") {
        Ok(()) => {},
        Err(e) => {
            return Err(e);
        },
    }
    match add_described_var(ds, Ghost(6), NcType::F32, "u", &field, "m s-1", "x-velocity at cell center") {
        Ok(()) => {},
        Err(e) => {
            return Err(e);
        },
    }
    match add_described_var(ds, Ghost(7), NcType::F32, "v", &field, "m s-1", "y-velocity at cell center") {
        Ok(()) => {},
        Err(e) => {
            return Err(e);
        },
    }
    Ok(())
}

/// Define the free surface `eta` and the `solid` mask in `ds`, which holds
/// the output's dimensions, coordinate variables and fields.
fn define_surface(ds: &mut DataSet, Ghost(dims): Ghost<(nat, nat, nat)>) -> (r: Result<(), InvalidDataSet>)
    requires
        nc_dims(*old(ds)) == netcdf_dims(dims.0, dims.1, dims.2),
        nc_vars(*old(ds)) == field_vars(),
        var_names(nc_vars(*old(ds))) == output_var_names().take(8),
        nc_var_attrs(*old(ds)) == field_attrs(),
    ensures
        r is Ok,
        nc_dims(*final(ds)) == nc_dims(*old(ds)),
        nc_vars(*final(ds)) == surface_vars(),
        var_names(nc_vars(*final(ds))) == output_var_names().take(10),
        nc_var_attrs(*final(ds)) == surface_attrs(),
        nc_global_attrs(*final(ds)) == nc_global_attrs(*old(ds)),
{
    proof {
        lemma_output_var_dims(dims.0, dims.1, dims.2);
    }
    let column_dims: [&str; 2] = ["time", "x"];
    assert(dim_names(column_dims@) == seq!["time"@, "x"@]);
    let grid_dims: [&str; 2] = ["y", "x"];
    assert(dim_names(grid_dims@) == seq!["y"@, "x"@]);
    match add_described_var(ds, Ghost(8), NcType::F32, "eta", &column_dims, "m", "free surface elevation") {
        Ok(()) => {},
        Err(e) => {
            return Err(e);
        },
    }
    match add_described_var(ds, Ghost(9), NcType::I8, "solid", &grid_dims, "1", "solid mask (1=solid, 0=fluid)") {
        Ok(()) => {},
        Err(e) => {
            return Err(e);
        },
    }
    Ok(())
}

/// Define the turbulence fields `k`, `epsilon` and `nu_t` in `ds`, which
/// holds the output's other variables.
fn define_turbulence(ds: &mut DataSet, Ghost(dims): Ghost<(nat, nat, nat)>) -> (r: Result<(), InvalidDataSet>)
    requires
        nc_dims(*old(ds)) == netcdf_dims(dims.0, dims.1, dims.2),
        nc_vars(*old(ds)) == surface_vars(),
        var_names(nc_vars(*old(ds))) == output_var_names().take(10),
        nc_var_attrs(*old(ds)) == surface_attrs(),
    ensures
        r is Ok,
        nc_dims(*final(ds)) == nc_dims(*old(ds)),
        nc_vars(*final(ds)) == turbulence_vars(),
        var_names(nc_vars(*final(ds))) == output_var_names().take(13),
        nc_var_attrs(*final(ds)) == turbulence_attrs(),
        nc_global_attrs(*final(ds)) == nc_global_attrs(*old(ds)),
{
    proof {
        lemma_output_var_dims(dims.0, dims.1, dims.2);
    }
    let field: [&str; 3] = ["time", "y", "x"];
    assert(dim_names(field@) == field_dims());
    match add_described_var(ds, Ghost(10), NcType::F32, "k", &field, "m2 s-2", "turbulent kinetic energy") {
        Ok(()) => {},
        Err(e) => {
            return Err(e);
        },
    }
    match add_described_var(ds, Ghost(11), NcType::F32, "epsilon", &field, "m2 s-3", "turbulent dissipation rate") {
        Ok(()) => {},
        Err(e) => {
            return Err(e);
        },
    }
    match add_described_var(ds, Ghost(12), NcType::F32, "nu_t", &field, "m2 s-1", "turbulent viscosity") {
        Ok(()) => {},
        Err(e) => {
            return Err(e);
        },
    }
    Ok(())
}

/// Define the global attributes in `ds`, which has none yet.
fn define_global_attrs(ds: &mut DataSet) -> (r: Result<(), InvalidDataSet>)
    requires
        nc_global_attrs(*old(ds)).len() == 0,
    ensures
        r is Ok,
        nc_dims(*final(ds)) == nc_dims(*old(ds)),
        nc_vars(*final(ds)) == nc_vars(*old(ds)),
        nc_var_attrs(*final(ds)) == nc_var_attrs(*old(ds)),
        nc_global_attrs(*final(ds)) == netcdf_global_attrs(),
{
    proof {
        reveal_strlit("title");
        reveal_strlit("institution");
        reveal_strlit("Conventions");
        assert("institution"@[0] != "Conventions"@[0]);
        assert(nc_global_attrs(*ds) == Seq::<(Seq<char>, Seq<u8>)>::empty());
    }
    match nc_add_global_attr_u8(ds, "title", "VOF2D simulation output".as_bytes_vec()) {
        Ok(()) => {},
        Err(e) => {
            return Err(e);
        },
    }
    assert(nc_global_attrs(*ds)[0].0 == "title"@);
    match nc_add_global_attr_u8(ds, "institution", "VOF2D Solver".as_bytes_vec()) {
        Ok(()) => {},
        Err(e) => {
            return Err(e);
        },
    }
    assert(nc_global_attrs(*ds)[1].0 == "institution"@);
    match nc_add_global_attr_u8(ds, "Conventions", "CF-1.8".as_bytes_vec()) {
        Ok(()) => {},
        Err(e) => {
            return Err(e);
        },
    }
    Ok(())
}

/// The definition of a NetCDF output file: its dimensions for `n_time`
/// frames on an `nx` by `ny` grid, its variables with their `units` and
/// `long_name` attributes (`k`, `epsilon` and `nu_t` only with turbulence),
/// and its global attributes.  NetCDF-3 refuses a fixed dimension of size 0
/// or above `MAX_DIM_SIZE`; then the first such dimension, `y` before `x`,
/// is reported.
pub fn netcdf_dataset(n_time: usize, ny: usize, nx: usize, has_turbulence: bool) -> (r: Result<DataSet, LayoutError>)
    ensures
        r is Ok <==> (fixed_dim_size_ok(ny as nat) && fixed_dim_size_ok(nx as nat)),
        r matches Ok(ds) ==> nc_dims(ds) == netcdf_dims(n_time as nat, ny as nat, nx as nat),
        r matches Ok(ds) ==> nc_vars(ds) == netcdf_vars(has_turbulence),
        r matches Ok(ds) ==> nc_var_attrs(ds) == netcdf_var_attrs(has_turbulence),
        r matches Ok(ds) ==> nc_global_attrs(ds) == netcdf_global_attrs(),
        r is Err ==> (r matches Err(LayoutError::DimensionSize { dim, size }) && (if fixed_dim_size_ok(ny as nat) { dim@ == "x"@ && size == nx } else { dim@ == "y"@ && size == ny })),
{
    proof {
        reveal_strlit("time");
        reveal_strlit("y");
        reveal_strlit("x");
    }
    let mut ds = nc_new();
    match nc_set_unlimited_dim(&mut ds, "time", n_time) {
        Ok(()) => {},
        Err(_) => {
            return Err(LayoutError::Refused);
        },
    }
    match nc_add_fixed_dim(&mut ds, "y", ny) {
        Ok(()) => {},
        Err(_) => {
            return Err(LayoutError::DimensionSize { dim: String::from_str("y"), size: ny });
        },
    }
    assert("y"@[0] != "x"@[0] && "time"@.len() != "x"@.len());
    assert(!has_dim(nc_dims(ds), "x"@));
    match nc_add_fixed_dim(&mut ds, "x", nx) {
        Ok(()) => {},
        Err(_) => {
            return Err(LayoutError::DimensionSize { dim: String::from_str("x"), size: nx });
        },
    }
    assert(nc_dims(ds) == netcdf_dims(n_time as nat, ny as nat, nx as nat));
    let ghost dims = (n_time as nat, ny as nat, nx as nat);
    assert(var_names(nc_vars(ds)) =~= output_var_names().take(0));
    match define_coordinates(&mut ds, Ghost(dims)) {
        Ok(()) => {},
        Err(_) => {
            return Err(LayoutError::Refused);
        },
    }
    match define_fields(&mut ds, Ghost(dims)) {
        Ok(()) => {},
        Err(_) => {
            return Err(LayoutError::Refused);
        },
    }
    match define_surface(&mut ds, Ghost(dims)) {
        Ok(()) => {},
        Err(_) => {
            return Err(LayoutError::Refused);
        },
    }
    if has_turbulence {
        match define_turbulence(&mut ds, Ghost(dims)) {
            Ok(()) => {},
            Err(_) => {
                return Err(LayoutError::Refused);
            },
        }
    }
    match define_global_attrs(&mut ds) {
        Ok(()) => {},
        Err(_) => {
            return Err(LayoutError::Refused);
        },
    }
    Ok(ds)
}

} // verus!
