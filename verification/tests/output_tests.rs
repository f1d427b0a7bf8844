use rustvof::config::{
    default_max_iter, default_probe_file, default_turbulence_model, BathymetryType, OutputFormat,
    PressureSolverType, WaveType,
};
use rustvof::output::netcdf::{netcdf_dataset, LayoutError, MAX_DIM_SIZE, MAX_VAR_DIMS};
use rustvof::output::vtk::{
    vtk_cell_data_line, vtk_coordinates_line, vtk_dimensions_line, vtk_sections, VtkSection,
};
use rustvof::output::{NetcdfWriter, VtkWriter};

#[test]
fn vtk_writer_splits_the_prefix() {
    let w = VtkWriter::new("results/run1");
    assert_eq!(w.output_dir, "results");
    assert_eq!(w.prefix, "run1");
    assert_eq!(w.frame(), 0);
    assert!(w.needs_output_dir());
}

#[test]
fn vtk_writer_without_directory() {
    let w = VtkWriter::new("run1");
    assert_eq!(w.output_dir, "");
    assert_eq!(w.prefix, "run1");
    assert!(!w.needs_output_dir());
    let root = VtkWriter::new("/");
    assert_eq!(root.output_dir, ".");
    assert_eq!(root.prefix, "output");
    assert!(!root.needs_output_dir());
}

#[test]
fn vtk_frames_are_numbered_with_six_digits() {
    let mut w = VtkWriter::new("out/sloshing");
    assert_eq!(w.next_file_name(), "out/sloshing_000000.vtk");
    w.record_write(true);
    assert_eq!(w.frame(), 1);
    assert_eq!(w.next_file_name(), "out/sloshing_000001.vtk");
    for _ in 0..1233 {
        w.record_write(true);
    }
    assert_eq!(w.next_file_name(), "out/sloshing_001234.vtk");
}

#[test]
fn netcdf_single_file_name() {
    let w = NetcdfWriter::new("out/run", 0);
    assert_eq!(w.current_filepath(), "out/run.nc");
    assert_eq!(w.prefix(), "out/run");
    assert_eq!(w.frame(), 0);
}

#[test]
fn netcdf_files_rotate_after_the_frame_limit() {
    let mut w = NetcdfWriter::new("out/run", 2);
    assert_eq!(w.current_filepath(), "out/run_000.nc");
    assert!(!w.buffer_frame());
    assert!(w.has_frames());
    assert!(w.buffer_frame());
    assert_eq!(w.frame(), 2);
    w.file_written();
    assert!(!w.has_frames());
    w.next_file();
    assert_eq!(w.current_filepath(), "out/run_001.nc");
    for _ in 0..11 {
        w.next_file();
    }
    assert_eq!(w.current_filepath(), "out/run_012.nc");
}

#[test]
fn netcdf_single_file_never_full() {
    let mut w = NetcdfWriter::new("run", 0);
    for _ in 0..100 {
        assert!(!w.buffer_frame());
    }
    assert_eq!(w.frame(), 100);
}

#[test]
fn configuration_defaults() {
    assert_eq!(default_max_iter(), 10000);
    assert_eq!(default_turbulence_model(), "k-epsilon");
    assert_eq!(default_probe_file(), "probes.csv");
    assert_eq!(PressureSolverType::default(), PressureSolverType::Iterative);
    assert_eq!(WaveType::default(), WaveType::Periodic);
    assert_eq!(BathymetryType::default(), BathymetryType::Flat);
    assert_eq!(OutputFormat::default(), OutputFormat::Vtk);
}

#[test]
fn netcdf_file_index_counts_files() {
    let mut w = NetcdfWriter::new("out/run", 1);
    assert_eq!(w.file_index(), 0);
    assert!(w.buffer_frame());
    w.file_written();
    w.next_file();
    assert_eq!(w.file_index(), 1);
    assert_eq!(w.frame(), 0);
}

#[test]
fn vtk_frame_names_differ() {
    let mut w = VtkWriter::new("a/b");
    let first = w.next_file_name();
    w.record_write(true);
    assert_ne!(first, w.next_file_name());
}

#[test]
fn vtk_writer_from_path_parts() {
    let w = VtkWriter::from_path_parts(None, None);
    assert_eq!(w.output_dir, ".");
    assert_eq!(w.prefix, "output");
    assert_eq!(w.frame(), 0);
    assert!(!w.needs_output_dir());

    let w = VtkWriter::from_path_parts(Some("out/a".to_string()), Some("run".to_string()));
    assert_eq!(w.output_dir, "out/a");
    assert_eq!(w.prefix, "run");
    assert_eq!(w.next_file_name(), "out/a/run_000000.vtk");
}

#[test]
fn vtk_failed_write_keeps_the_frame() {
    let mut w = VtkWriter::new("out/run");
    let outcomes = [true, false, true, false, false, true];
    let mut written = Vec::new();
    for ok in outcomes {
        let name = w.next_file_name();
        if ok {
            written.push(name);
        }
        w.record_write(ok);
    }
    assert_eq!(w.frame(), 3);
    assert_eq!(
        written,
        vec!["out/run_000000.vtk", "out/run_000001.vtk", "out/run_000002.vtk"]
    );
}

#[test]
fn vtk_header_lines() {
    assert_eq!(vtk_dimensions_line(10, 5), "DIMENSIONS 11 6 1");
    assert_eq!(vtk_coordinates_line("X", 10), "X_COORDINATES 11 float");
    assert_eq!(vtk_coordinates_line("Y", 5), "Y_COORDINATES 6 float");
    assert_eq!(vtk_coordinates_line("Z", 0), "Z_COORDINATES 1 float");
    assert_eq!(vtk_cell_data_line(10, 5), "CELL_DATA 50");
    assert_eq!(vtk_cell_data_line(0, 7), "CELL_DATA 0");
}

#[test]
fn vtk_sections_in_order() {
    let plain = vtk_sections(false);
    assert_eq!(
        plain,
        vec![
            VtkSection::Vof,
            VtkSection::Pressure,
            VtkSection::Density,
            VtkSection::Velocity,
            VtkSection::VelocityMagnitude,
        ]
    );
    let turbulent = vtk_sections(true);
    assert_eq!(turbulent.len(), 8);
    assert_eq!(&turbulent[..5], &plain[..]);
    assert_eq!(turbulent[5], VtkSection::TurbulentKineticEnergy);
    assert_eq!(turbulent[6], VtkSection::DissipationRate);
    assert_eq!(turbulent[7], VtkSection::TurbulentViscosity);
    assert_eq!(VtkSection::Vof.header(), "SCALARS vof float 1\nLOOKUP_TABLE default");
    assert_eq!(VtkSection::Velocity.header(), "VECTORS velocity float");
    assert_eq!(VtkSection::TurbulentViscosity.header(), "SCALARS nu_t float 1\nLOOKUP_TABLE default");
}

#[test]
fn output_format_writers() {
    assert!(OutputFormat::Vtk.writes_vtk());
    assert!(!OutputFormat::Vtk.writes_netcdf());
    assert!(!OutputFormat::Netcdf.writes_vtk());
    assert!(OutputFormat::Netcdf.writes_netcdf());
    assert!(OutputFormat::Both.writes_vtk());
    assert!(OutputFormat::Both.writes_netcdf());
}

#[test]
fn netcdf_dimension_limit_is_netcdf3s() {
    assert_eq!(MAX_DIM_SIZE, netcdf3::NC_MAX_DIM_SIZE);
    assert_eq!(MAX_VAR_DIMS, netcdf3::NC_MAX_VAR_DIMS);
}

#[test]
fn netcdf_dataset_layout() {
    let ds = netcdf_dataset(3, 5, 10, false).unwrap();
    assert_eq!(ds.dim_names(), vec!["time", "y", "x"]);
    assert_eq!(ds.dim_size("time"), Some(3));
    assert_eq!(ds.dim_size("y"), Some(5));
    assert_eq!(ds.dim_size("x"), Some(10));
    assert!(ds.has_unlimited_dim());
    assert_eq!(ds.get_unlimited_dim().unwrap().name(), "time");
    assert_eq!(
        ds.get_var_names(),
        vec!["x", "y", "time", "vof", "p", "rho", "u", "v", "eta", "solid"]
    );
    assert_eq!(ds.var_data_type("time"), Some(netcdf3::DataType::F64));
    assert_eq!(ds.var_data_type("solid"), Some(netcdf3::DataType::I8));
    assert_eq!(ds.var_data_type("vof"), Some(netcdf3::DataType::F32));
    assert_eq!(ds.var_len("vof"), Some(3 * 5 * 10));
    assert_eq!(ds.var_len("eta"), Some(3 * 10));
    assert_eq!(ds.var_len("solid"), Some(5 * 10));
    assert_eq!(ds.get_var_attr_u8("rho", "units"), Some(&b"kg m-3"[..]));
    assert_eq!(ds.get_var_attr_u8("u", "long_name"), Some(&b"x-velocity at cell center"[..]));
    assert_eq!(ds.get_var_attr_u8("solid", "long_name"), Some(&b"solid mask (1=solid, 0=fluid)"[..]));
    assert_eq!(ds.get_global_attr_names(), vec!["title", "institution", "Conventions"]);
    assert!(!ds.has_var("k"));
}

#[test]
fn netcdf_dataset_with_turbulence() {
    let ds = netcdf_dataset(1, 2, 2, true).unwrap();
    assert_eq!(ds.num_vars(), 13);
    assert_eq!(ds.get_var_names()[10..], ["k", "epsilon", "nu_t"]);
    assert_eq!(ds.get_var_attr_u8("epsilon", "units"), Some(&b"m2 s-3"[..]));
    assert_eq!(ds.get_var_attr_u8("nu_t", "long_name"), Some(&b"turbulent viscosity"[..]));
}

#[test]
fn netcdf_dataset_refuses_bad_dimensions() {
    match netcdf_dataset(1, 0, 4, false) {
        Err(LayoutError::DimensionSize { dim, size }) => {
            assert_eq!(dim, "y");
            assert_eq!(size, 0);
        }
        other => panic!("unexpected: {:?}", other.map(|_| ())),
    }
    match netcdf_dataset(1, 4, MAX_DIM_SIZE + 1, false) {
        Err(LayoutError::DimensionSize { dim, size }) => {
            assert_eq!(dim, "x");
            assert_eq!(size, MAX_DIM_SIZE + 1);
        }
        other => panic!("unexpected: {:?}", other.map(|_| ())),
    }
    match netcdf_dataset(0, 0, 0, true) {
        Err(LayoutError::DimensionSize { dim, .. }) => assert_eq!(dim, "y"),
        other => panic!("unexpected: {:?}", other.map(|_| ())),
    }
    assert!(netcdf_dataset(0, 1, MAX_DIM_SIZE, false).is_ok());
}

#[test]
fn netcdf_rotation_run() {
    let mut w = NetcdfWriter::new("out/run", 2);
    let mut files_of_frames = Vec::new();
    let mut written = Vec::new();
    for _ in 0..5 {
        files_of_frames.push(w.current_filepath());
        let full = w.buffer_frame();
        if full {
            written.push(w.current_filepath());
            w.file_written();
            w.next_file();
        }
    }
    assert_eq!(
        files_of_frames,
        vec!["out/run_000.nc", "out/run_000.nc", "out/run_001.nc", "out/run_001.nc", "out/run_002.nc"]
    );
    assert_eq!(written, vec!["out/run_000.nc", "out/run_001.nc"]);
    assert_eq!(w.file_index(), 2);
    assert_eq!(w.frame(), 1);
    assert!(w.has_frames());
}

#[test]
fn netcdf_variable_attributes_in_order() {
    let ds = netcdf_dataset(2, 3, 4, true).unwrap();
    for var in ds.get_var_names() {
        let names: Vec<&str> = ds.get_var_attrs(&var).unwrap().iter().map(|a| a.name()).collect();
        assert_eq!(names, vec!["units", "long_name"], "variable {}", var);
    }
}
