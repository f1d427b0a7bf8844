use rustvof::cell_type::CellType;
use rustvof::fields::Fields;
use rustvof::mesh::Mesh;

fn test_mesh() -> Mesh {
    Mesh::new(10, 5)
}

#[test]
fn new_fields_are_all_fluid() {
    let mesh = test_mesh();
    let fields = Fields::new(&mesh);
    for (i, j) in mesh.cells() {
        assert!(fields.is_fluid(i, j));
        assert!(fields.allows_flow(i, j));
        assert!(!fields.is_solid(i, j));
    }
}

#[test]
fn set_solid_and_set_fluid_change_one_cell() {
    let mesh = test_mesh();
    let mut fields = Fields::new(&mesh);
    fields.set_solid(3, 2);
    assert!(fields.is_solid(3, 2));
    assert_eq!(fields.cell_type_at(3, 2), CellType::Solid);
    assert!(fields.is_fluid(2, 2));
    assert!(fields.is_fluid(3, 1));
    fields.set_fluid(3, 2);
    assert!(fields.is_fluid(3, 2));
}

#[test]
fn rectangle_of_cells_is_set() {
    let mesh = test_mesh();
    let mut fields = Fields::new(&mesh);
    fields.set_cell_type_rect(&mesh, 2, 4, 1, 3, CellType::Porous);
    for (i, j) in mesh.cells() {
        let inside = (2..4).contains(&i) && (1..3).contains(&j);
        assert_eq!(fields.cell_type_at(i, j) == CellType::Porous, inside);
    }
}

#[test]
fn paddle_marks_cells_behind_it_and_keeps_permanent_solids() {
    let mesh = test_mesh();
    let mut fields = Fields::new(&mesh);
    fields.set_solid(1, 0);
    fields.set_solid_behind_paddle(&mesh, 3);
    for j in 0..mesh.ny {
        for i in 0..mesh.nx {
            if i == 1 && j == 0 {
                assert_eq!(fields.cell_type_at(i, j), CellType::Solid);
            } else if i < 3 {
                assert_eq!(fields.cell_type_at(i, j), CellType::Paddle);
            } else {
                assert_eq!(fields.cell_type_at(i, j), CellType::Fluid);
            }
            assert_eq!(fields.is_solid(i, j), i < 3);
        }
    }
    // the paddle retracts: its cells turn back into fluid, the solid stays
    fields.set_solid_behind_paddle(&mesh, 1);
    assert_eq!(fields.cell_type_at(0, 3), CellType::Paddle);
    assert_eq!(fields.cell_type_at(2, 3), CellType::Fluid);
    assert_eq!(fields.cell_type_at(1, 0), CellType::Solid);
}

#[test]
fn paddle_passing_over_porous_cell_leaves_fluid() {
    let mesh = test_mesh();
    let mut fields = Fields::new(&mesh);
    fields.set_cell_type_rect(&mesh, 2, 3, 0, 1, CellType::Porous);
    fields.set_solid_behind_paddle(&mesh, 4);
    fields.set_solid_behind_paddle(&mesh, 0);
    assert_eq!(fields.cell_type_at(2, 0), CellType::Fluid);
}

#[test]
fn faces_next_to_solids() {
    let mesh = test_mesh();
    let mut fields = Fields::new(&mesh);
    fields.set_solid(4, 2);
    fields.set_solid_behind_paddle(&mesh, 1);
    // u-faces on both sides of the solid cell
    assert!(fields.u_face_touches_solid(&mesh, 4, 2));
    assert!(fields.u_face_touches_solid(&mesh, 5, 2));
    assert!(!fields.u_face_touches_solid(&mesh, 6, 2));
    assert!(fields.u_face_touches_permanent_solid(&mesh, 5, 2));
    // the paddle column is solid but not permanent
    assert!(fields.u_face_touches_solid(&mesh, 1, 0));
    assert!(!fields.u_face_touches_permanent_solid(&mesh, 1, 0));
    // v-faces below and above, and the top face of the domain
    assert!(fields.v_face_touches_solid(&mesh, 4, 2));
    assert!(fields.v_face_touches_solid(&mesh, 4, 3));
    assert!(fields.v_face_touches_permanent_solid(&mesh, 4, 3));
    assert!(!fields.v_face_touches_solid(&mesh, 4, 5));
    assert!(!fields.v_face_touches_permanent_solid(&mesh, 0, 1));
}

#[test]
fn test_field_dimensions() {
    let mesh = test_mesh();
    let fields = Fields::new(&mesh);

    assert_eq!(fields.cell_shape(), (10, 5));
    assert_eq!(mesh.num_u(), (11, 5));
    assert_eq!(mesh.num_v(), (10, 6));
    for (i, j) in mesh.cells() {
        assert_eq!(fields.cell_type_at(i, j), CellType::Fluid);
    }
}

#[test]
fn solid_mask_is_row_major() {
    let mesh = test_mesh();
    let mut fields = Fields::new(&mesh);
    fields.set_cell_type_rect(&mesh, 2, 4, 0, 2, CellType::Solid);
    fields.set_cell_type_rect(&mesh, 7, 8, 3, 4, CellType::Paddle);
    let mask = fields.solid_mask_row_major(&mesh);
    assert_eq!(mask.len(), 50);
    for j in 0..5 {
        for i in 0..10 {
            let expected = if (2..4).contains(&i) && j < 2 || i == 7 && j == 3 { 1 } else { 0 };
            assert_eq!(mask[j * 10 + i], expected, "cell ({}, {})", i, j);
        }
    }
}
