use rustvof::mesh::{BoundaryType, Mesh};

fn test_mesh() -> Mesh {
    Mesh { nx: 10, ny: 5 }
}

#[test]
fn test_boundary_type() {
    let mesh = test_mesh();

    assert_eq!(mesh.boundary_type(0, 0), BoundaryType::CornerBottomLeft);
    assert_eq!(mesh.boundary_type(9, 4), BoundaryType::CornerTopRight);
    assert_eq!(mesh.boundary_type(5, 0), BoundaryType::Bottom);
    assert_eq!(mesh.boundary_type(5, 4), BoundaryType::Top);
    assert_eq!(mesh.boundary_type(0, 2), BoundaryType::Left);
    assert_eq!(mesh.boundary_type(9, 2), BoundaryType::Right);
    assert_eq!(mesh.boundary_type(5, 2), BoundaryType::Interior);
}

#[test]
fn test_num_points() {
    let mesh = test_mesh();

    assert_eq!(mesh.num_cells(), 50);
    assert_eq!(mesh.num_u(), (11, 5)); // nx+1 x ny
    assert_eq!(mesh.num_v(), (10, 6)); // nx x ny+1
}

#[test]
fn other_corners_and_degenerate_meshes() {
    let mesh = test_mesh();
    assert_eq!(mesh.boundary_type(0, 4), BoundaryType::CornerTopLeft);
    assert_eq!(mesh.boundary_type(9, 0), BoundaryType::CornerBottomRight);
    // a single column is both left and right: left wins
    let column = Mesh::new(1, 3);
    assert_eq!(column.boundary_type(0, 1), BoundaryType::Left);
    assert_eq!(column.boundary_type(0, 0), BoundaryType::CornerBottomLeft);
    assert_eq!(column.boundary_type(0, 2), BoundaryType::CornerTopLeft);
}

#[test]
fn boundary_type_agrees_with_is_boundary() {
    let mesh = test_mesh();
    for j in 0..mesh.ny {
        for i in 0..mesh.nx {
            assert_eq!(mesh.boundary_type(i, j).is_boundary(), mesh.is_boundary(i, j));
            assert_eq!(mesh.boundary_type(i, j).is_interior(), !mesh.is_boundary(i, j));
        }
    }
    assert!(BoundaryType::Interior.is_interior());
    assert!(BoundaryType::Top.is_boundary());
}

#[test]
fn cell_index_and_cell_ij_round_trip() {
    let mesh = test_mesh();
    assert_eq!(mesh.cell_index(3, 2), 23);
    assert_eq!(mesh.cell_ij(23), (3, 2));
    for idx in 0..mesh.num_cells() {
        let (i, j) = mesh.cell_ij(idx);
        assert_eq!(mesh.cell_index(i, j), idx);
    }
}

#[test]
fn cells_are_listed_in_index_order() {
    let mesh = test_mesh();
    let cells = mesh.cells();
    assert_eq!(cells.len(), 50);
    assert_eq!(cells[0], (0, 0));
    assert_eq!(cells[1], (1, 0));
    assert_eq!(cells[10], (0, 1));
    assert_eq!(cells[49], (9, 4));
    for (k, &(i, j)) in cells.iter().enumerate() {
        assert_eq!(mesh.cell_index(i, j), k);
    }
}

#[test]
fn interior_cells_are_the_non_border_cells() {
    let mesh = test_mesh();
    let interior = mesh.interior_cells();
    assert_eq!(interior.len(), 8 * 3);
    assert_eq!(interior[0], (1, 1));
    assert_eq!(interior[8], (1, 2));
    assert_eq!(*interior.last().unwrap(), (8, 3));
    for &(i, j) in &interior {
        assert!(!mesh.is_boundary(i, j));
    }
    assert!(Mesh::new(2, 2).interior_cells().is_empty());
    assert!(Mesh::new(0, 2).interior_cells().is_empty());
}

#[test]
fn velocity_points_follow_the_staggered_shapes() {
    let mesh = test_mesh();
    let u = mesh.u_points();
    assert_eq!(u.len(), 55);
    assert_eq!(u[10], (10, 0));
    assert_eq!(u[11], (0, 1));
    let v = mesh.v_points();
    assert_eq!(v.len(), 60);
    assert_eq!(v[59], (9, 5));
}
