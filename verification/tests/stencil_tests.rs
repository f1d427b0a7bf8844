use rustvof::boundary::waves::solid_mask_behind;
use rustvof::cell_type::CellType;
use rustvof::fields::{Fields, Side};
use rustvof::mesh::Mesh;
use rustvof::solver::{face_stencil, FaceStencil};

#[test]
fn stencil_forward_flow() {
    // left border face: the first cell alone
    assert_eq!(face_stencil(10, 0, true), FaceStencil::Upwind(0));
    // face 1: upwind cell 0 has no left neighbour
    assert_eq!(face_stencil(10, 1, true), FaceStencil::Upwind(0));
    // interior face 5: upwind cell 4, with 3 further upwind and 5 downwind
    assert_eq!(
        face_stencil(10, 5, true),
        FaceStencil::Limited { far: 3, center: 4, down: 5 }
    );
    // face 9: upwind cell 8 still has both neighbours
    assert_eq!(
        face_stencil(10, 9, true),
        FaceStencil::Limited { far: 7, center: 8, down: 9 }
    );
    // right border face: upwind cell 9 has no right neighbour
    assert_eq!(face_stencil(10, 10, true), FaceStencil::Upwind(9));
}

#[test]
fn stencil_backward_flow() {
    assert_eq!(face_stencil(10, 10, false), FaceStencil::Upwind(9));
    assert_eq!(face_stencil(10, 12, false), FaceStencil::Upwind(9));
    assert_eq!(face_stencil(10, 0, false), FaceStencil::Upwind(0));
    assert_eq!(
        face_stencil(10, 5, false),
        FaceStencil::Limited { far: 6, center: 5, down: 4 }
    );
    assert_eq!(face_stencil(10, 9, false), FaceStencil::Upwind(9));
}

#[test]
fn stencil_on_short_lines() {
    assert_eq!(face_stencil(1, 0, true), FaceStencil::Upwind(0));
    assert_eq!(face_stencil(1, 1, true), FaceStencil::Upwind(0));
    assert_eq!(face_stencil(1, 1, false), FaceStencil::Upwind(0));
    assert_eq!(face_stencil(2, 1, true), FaceStencil::Upwind(0));
    assert_eq!(face_stencil(2, 1, false), FaceStencil::Upwind(1));
}

#[test]
fn open_neighbors_stop_at_walls_and_solids() {
    let mesh = Mesh::new(4, 3);
    let mut fields = Fields::new(&mesh);
    fields.set_solid(2, 1);
    assert_eq!(fields.open_neighbor(&mesh, 0, 0, Side::Left), None);
    assert_eq!(fields.open_neighbor(&mesh, 0, 0, Side::Bottom), None);
    assert_eq!(fields.open_neighbor(&mesh, 0, 0, Side::Right), Some((1, 0)));
    assert_eq!(fields.open_neighbor(&mesh, 0, 0, Side::Top), Some((0, 1)));
    assert_eq!(fields.open_neighbor(&mesh, 3, 2, Side::Right), None);
    assert_eq!(fields.open_neighbor(&mesh, 3, 2, Side::Top), None);
    // the solid cell (2, 1) blocks its four neighbours
    assert_eq!(fields.open_neighbor(&mesh, 1, 1, Side::Right), None);
    assert_eq!(fields.open_neighbor(&mesh, 3, 1, Side::Left), None);
    assert_eq!(fields.open_neighbor(&mesh, 2, 0, Side::Top), None);
    assert_eq!(fields.open_neighbor(&mesh, 2, 2, Side::Bottom), None);
    // open neighbours are mutual
    assert_eq!(fields.open_neighbor(&mesh, 1, 1, Side::Left), Some((0, 1)));
    assert_eq!(fields.open_neighbor(&mesh, 0, 1, Side::Right), Some((1, 1)));
}

#[test]
fn first_non_solid_row_of_a_column() {
    let mesh = Mesh::new(3, 4);
    let mut fields = Fields::new(&mesh);
    assert_eq!(fields.first_non_solid_row(&mesh, 0), 0);
    fields.set_solid(1, 0);
    fields.set_solid(1, 1);
    assert_eq!(fields.first_non_solid_row(&mesh, 1), 2);
    for j in 0..4 {
        fields.set_solid(2, j);
    }
    assert_eq!(fields.first_non_solid_row(&mesh, 2), 0);
    // a paddle cell counts as solid too
    fields.set_cell_type_rect(&mesh, 0, 1, 0, 1, CellType::Paddle);
    assert_eq!(fields.first_non_solid_row(&mesh, 0), 1);
}

#[test]
fn solid_mask_covers_the_columns_behind_the_paddle() {
    let mesh = Mesh::new(5, 3);
    let mask = solid_mask_behind(&mesh, 2);
    assert_eq!(mask.len(), 5);
    for (i, column) in mask.iter().enumerate() {
        assert_eq!(column.len(), 3);
        assert!(column.iter().all(|&m| m == (i < 2)));
    }
    // masked exactly where the paddle update leaves the cells solid
    let mut fields = Fields::new(&mesh);
    fields.set_solid_behind_paddle(&mesh, 2);
    for (i, j) in mesh.cells() {
        assert_eq!(fields.is_solid(i, j), mask[i][j]);
    }
    assert!(solid_mask_behind(&mesh, 9).iter().all(|c| c.iter().all(|&m| m)));
}
