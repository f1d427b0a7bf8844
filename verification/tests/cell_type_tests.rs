use rustvof::cell_type::CellType;

#[test]
fn test_cell_type_default() {
    let ct: CellType = Default::default();
    assert_eq!(ct, CellType::Fluid);
}

#[test]
fn test_cell_type_checks() {
    assert!(CellType::Fluid.is_fluid());
    assert!(CellType::Solid.is_solid());
    assert!(CellType::Porous.is_porous());

    assert!(CellType::Fluid.allows_flow());
    assert!(!CellType::Solid.allows_flow());
    assert!(CellType::Porous.allows_flow());
}

#[test]
fn paddle_cells_are_solid_but_not_permanent() {
    assert!(CellType::Paddle.is_solid());
    assert!(CellType::Paddle.is_paddle());
    assert!(!CellType::Paddle.is_permanent_solid());
    assert!(!CellType::Paddle.allows_flow());
    assert!(CellType::Solid.is_permanent_solid());
    assert!(!CellType::Solid.is_paddle());
}

#[test]
fn flow_allowed_exactly_when_not_solid() {
    for c in [CellType::Fluid, CellType::Solid, CellType::Porous, CellType::Paddle] {
        assert_eq!(c.allows_flow(), !c.is_solid());
        let kinds = [c.is_fluid(), c.is_permanent_solid(), c.is_porous(), c.is_paddle()];
        assert_eq!(kinds.iter().filter(|&&k| k).count(), 1);
    }
}

#[test]
fn from_u8_reads_back_stored_bytes() {
    for c in [CellType::Fluid, CellType::Solid, CellType::Porous, CellType::Paddle] {
        assert_eq!(CellType::from_u8(c as u8), c);
    }
    assert_eq!(CellType::from_u8(1), CellType::Solid);
    assert_eq!(CellType::from_u8(3), CellType::Paddle);
}

#[test]
fn from_u8_unknown_byte_is_fluid() {
    assert_eq!(CellType::from_u8(4), CellType::Fluid);
    assert_eq!(CellType::from_u8(255), CellType::Fluid);
}
