use nerv_geometry::symmetry::{dihedral_elements, DihedralElement, PiFraction};

#[test]
fn test_regular_polygon_symmetries() {
    let symmetries = dihedral_elements(4);

    assert_eq!(symmetries.len(), 8);

    let rotations = symmetries.iter().filter(|s| matches!(s, DihedralElement::Rotation { .. })).count();
    let reflections = symmetries.iter().filter(|s| matches!(s, DihedralElement::Reflection { .. })).count();

    assert_eq!(rotations, 4);
    assert_eq!(reflections, 4);
}

#[test]
fn square_axes_alternate_vertices_and_edges() {
    let s = dihedral_elements(4);
    assert_eq!(s[1], DihedralElement::Rotation { angle: PiFraction { num: 2, den: 4 } });
    assert_eq!(s[5], DihedralElement::Reflection { axis: PiFraction { num: 1, den: 4 } });
}

#[test]
fn triangle_axes_go_through_vertices() {
    let s = dihedral_elements(3);
    assert_eq!(s.len(), 6);
    assert_eq!(s[2], DihedralElement::Rotation { angle: PiFraction { num: 4, den: 3 } });
    assert_eq!(s[4], DihedralElement::Reflection { axis: PiFraction { num: 2, den: 3 } });
    assert!(dihedral_elements(0).is_empty());
}
