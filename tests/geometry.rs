use nerv_geometry::geometry::{Circle, Line, Point, Position};
use nerv_geometry::ids::{new_short_id, same_id, short_id};

#[test]
fn test_point_creation() {
    let point = Point::new(1.0f64.to_bits(), 2.0f64.to_bits(), Some("A".to_string()));
    assert_eq!(f64::from_bits(point.position.x_bits), 1.0);
    assert_eq!(f64::from_bits(point.position.y_bits), 2.0);
    assert_eq!(point.label, Some("A".to_string()));
    assert!(!point.is_constructed);
}

#[test]
fn test_line_creation() {
    let line = Line::new("p1".to_string(), "p2".to_string(), Some("AB".to_string()));
    assert_eq!(line.point1_id, "p1");
    assert_eq!(line.point2_id, "p2");
    assert_eq!(line.label, Some("AB".to_string()));
    assert_eq!(line.dependencies, vec!["p1", "p2"]);
}

#[test]
fn test_circle_creation() {
    let circle = Circle::new("center".to_string(), "radius_point".to_string(), Some("O".to_string()));
    assert_eq!(circle.center_id, "center");
    assert_eq!(circle.radius_point_id, "radius_point");
    assert_eq!(circle.label, Some("O".to_string()));
    assert_eq!(circle.dependencies, vec!["center", "radius_point"]);
}

#[test]
fn constructed_points_keep_their_dependencies() {
    let p = Point::constructed(0.5f64.to_bits(), (-1.5f64).to_bits(), None, vec!["l1".to_string(), "c1".to_string()]);
    assert!(p.is_constructed);
    assert_eq!(p.dependencies, vec!["l1", "c1"]);
    assert_eq!(f64::from_bits(p.position.y_bits), -1.5);
    let q = p.duplicate();
    assert_eq!(q.id, p.id);
    assert_eq!(q.dependencies, p.dependencies);
}

#[test]
fn fresh_identifiers_are_uuids_and_differ() {
    let a = Point::new(0, 0, None);
    let b = Point::new(0, 0, None);
    assert_ne!(a.id, b.id);
    assert_eq!(a.id.len(), 36);
    assert!(a.id.chars().all(|c| c.is_ascii_hexdigit() && !c.is_ascii_uppercase() || c == '-'));
    assert_eq!(a.id.chars().nth(8), Some('-'));
}

#[test]
fn positions_know_when_they_are_finite() {
    assert!(Position::new(1.0f64.to_bits(), 0.0f64.to_bits()).is_finite());
    assert!(!Position::new(f64::NAN.to_bits(), 0).is_finite());
    assert!(!Position::new(0, f64::INFINITY.to_bits()).is_finite());
}

#[test]
fn identifiers_compare_and_shorten() {
    assert!(same_id("abc", "abc"));
    assert!(!same_id("abc", "abd"));
    assert_eq!(short_id("point_", "0123456789abcdef"), "point_01234567");
    let id = new_short_id("line_");
    assert_eq!(id.len(), 13);
    assert!(id.starts_with("line_"));
}
