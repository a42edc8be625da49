use nerv_geometry::construction::{
    ConstructionSpace, ConstructionStep, GeometryError, IntersectionQuery, PairKind,
};
use nerv_geometry::geometry::{GeometricObject, Line, Point, Position};

fn pt(x: f64, y: f64, label: Option<String>) -> Point {
    Point::new(x.to_bits(), y.to_bits(), label)
}

fn xy(p: &Position) -> (f64, f64) {
    (f64::from_bits(p.x_bits), f64::from_bits(p.y_bits))
}

/// Line–line intersection by the determinant of the two directions.
fn solve_lines(q: &IntersectionQuery) -> Vec<Position> {
    assert_eq!(q.kind, PairKind::LineLine);
    let (ax, ay) = xy(&q.first_a);
    let (bx, by) = xy(&q.first_b);
    let (cx, cy) = xy(&q.second_a);
    let (dx, dy) = xy(&q.second_b);
    let (d1x, d1y) = (bx - ax, by - ay);
    let (d2x, d2y) = (dx - cx, dy - cy);
    let det = d1x * d2y - d1y * d2x;
    if det.abs() < 1e-10 {
        return Vec::new();
    }
    let (ex, ey) = (cx - ax, cy - ay);
    let t = (ex * d2y - ey * d2x) / det;
    vec![Position::new((ax + t * d1x).to_bits(), (ay + t * d1y).to_bits())]
}

#[test]
fn test_construction_space_new() {
    let space = ConstructionSpace::new();
    assert_eq!(space.points.len(), 0);
    assert_eq!(space.lines.len(), 0);
    assert_eq!(space.circles.len(), 0);
    assert_eq!(space.history.len(), 0);
}

#[test]
fn test_add_point() {
    let mut space = ConstructionSpace::new();
    let point = pt(1.0, 2.0, Some("A".to_string()));
    let id = space.add_point(point.duplicate());

    assert_eq!(space.points.len(), 1);
    assert_eq!(space.history.len(), 1);
    assert!(space.points.contains_key(&id));
}

#[test]
fn test_construct_line() {
    let mut space = ConstructionSpace::new();

    let point1 = pt(0.0, 0.0, Some("A".to_string()));
    let point2 = pt(1.0, 1.0, Some("B".to_string()));
    let id1 = space.add_point(point1);
    let id2 = space.add_point(point2);

    let line_id = space.construct_line(&id1, &id2, Some("AB".to_string())).unwrap();

    assert_eq!(space.lines.len(), 1);
    assert!(space.lines.contains_key(&line_id));
    assert_eq!(space.history.len(), 3);
}

#[test]
fn test_construct_line_invalid_points() {
    let mut space = ConstructionSpace::new();

    let result = space.construct_line("invalid1", "invalid2", None);
    assert!(result.is_err());
}

#[test]
fn test_construct_circle() {
    let mut space = ConstructionSpace::new();

    let center = pt(0.0, 0.0, Some("O".to_string()));
    let radius_point = pt(1.0, 0.0, Some("A".to_string()));
    let center_id = space.add_point(center);
    let radius_id = space.add_point(radius_point);

    let circle_id = space.construct_circle(&center_id, &radius_id, Some("Circle".to_string())).unwrap();

    assert_eq!(space.circles.len(), 1);
    assert!(space.circles.contains_key(&circle_id));
    assert_eq!(space.history.len(), 3);
}

#[test]
fn mod_test_line_line_intersection() {
    let mut space = ConstructionSpace::new();

    let p1 = space.add_point(pt(0.0, 0.0, None));
    let p2 = space.add_point(pt(2.0, 0.0, None));
    let p3 = space.add_point(pt(1.0, -1.0, None));
    let p4 = space.add_point(pt(1.0, 1.0, None));

    let line1 = space.construct_line(&p1, &p2, None).unwrap();
    let line2 = space.construct_line(&p3, &p4, None).unwrap();

    let intersections = space.find_intersections(&line1, &line2, solve_lines).unwrap();

    assert_eq!(intersections.len(), 1);
    let (x, y) = xy(&intersections[0].position);
    assert!((x - 1.0).abs() < 1e-10);
    assert!((y - 0.0).abs() < 1e-10);
}

#[test]
fn test_validate_step() {
    let mut space = ConstructionSpace::new();
    let point1 = pt(0.0, 0.0, None);
    let point2 = pt(1.0, 1.0, None);
    let id1 = space.add_point(point1.duplicate());
    let id2 = space.add_point(point2.duplicate());

    let line = Line::new(id1.clone(), id2.clone(), None);
    let valid_step = ConstructionStep::ConstructLine {
        line: line.duplicate(),
        point1_id: id1.clone(),
        point2_id: id2.clone(),
    };

    let invalid_step = ConstructionStep::ConstructLine {
        line,
        point1_id: "invalid".to_string(),
        point2_id: id2,
    };

    assert!(space.validate_step(&valid_step));
    assert!(!space.validate_step(&invalid_step));
}

#[test]
fn construct_line_dependencies_are_the_two_points() {
    let mut space = ConstructionSpace::new();
    let a = space.add_point(pt(0.0, 0.0, None));
    let b = space.add_point(pt(3.0, 4.0, None));
    let id = space.construct_line(&a, &b, None).unwrap();
    let line = space.lines.get(&id).unwrap();
    assert_eq!(line.dependencies, vec![a.clone(), b.clone()]);
    assert_eq!(line.point1_id, a);
    assert_eq!(line.point2_id, b);
    assert_eq!(line.id.len(), 36);
}

#[test]
fn identical_points_are_invalid_and_change_nothing() {
    let mut space = ConstructionSpace::new();
    let a = space.add_point(pt(0.0, 0.0, None));
    let line = space.construct_line(&a, &a, None);
    assert!(matches!(line, Err(GeometryError::InvalidConstruction { .. })));
    let circle = space.construct_circle(&a, &a, None);
    assert!(matches!(circle, Err(GeometryError::InvalidConstruction { .. })));
    assert_eq!(space.history.len(), 1);
    assert_eq!(space.lines.len(), 0);
    assert_eq!(space.circles.len(), 0);
}

#[test]
fn missing_points_are_reported_by_id_first_one_first() {
    let mut space = ConstructionSpace::new();
    let a = space.add_point(pt(0.0, 0.0, None));
    match space.construct_line("ghost1", "ghost2", None) {
        Err(GeometryError::PointNotFound { id }) => assert_eq!(id, "ghost1"),
        other => panic!("unexpected {:?}", other),
    }
    match space.construct_line(&a, "ghost2", None) {
        Err(GeometryError::PointNotFound { id }) => assert_eq!(id, "ghost2"),
        other => panic!("unexpected {:?}", other),
    }
    match space.construct_circle("ghost3", &a, None) {
        Err(GeometryError::PointNotFound { id }) => assert_eq!(id, "ghost3"),
        other => panic!("unexpected {:?}", other),
    }
    assert_eq!(space.history.len(), 1);
}

#[test]
fn parallel_lines_add_no_points() {
    let mut space = ConstructionSpace::new();
    let a = space.add_point(pt(0.0, 0.0, None));
    let b = space.add_point(pt(1.0, 0.0, None));
    let c = space.add_point(pt(0.0, 1.0, None));
    let d = space.add_point(pt(1.0, 1.0, None));
    let l1 = space.construct_line(&a, &b, None).unwrap();
    let l2 = space.construct_line(&c, &d, None).unwrap();
    let before = space.history.len();
    let found = space.find_intersections(&l1, &l2, solve_lines).unwrap();
    assert!(found.is_empty());
    assert_eq!(space.history.len(), before);
    assert_eq!(space.points.len(), 4);
}

#[test]
fn intersection_points_depend_on_both_objects_and_are_recorded() {
    let mut space = ConstructionSpace::new();
    let a = space.add_point(pt(0.0, 0.0, None));
    let b = space.add_point(pt(2.0, 0.0, None));
    let c = space.add_point(pt(1.0, -1.0, None));
    let d = space.add_point(pt(1.0, 1.0, None));
    let l1 = space.construct_line(&a, &b, None).unwrap();
    let l2 = space.construct_line(&c, &d, None).unwrap();
    let found = space.find_intersections(&l1, &l2, solve_lines).unwrap();
    assert_eq!(found.len(), 1);
    let p = &found[0];
    assert!(p.is_constructed);
    assert_eq!(p.label, None);
    assert_eq!(p.dependencies, vec![l1.clone(), l2.clone()]);
    assert!(space.points.contains_key(&p.id));
    assert_eq!(space.history.len(), 7);
    assert_eq!(space.history[6].step_type(), "add_point");
}

#[test]
fn circle_and_line_put_the_line_first() {
    let mut space = ConstructionSpace::new();
    let o = space.add_point(pt(0.0, 0.0, None));
    let r = space.add_point(pt(1.0, 0.0, None));
    let a = space.add_point(pt(-2.0, 0.5, None));
    let b = space.add_point(pt(2.0, 0.5, None));
    let circle = space.construct_circle(&o, &r, None).unwrap();
    let line = space.construct_line(&a, &b, None).unwrap();
    let q = space.intersection_query(&circle, &line).unwrap();
    assert_eq!(q.kind, PairKind::LineCircle);
    assert_eq!(q.first_id, line);
    assert_eq!(q.second_id, circle);
    assert_eq!(xy(&q.first_a), (-2.0, 0.5));
    assert_eq!(xy(&q.first_b), (2.0, 0.5));
    assert_eq!(xy(&q.second_a), (0.0, 0.0));
    assert_eq!(xy(&q.second_b), (1.0, 0.0));
    let q2 = space.intersection_query(&circle, &circle).unwrap();
    assert_eq!(q2.kind, PairKind::CircleCircle);
}

#[test]
fn intersecting_points_or_unknown_ids_is_invalid() {
    let mut space = ConstructionSpace::new();
    let a = space.add_point(pt(0.0, 0.0, None));
    let b = space.add_point(pt(1.0, 0.0, None));
    let l = space.construct_line(&a, &b, None).unwrap();
    let r = space.find_intersections(&l, &a, solve_lines);
    assert!(matches!(r, Err(GeometryError::InvalidConstruction { .. })));
    let r = space.find_intersections("nothing", &l, solve_lines);
    assert!(matches!(r, Err(GeometryError::InvalidConstruction { .. })));
    assert_eq!(space.history.len(), 3);
}

#[test]
fn history_grows_by_one_per_step_and_clear_empties_it() {
    let mut space = ConstructionSpace::new();
    let a = space.add_point(pt(0.0, 0.0, None));
    assert_eq!(space.history.len(), 1);
    let b = space.add_point(pt(1.0, 0.0, None));
    assert_eq!(space.history.len(), 2);
    space.construct_line(&a, &b, None).unwrap();
    assert_eq!(space.history.len(), 3);
    space.construct_circle(&a, &b, None).unwrap();
    assert_eq!(space.history.len(), 4);
    assert_eq!(space.object_count(), 4);
    space.clear();
    assert_eq!(space.history.len(), 0);
    assert_eq!(space.object_count(), 0);
}

#[test]
fn all_objects_come_points_then_lines_then_circles() {
    let mut space = ConstructionSpace::new();
    let a = space.add_point(pt(0.0, 0.0, Some("A".to_string())));
    let b = space.add_point(pt(1.0, 0.0, None));
    let c = space.construct_circle(&a, &b, None).unwrap();
    let l = space.construct_line(&a, &b, Some("AB".to_string())).unwrap();
    let all = space.get_all_objects();
    assert_eq!(all.len(), 4);
    assert!(matches!(all[0], GeometricObject::Point(_)));
    assert_eq!(all[0].id(), a);
    assert_eq!(all[0].label(), Some("A"));
    assert_eq!(all[1].id(), b);
    assert!(all[1].dependencies().is_empty());
    assert_eq!(all[2].id(), l);
    assert_eq!(all[2].label(), Some("AB"));
    assert_eq!(all[3].id(), c);
    assert_eq!(all[3].dependencies(), &[a.clone(), b.clone()][..]);
}

#[test]
fn re_adding_a_point_gives_it_a_fresh_identifier() {
    let mut space = ConstructionSpace::new();
    let p = pt(0.0, 0.0, None);
    let original = p.id.clone();
    let id = space.add_point(p.duplicate());
    let id2 = space.add_point(p);
    assert_eq!(id, original);
    assert_ne!(id, id2);
    assert!(id2.starts_with(&original));
    assert!(id2.len() > original.len());
    assert_eq!(space.points.len(), 2);
    assert_eq!(space.history.len(), 2);
}

#[test]
fn claimed_identifiers_avoid_every_object() {
    let mut space = ConstructionSpace::new();
    let a = space.add_point(pt(0.0, 0.0, None));
    let b = space.add_point(pt(1.0, 0.0, None));
    let l = space.construct_line(&a, &b, None).unwrap();
    let taken = space.claim_id(l.clone());
    assert!(!space.points.contains_key(&taken) && !space.lines.contains_key(&taken));
    assert_eq!(taken, format!("{}-", l));
    assert_eq!(space.claim_id("free".to_string()), "free");
}

#[test]
fn restored_lines_need_their_points() {
    let mut space = ConstructionSpace::new();
    let a = pt(0.0, 0.0, None);
    let aid = a.id.clone();
    space.restore_point(a);
    let line = Line::new(aid.clone(), "elsewhere".to_string(), None);
    match space.restore_line(line) {
        Err(GeometryError::PointNotFound { id }) => assert_eq!(id, "elsewhere"),
        other => panic!("unexpected {:?}", other),
    }
    let b = pt(1.0, 0.0, None);
    let bid = b.id.clone();
    space.restore_point(b);
    let line = Line::new(aid.clone(), bid.clone(), None);
    let lid = line.id.clone();
    assert!(space.restore_line(line).is_ok());
    assert!(space.lines.contains_key(&lid));
    let same = nerv_geometry::geometry::Circle::new(bid.clone(), bid, None);
    assert!(matches!(space.restore_circle(same), Err(GeometryError::InvalidConstruction { .. })));
    assert_eq!(space.history.len(), 0);
}

#[test]
fn steps_name_their_kind_and_dependencies() {
    let step = ConstructionStep::FindIntersections { obj1_id: "l1".to_string(), obj2_id: "c1".to_string() };
    assert_eq!(step.step_type(), "find_intersections");
    assert_eq!(step.dependencies(), vec!["l1".to_string(), "c1".to_string()]);
    let step = ConstructionStep::AddPoint { point: pt(0.0, 0.0, None) };
    assert_eq!(step.step_type(), "add_point");
    assert!(step.dependencies().is_empty());
}

#[test]
fn validate_step_checks_intersection_and_circle_steps() {
    let mut space = ConstructionSpace::new();
    let a = space.add_point(pt(0.0, 0.0, None));
    let b = space.add_point(pt(1.0, 0.0, None));
    let l = space.construct_line(&a, &b, None).unwrap();
    let ok = ConstructionStep::FindIntersections { obj1_id: l.clone(), obj2_id: l.clone() };
    assert!(space.validate_step(&ok));
    let bad = ConstructionStep::FindIntersections { obj1_id: l.clone(), obj2_id: a.clone() };
    assert!(!space.validate_step(&bad));
    let circle = nerv_geometry::geometry::Circle::new(a.clone(), a.clone(), None);
    let same = ConstructionStep::ConstructCircle { circle, center_id: a.clone(), radius_point_id: a.clone() };
    assert!(!space.validate_step(&same));
}
