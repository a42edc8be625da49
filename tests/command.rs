use nerv_geometry::command::{id_prefix, parse_command, Command};

#[test]
fn commands_are_recognised_by_name() {
    assert_eq!(parse_command(Some("health_check")), Command::HealthCheck);
    assert_eq!(parse_command(Some("add_point")), Command::AddPoint);
    assert_eq!(parse_command(Some("find_intersections")), Command::FindIntersections);
    assert_eq!(parse_command(Some("Add_point")), Command::Unknown);
    assert_eq!(parse_command(None), Command::Unknown);
    assert_eq!(id_prefix(Command::ConstructCircle), Some("circle_"));
    assert_eq!(id_prefix(Command::HealthCheck), None);
}
