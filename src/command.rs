//! The commands that a driver process accepts, by name.

use vstd::prelude::*;
use crate::ids::same_id;

verus! {

/// A command of the driver protocol.
#[derive(Clone, Copy, Debug, PartialEq, Eq, Structural)]
pub enum Command {
    HealthCheck,
    CreateConstructionSpace,
    AddPoint,
    ConstructLine,
    ConstructCircle,
    FindIntersections,
    ValidateConstruction,
    /// A missing or unrecognised name.
    Unknown,
}

/// The command named `name`.
pub open spec fn command_named(name: Seq<char>) -> Command {
    if name == "health_check"@ {
        Command::HealthCheck
    } else if name == "create_construction_space"@ {
        Command::CreateConstructionSpace
    } else if name == "add_point"@ {
        Command::AddPoint
    } else if name == "construct_line"@ {
        Command::ConstructLine
    } else if name == "construct_circle"@ {
        Command::ConstructCircle
    } else if name == "find_intersections"@ {
        Command::FindIntersections
    } else if name == "validate_construction"@ {
        Command::ValidateConstruction
    } else {
        Command::Unknown
    }
}

/// The command named `name`; `Unknown` when there is no name or it is not
/// one of the protocol's.
pub fn parse_command(name: Option<&str>) -> (r: Command)
    ensures
        name matches Some(s) ==> r == command_named(s@),
        name is None ==> r == Command::Unknown,
{
    match name {
        None => Command::Unknown,
        Some(s) => {
            if same_id(s, "health_check") {
                Command::HealthCheck
            } else if same_id(s, "create_construction_space") {
                Command::CreateConstructionSpace
            } else if same_id(s, "add_point") {
                Command::AddPoint
            } else if same_id(s, "construct_line") {
                Command::ConstructLine
            } else if same_id(s, "construct_circle") {
                Command::ConstructCircle
            } else if same_id(s, "find_intersections") {
                Command::FindIntersections
            } else if same_id(s, "validate_construction") {
                Command::ValidateConstruction
            } else {
                Command::Unknown
            }
        },
    }
}

/// The prefix of the identifiers that the driver gives to objects made by
/// `command`, if it makes one.
pub open spec fn id_prefix_spec(command: Command) -> Option<Seq<char>> {
    match command {
        Command::AddPoint => Some("point_"@),
        Command::ConstructLine => Some("line_"@),
        Command::ConstructCircle => Some("circle_"@),
        _ => None,
    }
}

/// The prefix of the identifiers that the driver gives to objects made by
/// `command`, if it makes one.
pub fn id_prefix(command: Command) -> (r: Option<&'static str>)
    ensures
        r is None <==> id_prefix_spec(command) is None,
        r matches Some(p) ==> p@ == id_prefix_spec(command)->0,
{
    match command {
        Command::AddPoint => Some("point_"),
        Command::ConstructLine => Some("line_"),
        Command::ConstructCircle => Some("circle_"),
        _ => None,
    }
}

} // verus!
