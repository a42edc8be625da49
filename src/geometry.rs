//! Points, lines and circles of a construction, and the uniform view of them.
//!
//! A coordinate is carried as the bit pattern of an IEEE-754 binary64 number.
//! The construction space stores and hands back coordinates; it never computes
//! with them, so it holds them as plain bits.

use vstd::prelude::*;
use crate::ids::{is_uuid_char, new_id};
use crate::table::Keyed;

verus! {

/// A position in the plane: the binary64 bit patterns of its coordinates.
#[derive(Clone, Copy, Debug, PartialEq, Eq, Structural)]
pub struct Position {
    pub x_bits: u64,
    pub y_bits: u64,
}

/// Whether a binary64 bit pattern is a finite number (its exponent field is
/// not all ones).
pub open spec fn is_finite_bits(b: u64) -> bool {
    (b >> 52u64) & 0x7ffu64 != 0x7ffu64
}

impl Position {
    /// The position with the given coordinate bit patterns.
    pub fn new(x_bits: u64, y_bits: u64) -> (r: Position)
        ensures
            r.x_bits == x_bits,
            r.y_bits == y_bits,
    {
        Position { x_bits, y_bits }
    }

    /// Whether both coordinates are finite numbers.
    pub fn is_finite(&self) -> (r: bool)
        ensures
            r == (is_finite_bits(self.x_bits) && is_finite_bits(self.y_bits)),
    {
        (self.x_bits >> 52u64) & 0x7ffu64 != 0x7ffu64 && (self.y_bits >> 52u64) & 0x7ffu64 != 0x7ffu64
    }
}

/// Text in the shape of a UUID: at least 36 characters, each a lower-case
/// hexadecimal digit or a hyphen.
pub open spec fn is_uuid_shaped(s: Seq<char>) -> bool {
    s.len() >= 36 && forall|i: int| 0 <= i < s.len() ==> is_uuid_char(#[trigger] s[i])
}

/// The texts of a list of identifiers.
pub open spec fn texts(v: Seq<String>) -> Seq<Seq<char>> {
    v.map_values(|s: String| s@)
}

/// An exact copy of a list of identifiers.
pub(crate) fn copy_ids(v: &Vec<String>) -> (r: Vec<String>)
    ensures
        r@ == v@,
{
    let mut r: Vec<String> = Vec::new();
    let mut i: usize = 0;
    while i < v.len()
        invariant
            i <= v@.len(),
            r@ == v@.subrange(0, i as int),
        decreases v@.len() - i,
    {
        r.push(v[i].clone());
        i = i + 1;
        assert(r@ =~= v@.subrange(0, i as int));
    }
    assert(r@ =~= v@);
    r
}

/// An exact copy of an optional label.
pub(crate) fn copy_label(l: &Option<String>) -> (r: Option<String>)
    ensures
        r == *l,
{
    match l {
        Some(s) => Some(s.clone()),
        None => None,
    }
}

/// The two-element list `[a, b]`.
pub(crate) fn pair_ids(a: &String, b: &String) -> (r: Vec<String>)
    ensures
        r@ == seq![*a, *b],
{
    let mut r: Vec<String> = Vec::new();
    r.push(a.clone());
    r.push(b.clone());
    assert(r@ =~= seq![*a, *b]);
    r
}

/// A point of the construction.
#[derive(Debug)]
pub struct Point {
    pub id: String,
    pub position: Position,
    pub label: Option<String>,
    /// Derived from other objects rather than placed by the user.
    pub is_constructed: bool,
    /// Identifiers of the objects it was derived from.
    pub dependencies: Vec<String>,
}

impl Point {
    /// Field-by-field equality, with the dependency lists compared as sequences.
    pub open spec fn same_as(&self, o: &Point) -> bool {
        self.id == o.id && self.position == o.position && self.label == o.label
            && self.is_constructed == o.is_constructed && self.dependencies@ == o.dependencies@
    }

    /// A user-placed point at (`x`, `y`) (binary64 bit patterns) with a fresh identifier.
    pub fn new(x: u64, y: u64, label: Option<String>) -> (r: Point)
        ensures
            is_uuid_shaped(r.id@),
            r.position == (Position { x_bits: x, y_bits: y }),
            r.label == label,
            !r.is_constructed,
            r.dependencies@.len() == 0,
    {
        Point {
            id: new_id(),
            position: Position { x_bits: x, y_bits: y },
            label,
            is_constructed: false,
            dependencies: Vec::new(),
        }
    }

    /// A point at (`x`, `y`) derived from the objects `dependencies`, with a
    /// fresh identifier.
    pub fn constructed(x: u64, y: u64, label: Option<String>, dependencies: Vec<String>) -> (r: Point)
        ensures
            is_uuid_shaped(r.id@),
            r.position == (Position { x_bits: x, y_bits: y }),
            r.label == label,
            r.is_constructed,
            r.dependencies@ == dependencies@,
    {
        Point {
            id: new_id(),
            position: Position { x_bits: x, y_bits: y },
            label,
            is_constructed: true,
            dependencies,
        }
    }

    /// An exact copy.
    pub fn duplicate(&self) -> (r: Point)
        ensures
            r.same_as(self),
    {
        Point {
            id: self.id.clone(),
            position: self.position,
            label: copy_label(&self.label),
            is_constructed: self.is_constructed,
            dependencies: copy_ids(&self.dependencies),
        }
    }
}

impl Keyed for Point {
    open spec fn key(&self) -> Seq<char> {
        self.id@
    }

    fn key_str(&self) -> (r: &str) {
        self.id.as_str()
    }
}

/// A line through two points, given by their identifiers.
#[derive(Debug)]
pub struct Line {
    pub id: String,
    pub point1_id: String,
    pub point2_id: String,
    pub label: Option<String>,
    /// The two point identifiers.
    pub dependencies: Vec<String>,
}

impl Line {
    /// Field-by-field equality, with the dependency lists compared as sequences.
    pub open spec fn same_as(&self, o: &Line) -> bool {
        self.id == o.id && self.point1_id == o.point1_id && self.point2_id == o.point2_id
            && self.label == o.label && self.dependencies@ == o.dependencies@
    }

    /// A line through the points `point1_id` and `point2_id`, with a fresh identifier.
    pub fn new(point1_id: String, point2_id: String, label: Option<String>) -> (r: Line)
        ensures
            is_uuid_shaped(r.id@),
            r.point1_id == point1_id,
            r.point2_id == point2_id,
            r.label == label,
            r.dependencies@ == seq![point1_id, point2_id],
    {
        let dependencies = pair_ids(&point1_id, &point2_id);
        Line { id: new_id(), point1_id, point2_id, label, dependencies }
    }

    /// An exact copy.
    pub fn duplicate(&self) -> (r: Line)
        ensures
            r.same_as(self),
    {
        Line {
            id: self.id.clone(),
            point1_id: self.point1_id.clone(),
            point2_id: self.point2_id.clone(),
            label: copy_label(&self.label),
            dependencies: copy_ids(&self.dependencies),
        }
    }
}

impl Keyed for Line {
    open spec fn key(&self) -> Seq<char> {
        self.id@
    }

    fn key_str(&self) -> (r: &str) {
        self.id.as_str()
    }
}

/// A circle given by the identifiers of its center and of a point on it.
#[derive(Debug)]
pub struct Circle {
    pub id: String,
    pub center_id: String,
    pub radius_point_id: String,
    pub label: Option<String>,
    /// The center and radius-point identifiers.
    pub dependencies: Vec<String>,
}

impl Circle {
    /// Field-by-field equality, with the dependency lists compared as sequences.
    pub open spec fn same_as(&self, o: &Circle) -> bool {
        self.id == o.id && self.center_id == o.center_id && self.radius_point_id == o.radius_point_id
            && self.label == o.label && self.dependencies@ == o.dependencies@
    }

    /// A circle about `center_id` through `radius_point_id`, with a fresh identifier.
    pub fn new(center_id: String, radius_point_id: String, label: Option<String>) -> (r: Circle)
        ensures
            is_uuid_shaped(r.id@),
            r.center_id == center_id,
            r.radius_point_id == radius_point_id,
            r.label == label,
            r.dependencies@ == seq![center_id, radius_point_id],
    {
        let dependencies = pair_ids(&center_id, &radius_point_id);
        Circle { id: new_id(), center_id, radius_point_id, label, dependencies }
    }

    /// An exact copy.
    pub fn duplicate(&self) -> (r: Circle)
        ensures
            r.same_as(self),
    {
        Circle {
            id: self.id.clone(),
            center_id: self.center_id.clone(),
            radius_point_id: self.radius_point_id.clone(),
            label: copy_label(&self.label),
            dependencies: copy_ids(&self.dependencies),
        }
    }
}

impl Keyed for Circle {
    open spec fn key(&self) -> Seq<char> {
        self.id@
    }

    fn key_str(&self) -> (r: &str) {
        self.id.as_str()
    }
}

/// Any object of a construction.
#[derive(Debug)]
pub enum GeometricObject {
    Point(Point),
    Line(Line),
    Circle(Circle),
}

impl GeometricObject {
    /// The identifier of the object.
    pub open spec fn id_spec(&self) -> Seq<char> {
        match self {
            GeometricObject::Point(p) => p.id@,
            GeometricObject::Line(l) => l.id@,
            GeometricObject::Circle(c) => c.id@,
        }
    }

    /// The dependency list of the object.
    pub open spec fn dependencies_spec(&self) -> Seq<String> {
        match self {
            GeometricObject::Point(p) => p.dependencies@,
            GeometricObject::Line(l) => l.dependencies@,
            GeometricObject::Circle(c) => c.dependencies@,
        }
    }

    /// The label of the object.
    pub open spec fn label_spec(&self) -> Option<String> {
        match self {
            GeometricObject::Point(p) => p.label,
            GeometricObject::Line(l) => l.label,
            GeometricObject::Circle(c) => c.label,
        }
    }

    /// The identifier of the object.
    pub fn id(&self) -> (r: &str)
        ensures
            r@ == self.id_spec(),
    {
        match self {
            GeometricObject::Point(p) => p.id.as_str(),
            GeometricObject::Line(l) => l.id.as_str(),
            GeometricObject::Circle(c) => c.id.as_str(),
        }
    }

    /// The identifiers the object was derived from.
    pub fn dependencies(&self) -> (r: &[String])
        ensures
            r@ == self.dependencies_spec(),
    {
        match self {
            GeometricObject::Point(p) => p.dependencies.as_slice(),
            GeometricObject::Line(l) => l.dependencies.as_slice(),
            GeometricObject::Circle(c) => c.dependencies.as_slice(),
        }
    }

    /// The label of the object, if it has one.
    pub fn label(&self) -> (r: Option<&str>)
        ensures
            r is None <==> self.label_spec() is None,
            r matches Some(s) ==> s@ == self.label_spec()->0@,
    {
        let l = match self {
            GeometricObject::Point(p) => &p.label,
            GeometricObject::Line(l) => &l.label,
            GeometricObject::Circle(c) => &c.label,
        };
        match l {
            Some(s) => Some(s.as_str()),
            None => None,
        }
    }
}

} // verus!
