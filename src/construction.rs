//! The construction space: the store of points, lines and circles by
//! identifier, with the append-only history of the steps that built it.

use vstd::prelude::*;
use crate::geometry::{GeometricObject, Point, Line, Circle, Position, texts, is_uuid_shaped, pair_ids};
use crate::ids::is_uuid_char;
use crate::table::{Table, Keyed, seq_has, seq_inserted, lemma_inserted, lemma_inserted_elems};

verus! {

/// Why an operation on a construction space failed.
#[derive(Debug)]
pub enum GeometryError {
    /// A referenced point identifier is absent.
    PointNotFound { id: String },
    /// The request is structurally invalid.
    InvalidConstruction { reason: String },
    /// A caller needed at least one intersection point and got none.
    NoIntersections,
    /// The dependency structure is inconsistent.
    GraphError(String),
}

/// One mutation applied to a construction space.
#[derive(Debug)]
pub enum ConstructionStep {
    AddPoint { point: Point },
    ConstructLine { line: Line, point1_id: String, point2_id: String },
    ConstructCircle { circle: Circle, center_id: String, radius_point_id: String },
    FindIntersections { obj1_id: String, obj2_id: String },
}

/// `s` records that `p` was added.
pub open spec fn records_point(s: ConstructionStep, p: Point) -> bool {
    s matches ConstructionStep::AddPoint { point } && point.same_as(&p)
}

/// `s` records that `l` was constructed through its two points.
pub open spec fn records_line(s: ConstructionStep, l: Line) -> bool {
    s matches ConstructionStep::ConstructLine { line, point1_id, point2_id }
        && line.same_as(&l) && point1_id == l.point1_id && point2_id == l.point2_id
}

/// `s` records that `c` was constructed from its center and radius point.
pub open spec fn records_circle(s: ConstructionStep, c: Circle) -> bool {
    s matches ConstructionStep::ConstructCircle { circle, center_id, radius_point_id }
        && circle.same_as(&c) && center_id == c.center_id && radius_point_id == c.radius_point_id
}

impl ConstructionStep {
    /// The name of the kind of step.
    pub open spec fn step_type_spec(&self) -> Seq<char> {
        match self {
            ConstructionStep::AddPoint { .. } => "add_point"@,
            ConstructionStep::ConstructLine { .. } => "construct_line"@,
            ConstructionStep::ConstructCircle { .. } => "construct_circle"@,
            ConstructionStep::FindIntersections { .. } => "find_intersections"@,
        }
    }

    /// The identifiers that the step refers to.
    pub open spec fn dependencies_spec(&self) -> Seq<String> {
        match self {
            ConstructionStep::AddPoint { .. } => Seq::empty(),
            ConstructionStep::ConstructLine { point1_id, point2_id, .. } => seq![*point1_id, *point2_id],
            ConstructionStep::ConstructCircle { center_id, radius_point_id, .. } => seq![*center_id, *radius_point_id],
            ConstructionStep::FindIntersections { obj1_id, obj2_id } => seq![*obj1_id, *obj2_id],
        }
    }

    /// The name of the kind of step.
    pub fn step_type(&self) -> (r: &'static str)
        ensures
            r@ == self.step_type_spec(),
    {
        match self {
            ConstructionStep::AddPoint { .. } => "add_point",
            ConstructionStep::ConstructLine { .. } => "construct_line",
            ConstructionStep::ConstructCircle { .. } => "construct_circle",
            ConstructionStep::FindIntersections { .. } => "find_intersections",
        }
    }

    /// The identifiers that the step refers to.
    pub fn dependencies(&self) -> (r: Vec<String>)
        ensures
            r@ == self.dependencies_spec(),
    {
        let mut r: Vec<String> = Vec::new();
        match self {
            ConstructionStep::AddPoint { .. } => {},
            ConstructionStep::ConstructLine { point1_id, point2_id, .. } => {
                r.push(point1_id.clone());
                r.push(point2_id.clone());
            },
            ConstructionStep::ConstructCircle { center_id, radius_point_id, .. } => {
                r.push(center_id.clone());
                r.push(radius_point_id.clone());
            },
            ConstructionStep::FindIntersections { obj1_id, obj2_id } => {
                r.push(obj1_id.clone());
                r.push(obj2_id.clone());
            },
        }
        assert(r@ =~= self.dependencies_spec());
        r
    }
}

/// Which two kinds of object are intersected.
#[derive(Clone, Copy, Debug, PartialEq, Eq, Structural)]
pub enum PairKind {
    LineLine,
    LineCircle,
    CircleCircle,
}

/// What an intersection solver needs: the pairing, the identifiers of the two
/// objects (a line before a circle), and the defining points of each (a
/// line's two points; a circle's center, then its radius point).
#[derive(Debug)]
pub struct IntersectionQuery {
    pub kind: PairKind,
    pub first_id: String,
    pub second_id: String,
    pub first_a: Position,
    pub first_b: Position,
    pub second_a: Position,
    pub second_b: Position,
}

/// `p` is the intersection point found at `pos` for the query `q`: a new
/// constructed point, without label, that depends on the two objects.
pub open spec fn is_intersection_point(p: Point, pos: Position, q: IntersectionQuery) -> bool {
    &&& is_uuid_shaped(p.id@)
    &&& p.position == pos
    &&& p.is_constructed
    &&& p.label is None
    &&& texts(p.dependencies@) == seq![q.first_id@, q.second_id@]
}

/// All points, lines and circles of a construction, by identifier, and the
/// ordered history of the steps that built it.
#[derive(Debug)]
pub struct ConstructionSpace {
    pub points: Table<Point>,
    pub lines: Table<Line>,
    pub circles: Table<Circle>,
    pub history: Vec<ConstructionStep>,
}

impl ConstructionSpace {
    /// Identifiers are unique in each table, and every line and circle refers
    /// to two distinct points of the space.
    pub open spec fn wf(&self) -> bool {
        &&& self.points.wf()
        &&& self.lines.wf()
        &&& self.circles.wf()
        &&& forall|i: int| 0 <= i < self.lines@.len() ==> {
            let l = #[trigger] self.lines@[i];
            self.points.has(l.point1_id@) && self.points.has(l.point2_id@) && l.point1_id@ != l.point2_id@
        }
        &&& forall|i: int| 0 <= i < self.circles@.len() ==> {
            let c = #[trigger] self.circles@[i];
            self.points.has(c.center_id@) && self.points.has(c.radius_point_id@)
                && c.center_id@ != c.radius_point_id@
        }
    }

    /// An empty construction space.
    pub fn new() -> (r: ConstructionSpace)
        ensures
            r.wf(),
            r.points@.len() == 0,
            r.lines@.len() == 0,
            r.circles@.len() == 0,
            r.history@.len() == 0,
    {
        ConstructionSpace {
            points: Table::new(),
            lines: Table::new(),
            circles: Table::new(),
            history: Vec::new(),
        }
    }

    /// Some point, line or circle has identifier `k`.
    pub open spec fn has_id(&self, k: Seq<char>) -> bool {
        self.points.has(k) || self.lines.has(k) || self.circles.has(k)
    }

    /// `candidate` if no object has it as identifier; otherwise `candidate`
    /// followed by enough hyphens to be longer than every identifier in use.
    pub fn claim_id(&self, candidate: String) -> (r: String)
        requires
            self.wf(),
        ensures
            !self.has_id(r@),
            !self.has_id(candidate@) ==> r == candidate,
            r@.len() >= candidate@.len(),
            r@.subrange(0, candidate@.len() as int) == candidate@,
            forall|i: int| candidate@.len() <= i < r@.len() ==> #[trigger] r@[i] == '-',
            is_uuid_shaped(candidate@) ==> is_uuid_shaped(r@),
    {
        if !self.points.contains_key(candidate.as_str()) && !self.lines.contains_key(candidate.as_str())
            && !self.circles.contains_key(candidate.as_str()) {
            assert(candidate@.subrange(0, candidate@.len() as int) =~= candidate@);
            return candidate;
        }
        let a = self.points.longest_key();
        let b = self.lines.longest_key();
        let c = self.circles.longest_key();
        let m: u128 = if a >= b && a >= c { a as u128 } else if b >= c { b as u128 } else { c as u128 };
        let ghost base = candidate@;
        let mut r = candidate;
        let mut n: u128 = r.as_str().unicode_len() as u128;
        assert(r@.subrange(0, base.len() as int) =~= base);
        proof { reveal_strlit("-"); }
        while n <= m
            invariant
                n == r@.len(),
                r@.len() >= base.len(),
                r@.subrange(0, base.len() as int) == base,
                forall|i: int| base.len() <= i < r@.len() ==> #[trigger] r@[i] == '-',
                "-"@ == seq!['-'],
                m <= usize::MAX as u128,
            decreases m + 1 - n,
        {
            let ghost before = r@;
            r.append("-");
            assert(r@ == before + seq!['-']);
            assert(r@.subrange(0, base.len() as int) =~= before.subrange(0, base.len() as int));
            n = n + 1;
        }
        proof {
            assert forall|k: Seq<char>| self.has_id(k) implies k.len() <= m by {
                if self.points.has(k) {
                    let i = self.points.position_of(k);
                    assert(0 <= i < self.points@.len() && self.points@[i].key() == k);
                } else if self.lines.has(k) {
                    let i = self.lines.position_of(k);
                    assert(0 <= i < self.lines@.len() && self.lines@[i].key() == k);
                } else {
                    let i = self.circles.position_of(k);
                    assert(0 <= i < self.circles@.len() && self.circles@[i].key() == k);
                }
            }
            if is_uuid_shaped(base) {
                assert forall|i: int| 0 <= i < r@.len() implies is_uuid_char(#[trigger] r@[i]) by {
                    if i < base.len() {
                        assert(r@.subrange(0, base.len() as int)[i] == r@[i]);
                    }
                }
            }
        }
        r
    }

    /// `point` with its identifier replaced by `id`.
    pub open spec fn with_point_id(point: Point, id: String) -> Point {
        Point {
            id,
            position: point.position,
            label: point.label,
            is_constructed: point.is_constructed,
            dependencies: point.dependencies,
        }
    }

    /// Add `point` under a fresh identifier, record the step, and return the
    /// identifier: the point's own if no object has it, else one derived from
    /// it (see `claim_id`).
    pub fn add_point(&mut self, point: Point) -> (r: String)
        requires
            old(self).wf(),
        ensures
            final(self).wf(),
            !old(self).has_id(r@),
            !old(self).has_id(point.id@) ==> r == point.id,
            is_uuid_shaped(point.id@) ==> is_uuid_shaped(r@),
            final(self).points@ == old(self).points@.push(Self::with_point_id(point, r)),
            final(self).lines == old(self).lines,
            final(self).circles == old(self).circles,
            final(self).history@ == old(self).history@.push(final(self).history@.last()),
            records_point(final(self).history@.last(), Self::with_point_id(point, r)),
    {
        let Point { id, position, label, is_constructed, dependencies } = point;
        let id = self.claim_id(id);
        let r = id.clone();
        let point = Point { id, position, label, is_constructed, dependencies };
        let step = ConstructionStep::AddPoint { point: point.duplicate() };
        self.history.push(step);
        proof { lemma_inserted(self.points@, point); }
        self.points.insert(point);
        proof {
            assert(!seq_has(old(self).points@, point.id@));
            assert forall|i: int| 0 <= i < self.lines@.len() implies {
                let l = #[trigger] self.lines@[i];
                self.points.has(l.point1_id@) && self.points.has(l.point2_id@)
            } by {
                let l = self.lines@[i];
                assert(seq_has(self.points@, l.point1_id@));
                assert(seq_has(self.points@, l.point2_id@));
            }
            assert forall|i: int| 0 <= i < self.circles@.len() implies {
                let c = #[trigger] self.circles@[i];
                self.points.has(c.center_id@) && self.points.has(c.radius_point_id@)
            } by {
                let c = self.circles@[i];
                assert(seq_has(self.points@, c.center_id@));
                assert(seq_has(self.points@, c.radius_point_id@));
            }
        }
        r
    }

    /// `new` is `old` with `l` inserted among the lines and its step recorded.
    pub open spec fn line_added(old: &ConstructionSpace, new: &ConstructionSpace, l: Line) -> bool {
        &&& new.points == old.points
        &&& new.circles == old.circles
        &&& new.lines@ == old.lines@.push(l)
        &&& new.history@.len() == old.history@.len() + 1
        &&& new.history@.subrange(0, old.history@.len() as int) == old.history@
        &&& records_line(new.history@.last(), l)
    }

    /// `new` is `old` with `c` inserted among the circles and its step recorded.
    pub open spec fn circle_added(old: &ConstructionSpace, new: &ConstructionSpace, c: Circle) -> bool {
        &&& new.points == old.points
        &&& new.lines == old.lines
        &&& new.circles@ == old.circles@.push(c)
        &&& new.history@.len() == old.history@.len() + 1
        &&& new.history@.subrange(0, old.history@.len() as int) == old.history@
        &&& records_circle(new.history@.last(), c)
    }

    /// Construct the line through the points `point1_id` and `point2_id` and
    /// return its new identifier. Fails, changing nothing, with
    /// `PointNotFound` if a point is absent (the first one checked first) and
    /// with `InvalidConstruction` if the two identifiers are the same.
    pub fn construct_line(&mut self, point1_id: &str, point2_id: &str, label: Option<String>) -> (r: Result<String, GeometryError>)
        requires
            old(self).wf(),
        ensures
            final(self).wf(),
            r is Ok <==> (old(self).points.has(point1_id@) && old(self).points.has(point2_id@)
                && point1_id@ != point2_id@),
            !old(self).points.has(point1_id@) ==> (r matches Err(GeometryError::PointNotFound { id }) && id@ == point1_id@),
            old(self).points.has(point1_id@) && !old(self).points.has(point2_id@) ==>
                (r matches Err(GeometryError::PointNotFound { id }) && id@ == point2_id@),
            old(self).points.has(point1_id@) && old(self).points.has(point2_id@) && point1_id@ == point2_id@ ==>
                r matches Err(GeometryError::InvalidConstruction { .. }),
            r is Err ==> *final(self) == *old(self),
            r matches Ok(id) ==> {
                &&& is_uuid_shaped(id@)
                &&& !old(self).has_id(id@)
                &&& final(self).lines.has(id@)
                &&& {
                    let l = final(self).lines@.last();
                    &&& l.id == id
                    &&& l.point1_id@ == point1_id@
                    &&& l.point2_id@ == point2_id@
                    &&& l.label == label
                    &&& texts(l.dependencies@) == seq![point1_id@, point2_id@]
                    &&& Self::line_added(old(self), final(self), l)
                }
            },
    {
        if !self.points.contains_key(point1_id) {
            return Err(GeometryError::PointNotFound { id: point1_id.to_owned() });
        }
        if !self.points.contains_key(point2_id) {
            return Err(GeometryError::PointNotFound { id: point2_id.to_owned() });
        }
        if crate::ids::same_id(point1_id, point2_id) {
            return Err(GeometryError::InvalidConstruction {
                reason: "Cannot create line with identical points".to_owned(),
            });
        }
        let line = Line::new(point1_id.to_owned(), point2_id.to_owned(), label);
        let Line { id, point1_id: a, point2_id: b, label, dependencies } = line;
        let id = self.claim_id(id);
        let line = Line { id, point1_id: a, point2_id: b, label, dependencies };
        let id = line.id.clone();
        let step = ConstructionStep::ConstructLine {
            line: line.duplicate(),
            point1_id: line.point1_id.clone(),
            point2_id: line.point2_id.clone(),
        };
        self.history.push(step);
        proof {
            lemma_inserted(self.lines@, line);
            lemma_inserted_elems(self.lines@, line);
        }
        let ghost l = line;
        self.lines.insert(line);
        proof {
            assert(!seq_has(old(self).lines@, l.id@));
            assert(self.history@.subrange(0, old(self).history@.len() as int) =~= old(self).history@);
            assert(texts(l.dependencies@) =~= seq![point1_id@, point2_id@]);
            assert forall|i: int| 0 <= i < self.lines@.len() implies {
                let m = #[trigger] self.lines@[i];
                self.points.has(m.point1_id@) && self.points.has(m.point2_id@) && m.point1_id@ != m.point2_id@
            } by {
                if self.lines@[i] != l {
                    assert(i < old(self).lines@.len() && self.lines@[i] == old(self).lines@[i]);
                }
            }
        }
        Ok(id)
    }

    /// Construct the circle about `center_id` through `radius_point_id` and
    /// return its new identifier. Fails, changing nothing, with
    /// `PointNotFound` if a point is absent (the center checked first) and
    /// with `InvalidConstruction` if the two identifiers are the same.
    pub fn construct_circle(&mut self, center_id: &str, radius_point_id: &str, label: Option<String>) -> (r: Result<String, GeometryError>)
        requires
            old(self).wf(),
        ensures
            final(self).wf(),
            r is Ok <==> (old(self).points.has(center_id@) && old(self).points.has(radius_point_id@)
                && center_id@ != radius_point_id@),
            !old(self).points.has(center_id@) ==> (r matches Err(GeometryError::PointNotFound { id }) && id@ == center_id@),
            old(self).points.has(center_id@) && !old(self).points.has(radius_point_id@) ==>
                (r matches Err(GeometryError::PointNotFound { id }) && id@ == radius_point_id@),
            old(self).points.has(center_id@) && old(self).points.has(radius_point_id@) && center_id@ == radius_point_id@ ==>
                r matches Err(GeometryError::InvalidConstruction { .. }),
            r is Err ==> *final(self) == *old(self),
            r matches Ok(id) ==> {
                &&& is_uuid_shaped(id@)
                &&& !old(self).has_id(id@)
                &&& final(self).circles.has(id@)
                &&& {
                    let c = final(self).circles@.last();
                    &&& c.id == id
                    &&& c.center_id@ == center_id@
                    &&& c.radius_point_id@ == radius_point_id@
                    &&& c.label == label
                    &&& texts(c.dependencies@) == seq![center_id@, radius_point_id@]
                    &&& Self::circle_added(old(self), final(self), c)
                }
            },
    {
        if !self.points.contains_key(center_id) {
            return Err(GeometryError::PointNotFound { id: center_id.to_owned() });
        }
        if !self.points.contains_key(radius_point_id) {
            return Err(GeometryError::PointNotFound { id: radius_point_id.to_owned() });
        }
        if crate::ids::same_id(center_id, radius_point_id) {
            return Err(GeometryError::InvalidConstruction {
                reason: "Center and radius point cannot be the same".to_owned(),
            });
        }
        let circle = Circle::new(center_id.to_owned(), radius_point_id.to_owned(), label);
        let Circle { id, center_id: a, radius_point_id: b, label, dependencies } = circle;
        let id = self.claim_id(id);
        let circle = Circle { id, center_id: a, radius_point_id: b, label, dependencies };
        let id = circle.id.clone();
        let step = ConstructionStep::ConstructCircle {
            circle: circle.duplicate(),
            center_id: circle.center_id.clone(),
            radius_point_id: circle.radius_point_id.clone(),
        };
        self.history.push(step);
        proof {
            lemma_inserted(self.circles@, circle);
            lemma_inserted_elems(self.circles@, circle);
        }
        let ghost c = circle;
        self.circles.insert(circle);
        proof {
            assert(!seq_has(old(self).circles@, c.id@));
            assert(self.history@.subrange(0, old(self).history@.len() as int) =~= old(self).history@);
            assert(texts(c.dependencies@) =~= seq![center_id@, radius_point_id@]);
            assert forall|i: int| 0 <= i < self.circles@.len() implies {
                let m = #[trigger] self.circles@[i];
                self.points.has(m.center_id@) && self.points.has(m.radius_point_id@)
                    && m.center_id@ != m.radius_point_id@
            } by {
                if self.circles@[i] != c {
                    assert(i < old(self).circles@.len() && self.circles@[i] == old(self).circles@[i]);
                }
            }
        }
        Ok(id)
    }

    /// Put back a saved point as it is, replacing one with the same
    /// identifier; no history step.
    pub fn restore_point(&mut self, point: Point)
        requires
            old(self).wf(),
        ensures
            final(self).wf(),
            final(self).points@ == seq_inserted(old(self).points@, point),
            final(self).lines == old(self).lines,
            final(self).circles == old(self).circles,
            final(self).history == old(self).history,
    {
        proof { lemma_inserted(self.points@, point); }
        self.points.insert(point);
        proof {
            assert forall|i: int| 0 <= i < self.lines@.len() implies {
                let l = #[trigger] self.lines@[i];
                self.points.has(l.point1_id@) && self.points.has(l.point2_id@)
            } by {
                let l = self.lines@[i];
                assert(seq_has(self.points@, l.point1_id@));
                assert(seq_has(self.points@, l.point2_id@));
            }
            assert forall|i: int| 0 <= i < self.circles@.len() implies {
                let c = #[trigger] self.circles@[i];
                self.points.has(c.center_id@) && self.points.has(c.radius_point_id@)
            } by {
                let c = self.circles@[i];
                assert(seq_has(self.points@, c.center_id@));
                assert(seq_has(self.points@, c.radius_point_id@));
            }
        }
    }

    /// Put back a saved line as it is, replacing one with the same
    /// identifier; no history step. Fails, changing nothing, as
    /// `construct_line` does when its points are absent or the same.
    pub fn restore_line(&mut self, line: Line) -> (r: Result<(), GeometryError>)
        requires
            old(self).wf(),
        ensures
            final(self).wf(),
            r is Ok <==> (old(self).points.has(line.point1_id@) && old(self).points.has(line.point2_id@)
                && line.point1_id@ != line.point2_id@),
            !old(self).points.has(line.point1_id@) ==>
                (r matches Err(GeometryError::PointNotFound { id }) && id@ == line.point1_id@),
            old(self).points.has(line.point1_id@) && !old(self).points.has(line.point2_id@) ==>
                (r matches Err(GeometryError::PointNotFound { id }) && id@ == line.point2_id@),
            old(self).points.has(line.point1_id@) && old(self).points.has(line.point2_id@)
                && line.point1_id@ == line.point2_id@ ==> r matches Err(GeometryError::InvalidConstruction { .. }),
            r is Err ==> *final(self) == *old(self),
            r is Ok ==> final(self).lines@ == seq_inserted(old(self).lines@, line),
            final(self).points == old(self).points,
            final(self).circles == old(self).circles,
            final(self).history == old(self).history,
    {
        if !self.points.contains_key(line.point1_id.as_str()) {
            return Err(GeometryError::PointNotFound { id: line.point1_id.clone() });
        }
        if !self.points.contains_key(line.point2_id.as_str()) {
            return Err(GeometryError::PointNotFound { id: line.point2_id.clone() });
        }
        if crate::ids::same_id(line.point1_id.as_str(), line.point2_id.as_str()) {
            return Err(GeometryError::InvalidConstruction {
                reason: "Cannot create line with identical points".to_owned(),
            });
        }
        proof {
            lemma_inserted(self.lines@, line);
            lemma_inserted_elems(self.lines@, line);
        }
        let ghost l = line;
        self.lines.insert(line);
        proof {
            assert forall|i: int| 0 <= i < self.lines@.len() implies {
                let m = #[trigger] self.lines@[i];
                self.points.has(m.point1_id@) && self.points.has(m.point2_id@) && m.point1_id@ != m.point2_id@
            } by {
                if self.lines@[i] != l {
                    assert(i < old(self).lines@.len() && self.lines@[i] == old(self).lines@[i]);
                }
            }
        }
        Ok(())
    }

    /// Put back a saved circle as it is, replacing one with the same
    /// identifier; no history step. Fails, changing nothing, as
    /// `construct_circle` does when its points are absent or the same.
    pub fn restore_circle(&mut self, circle: Circle) -> (r: Result<(), GeometryError>)
        requires
            old(self).wf(),
        ensures
            final(self).wf(),
            r is Ok <==> (old(self).points.has(circle.center_id@) && old(self).points.has(circle.radius_point_id@)
                && circle.center_id@ != circle.radius_point_id@),
            !old(self).points.has(circle.center_id@) ==>
                (r matches Err(GeometryError::PointNotFound { id }) && id@ == circle.center_id@),
            old(self).points.has(circle.center_id@) && !old(self).points.has(circle.radius_point_id@) ==>
                (r matches Err(GeometryError::PointNotFound { id }) && id@ == circle.radius_point_id@),
            old(self).points.has(circle.center_id@) && old(self).points.has(circle.radius_point_id@)
                && circle.center_id@ == circle.radius_point_id@ ==> r matches Err(GeometryError::InvalidConstruction { .. }),
            r is Err ==> *final(self) == *old(self),
            r is Ok ==> final(self).circles@ == seq_inserted(old(self).circles@, circle),
            final(self).points == old(self).points,
            final(self).lines == old(self).lines,
            final(self).history == old(self).history,
    {
        if !self.points.contains_key(circle.center_id.as_str()) {
            return Err(GeometryError::PointNotFound { id: circle.center_id.clone() });
        }
        if !self.points.contains_key(circle.radius_point_id.as_str()) {
            return Err(GeometryError::PointNotFound { id: circle.radius_point_id.clone() });
        }
        if crate::ids::same_id(circle.center_id.as_str(), circle.radius_point_id.as_str()) {
            return Err(GeometryError::InvalidConstruction {
                reason: "Center and radius point cannot be the same".to_owned(),
            });
        }
        proof {
            lemma_inserted(self.circles@, circle);
            lemma_inserted_elems(self.circles@, circle);
        }
        let ghost c = circle;
        self.circles.insert(circle);
        proof {
            assert forall|i: int| 0 <= i < self.circles@.len() implies {
                let m = #[trigger] self.circles@[i];
                self.points.has(m.center_id@) && self.points.has(m.radius_point_id@)
                    && m.center_id@ != m.radius_point_id@
            } by {
                if self.circles@[i] != c {
                    assert(i < old(self).circles@.len() && self.circles@[i] == old(self).circles@[i]);
                }
            }
        }
        Ok(())
    }

    /// Whether `step` could be applied to this space now: the identifiers it
    /// refers to exist and obey the rules checked when it was first made.
    pub open spec fn step_valid(&self, step: ConstructionStep) -> bool {
        match step {
            ConstructionStep::AddPoint { .. } => true,
            ConstructionStep::ConstructLine { point1_id, point2_id, .. } =>
                self.points.has(point1_id@) && self.points.has(point2_id@) && point1_id@ != point2_id@,
            ConstructionStep::ConstructCircle { center_id, radius_point_id, .. } =>
                self.points.has(center_id@) && self.points.has(radius_point_id@)
                    && center_id@ != radius_point_id@,
            ConstructionStep::FindIntersections { obj1_id, obj2_id } =>
                (self.lines.has(obj1_id@) || self.circles.has(obj1_id@))
                    && (self.lines.has(obj2_id@) || self.circles.has(obj2_id@)),
        }
    }

    /// Whether `step` could be applied to this space now (see `step_valid`).
    pub fn validate_step(&self, step: &ConstructionStep) -> (r: bool)
        requires
            self.wf(),
        ensures
            r == self.step_valid(*step),
    {
        match step {
            ConstructionStep::AddPoint { .. } => true,
            ConstructionStep::ConstructLine { point1_id, point2_id, .. } => {
                self.points.contains_key(point1_id.as_str()) && self.points.contains_key(point2_id.as_str())
                    && !crate::ids::same_id(point1_id.as_str(), point2_id.as_str())
            },
            ConstructionStep::ConstructCircle { center_id, radius_point_id, .. } => {
                self.points.contains_key(center_id.as_str()) && self.points.contains_key(radius_point_id.as_str())
                    && !crate::ids::same_id(center_id.as_str(), radius_point_id.as_str())
            },
            ConstructionStep::FindIntersections { obj1_id, obj2_id } => {
                (self.lines.contains_key(obj1_id.as_str()) || self.circles.contains_key(obj1_id.as_str()))
                    && (self.lines.contains_key(obj2_id.as_str()) || self.circles.contains_key(obj2_id.as_str()))
            },
        }
    }

    /// Every point, line and circle, each kind in insertion order: points
    /// first, then lines, then circles.
    pub fn get_all_objects(&self) -> (r: Vec<GeometricObject>)
        ensures
            r@.len() == self.points@.len() + self.lines@.len() + self.circles@.len(),
            forall|i: int| 0 <= i < self.points@.len() ==>
                (#[trigger] r@[i] matches GeometricObject::Point(p) && p.same_as(&self.points@[i])),
            forall|i: int| 0 <= i < self.lines@.len() ==>
                (#[trigger] r@[self.points@.len() + i] matches GeometricObject::Line(l) && l.same_as(&self.lines@[i])),
            forall|i: int| 0 <= i < self.circles@.len() ==>
                (#[trigger] r@[self.points@.len() + self.lines@.len() + i] matches GeometricObject::Circle(c)
                    && c.same_as(&self.circles@[i])),
    {
        let mut r: Vec<GeometricObject> = Vec::new();
        let points = self.points.values();
        let lines = self.lines.values();
        let circles = self.circles.values();
        let mut i: usize = 0;
        while i < points.len()
            invariant
                points@ == self.points@,
                i <= points@.len(),
                r@.len() == i,
                forall|j: int| 0 <= j < i ==>
                    (#[trigger] r@[j] matches GeometricObject::Point(p) && p.same_as(&self.points@[j])),
            decreases points@.len() - i,
        {
            r.push(GeometricObject::Point(points[i].duplicate()));
            i = i + 1;
        }
        let np = points.len();
        let mut i: usize = 0;
        while i < lines.len()
            invariant
                points@ == self.points@,
                lines@ == self.lines@,
                np == self.points@.len(),
                i <= lines@.len(),
                r@.len() == np + i,
                forall|j: int| 0 <= j < np ==>
                    (#[trigger] r@[j] matches GeometricObject::Point(p) && p.same_as(&self.points@[j])),
                forall|j: int| 0 <= j < i ==>
                    (#[trigger] r@[np + j] matches GeometricObject::Line(l) && l.same_as(&self.lines@[j])),
            decreases lines@.len() - i,
        {
            r.push(GeometricObject::Line(lines[i].duplicate()));
            i = i + 1;
        }
        let nl = lines.len();
        let mut i: usize = 0;
        while i < circles.len()
            invariant
                points@ == self.points@,
                lines@ == self.lines@,
                circles@ == self.circles@,
                np == self.points@.len(),
                nl == self.lines@.len(),
                i <= circles@.len(),
                r@.len() == np + nl + i,
                forall|j: int| 0 <= j < np ==>
                    (#[trigger] r@[j] matches GeometricObject::Point(p) && p.same_as(&self.points@[j])),
                forall|j: int| 0 <= j < nl ==>
                    (#[trigger] r@[np + j] matches GeometricObject::Line(l) && l.same_as(&self.lines@[j])),
                forall|j: int| 0 <= j < i ==>
                    (#[trigger] r@[np + nl + j] matches GeometricObject::Circle(c) && c.same_as(&self.circles@[j])),
            decreases circles@.len() - i,
        {
            r.push(GeometricObject::Circle(circles[i].duplicate()));
            i = i + 1;
        }
        r
    }

    /// Remove every object and the whole history.
    pub fn clear(&mut self)
        ensures
            final(self).wf(),
            final(self).points@.len() == 0,
            final(self).lines@.len() == 0,
            final(self).circles@.len() == 0,
            final(self).history@.len() == 0,
    {
        self.points.clear();
        self.lines.clear();
        self.circles.clear();
        self.history.clear();
    }

    /// The position of the point with identifier `k`.
    pub open spec fn position_spec(&self, k: Seq<char>) -> Position {
        self.points.lookup(k).position
    }

    /// The identifier and the two points' positions of the line `k`.
    pub open spec fn line_parts(&self, k: Seq<char>) -> (String, Position, Position) {
        let l = self.lines.lookup(k);
        (l.id, self.position_spec(l.point1_id@), self.position_spec(l.point2_id@))
    }

    /// The identifier and the center and radius-point positions of the circle `k`.
    pub open spec fn circle_parts(&self, k: Seq<char>) -> (String, Position, Position) {
        let c = self.circles.lookup(k);
        (c.id, self.position_spec(c.center_id@), self.position_spec(c.radius_point_id@))
    }

    /// The query built from two objects' parts.
    pub open spec fn query_of(kind: PairKind, a: (String, Position, Position), b: (String, Position, Position)) -> IntersectionQuery {
        IntersectionQuery {
            kind,
            first_id: a.0,
            second_id: b.0,
            first_a: a.1,
            first_b: a.2,
            second_a: b.1,
            second_b: b.2,
        }
    }

    /// The intersection query for the objects `id1` and `id2`: two lines, a
    /// line and a circle in either order (the line goes first), or two
    /// circles; none if either is neither a line nor a circle.
    pub open spec fn resolve(&self, id1: Seq<char>, id2: Seq<char>) -> Option<IntersectionQuery> {
        if self.lines.has(id1) && self.lines.has(id2) {
            Some(Self::query_of(PairKind::LineLine, self.line_parts(id1), self.line_parts(id2)))
        } else if self.lines.has(id1) && self.circles.has(id2) {
            Some(Self::query_of(PairKind::LineCircle, self.line_parts(id1), self.circle_parts(id2)))
        } else if self.circles.has(id1) && self.lines.has(id2) {
            Some(Self::query_of(PairKind::LineCircle, self.line_parts(id2), self.circle_parts(id1)))
        } else if self.circles.has(id1) && self.circles.has(id2) {
            Some(Self::query_of(PairKind::CircleCircle, self.circle_parts(id1), self.circle_parts(id2)))
        } else {
            None
        }
    }

    /// The position of a point that the space holds.
    fn position_of(&self, id: &String) -> (r: Option<Position>)
        requires
            self.wf(),
        ensures
            r is Some <==> self.points.has(id@),
            r matches Some(p) ==> p == self.position_spec(id@),
    {
        match self.points.get(id.as_str()) {
            Some(p) => Some(p.position),
            None => None,
        }
    }

    /// The parts of the line `id`, if it is one.
    fn line_parts_of(&self, id: &str) -> (r: Option<(String, Position, Position)>)
        requires
            self.wf(),
        ensures
            r is Some <==> self.lines.has(id@),
            r matches Some(t) ==> t == self.line_parts(id@),
    {
        match self.lines.get(id) {
            Some(l) => {
                let ghost i = self.lines.position_of(id@);
                assert(0 <= i < self.lines@.len() && self.lines@[i] == *l);
                let a = self.position_of(&l.point1_id);
                let b = self.position_of(&l.point2_id);
                match (a, b) {
                    (Some(a), Some(b)) => Some((l.id.clone(), a, b)),
                    _ => None,
                }
            },
            None => None,
        }
    }

    /// The parts of the circle `id`, if it is one.
    fn circle_parts_of(&self, id: &str) -> (r: Option<(String, Position, Position)>)
        requires
            self.wf(),
        ensures
            r is Some <==> self.circles.has(id@),
            r matches Some(t) ==> t == self.circle_parts(id@),
    {
        match self.circles.get(id) {
            Some(c) => {
                let ghost i = self.circles.position_of(id@);
                assert(0 <= i < self.circles@.len() && self.circles@[i] == *c);
                let a = self.position_of(&c.center_id);
                let b = self.position_of(&c.radius_point_id);
                match (a, b) {
                    (Some(a), Some(b)) => Some((c.id.clone(), a, b)),
                    _ => None,
                }
            },
            None => None,
        }
    }

    /// The intersection query for the objects `obj1_id` and `obj2_id` (see
    /// `resolve`); `InvalidConstruction` if the pairing is not one of lines
    /// and circles.
    pub fn intersection_query(&self, obj1_id: &str, obj2_id: &str) -> (r: Result<IntersectionQuery, GeometryError>)
        requires
            self.wf(),
        ensures
            self.resolve(obj1_id@, obj2_id@) is None ==> r matches Err(GeometryError::InvalidConstruction { .. }),
            self.resolve(obj1_id@, obj2_id@) matches Some(q) ==> r == Ok::<IntersectionQuery, GeometryError>(q),
    {
        let l1 = self.line_parts_of(obj1_id);
        let l2 = self.line_parts_of(obj2_id);
        let c1 = self.circle_parts_of(obj1_id);
        let c2 = self.circle_parts_of(obj2_id);
        let (kind, a, b) = match (l1, l2, c1, c2) {
            (Some(a), Some(b), _, _) => (PairKind::LineLine, a, b),
            (Some(a), None, _, Some(b)) => (PairKind::LineCircle, a, b),
            (None, Some(a), Some(b), _) => (PairKind::LineCircle, a, b),
            (None, None, Some(a), Some(b)) => (PairKind::CircleCircle, a, b),
            _ => {
                return Err(GeometryError::InvalidConstruction {
                    reason: "Invalid object IDs for intersection".to_owned(),
                });
            },
        };
        Ok(IntersectionQuery {
            kind,
            first_id: a.0,
            second_id: b.0,
            first_a: a.1,
            first_b: a.2,
            second_a: b.1,
            second_b: b.2,
        })
    }

    /// `new` is `old` with the points `pts` appended one by one, the i-th
    /// found at `found[i]` for `q`, each under an identifier that no object
    /// of `old` had and no other of `pts` has, each with its own history step.
    pub open spec fn intersections_recorded(
        old: &ConstructionSpace,
        new: &ConstructionSpace,
        q: IntersectionQuery,
        found: Seq<Position>,
        pts: Seq<Point>,
    ) -> bool {
        let n = old.history@.len();
        let m = old.points@.len();
        &&& new.lines == old.lines
        &&& new.circles == old.circles
        &&& pts.len() == found.len()
        &&& new.history@.len() == n + pts.len()
        &&& new.history@.subrange(0, n as int) == old.history@
        &&& forall|i: int| 0 <= i < pts.len() ==> records_point(#[trigger] new.history@[n + i], pts[i])
        &&& new.points@.len() == m + pts.len()
        &&& new.points@.subrange(0, m as int) == old.points@
        &&& forall|i: int| 0 <= i < pts.len() ==> (#[trigger] new.points@[m + i]).same_as(&pts[i])
        &&& forall|i: int| 0 <= i < pts.len() ==> #[trigger] is_intersection_point(pts[i], found[i], q)
        &&& forall|i: int| 0 <= i < pts.len() ==> !old.has_id(#[trigger] pts[i].id@)
        &&& forall|i: int, k: int| 0 <= i < pts.len() && 0 <= k < pts.len() && i != k ==>
            #[trigger] pts[i].id@ != #[trigger] pts[k].id@
        &&& pts.len() == 0 ==> new.points@ == old.points@ && new.history@ == old.history@
    }

    /// Add a constructed point at each of `found`, depending on the two
    /// objects of `q`, and return the points in order.
    pub fn record_intersections(&mut self, q: &IntersectionQuery, found: Vec<Position>) -> (r: Vec<Point>)
        requires
            old(self).wf(),
        ensures
            final(self).wf(),
            Self::intersections_recorded(old(self), final(self), *q, found@, r@),
    {
        let ghost n = old(self).history@.len();
        let ghost m = old(self).points@.len();
        let mut r: Vec<Point> = Vec::new();
        let mut j: usize = 0;
        while j < found.len()
            invariant
                self.wf(),
                j <= found@.len(),
                r@.len() == j,
                self.lines == old(self).lines,
                self.circles == old(self).circles,
                self.history@.len() == n + j,
                self.history@.subrange(0, n as int) == old(self).history@,
                forall|i: int| 0 <= i < j ==> records_point(#[trigger] self.history@[n + i], r@[i]),
                self.points@.len() == m + j,
                self.points@.subrange(0, m as int) == old(self).points@,
                forall|i: int| 0 <= i < j ==> (#[trigger] self.points@[m + i]).same_as(&r@[i]),
                forall|i: int| 0 <= i < j ==> #[trigger] is_intersection_point(r@[i], found@[i], *q),
                forall|i: int| 0 <= i < j ==> !old(self).has_id(#[trigger] r@[i].id@),
                forall|i: int, k: int| 0 <= i < j && 0 <= k < j && i != k ==>
                    #[trigger] r@[i].id@ != #[trigger] r@[k].id@,
            decreases found@.len() - j,
        {
            let pos = found[j];
            let p = Point::constructed(pos.x_bits, pos.y_bits, None, pair_ids(&q.first_id, &q.second_id));
            let ghost before = *self;
            let ghost rb = r@;
            let ghost pv = p;
            let id = self.add_point(p);
            let copy = Point {
                id,
                position: pos,
                label: None,
                is_constructed: true,
                dependencies: pair_ids(&q.first_id, &q.second_id),
            };
            r.push(copy);
            j = j + 1;
            proof {
                let nid = r@[j - 1].id@;
                assert(texts(r@[j - 1].dependencies@) =~= seq![q.first_id@, q.second_id@]);
                assert(is_intersection_point(r@[j - 1], found@[j - 1], *q));
                assert forall|i: int| 0 <= i < n + j - 1 implies self.history@[i] == before.history@[i] by {
                    assert(self.history@ == before.history@.push(self.history@.last()));
                }
                assert(self.history@.subrange(0, n as int) =~= old(self).history@);
                assert forall|i: int| 0 <= i < j implies records_point(#[trigger] self.history@[n + i], r@[i]) by {
                    if i < j - 1 {
                        assert(self.history@[n + i] == before.history@[n + i]);
                        assert(r@[i] == rb[i]);
                    }
                }
                assert(self.points@.subrange(0, m as int) =~= old(self).points@) by {
                    assert forall|i: int| 0 <= i < m implies self.points@[i] == before.points@[i] by {
                        assert(before.points@.subrange(0, m as int)[i] == before.points@[i]);
                    }
                }
                assert forall|i: int| 0 <= i < j implies (#[trigger] self.points@[m + i]).same_as(&r@[i]) by {
                    if i < j - 1 {
                        assert(self.points@[m + i] == before.points@[m + i]);
                        assert(r@[i] == rb[i]);
                    }
                }
                // the new identifier was in use nowhere before this step
                assert forall|k: Seq<char>| old(self).has_id(k) implies before.has_id(k) by {
                    if old(self).points.has(k) {
                        let i = old(self).points.position_of(k);
                        assert(0 <= i < m && old(self).points@[i].key() == k);
                        assert(before.points@.subrange(0, m as int)[i] == before.points@[i]);
                        assert(before.points@[i].key() == k);
                    }
                }
                assert(!old(self).has_id(nid));
                assert forall|i: int| 0 <= i < j implies !old(self).has_id(#[trigger] r@[i].id@) by {
                    if i < j - 1 {
                        assert(r@[i] == rb[i]);
                    }
                }
                assert forall|i: int| 0 <= i < j - 1 implies #[trigger] r@[i].id@ != nid by {
                    assert(r@[i] == rb[i]);
                    assert(before.points@[m + i].same_as(&rb[i]));
                    assert(before.points@[m + i].key() == rb[i].id@);
                    assert(seq_has(before.points@, rb[i].id@));
                }
                assert forall|i: int, k: int| 0 <= i < j && 0 <= k < j && i != k implies
                    #[trigger] r@[i].id@ != #[trigger] r@[k].id@ by {
                    if i < j - 1 && k < j - 1 {
                        assert(r@[i] == rb[i] && r@[k] == rb[k]);
                    }
                }
            }
        }
        proof {
            if j == 0 {
                assert(self.points@ =~= old(self).points@);
                assert(self.history@ =~= old(self).history@);
            }
        }
        r
    }

    /// `solve` may return some positions for `q`, and `new` is `old` with the
    /// points `pts` recorded at them.
    pub open spec fn solved_and_recorded<F: Fn(&IntersectionQuery) -> Vec<Position>>(
        old: &ConstructionSpace,
        new: &ConstructionSpace,
        q: IntersectionQuery,
        solve: F,
        pts: Seq<Point>,
    ) -> bool {
        exists|found: Vec<Position>|
            solve.ensures((&q,), found) && #[trigger] Self::intersections_recorded(old, new, q, found@, pts)
    }

    /// Intersect the objects `obj1_id` and `obj2_id`: resolve them to an
    /// intersection query, hand it to `solve` for the intersection
    /// positions, and add a constructed point at each (each with its own
    /// history step). Fails, changing nothing, with `InvalidConstruction` if
    /// the pairing is not one of lines and circles.
    pub fn find_intersections<F>(&mut self, obj1_id: &str, obj2_id: &str, solve: F) -> (r: Result<Vec<Point>, GeometryError>)
        where
            F: Fn(&IntersectionQuery) -> Vec<Position>,
        requires
            old(self).wf(),
            forall|q: &IntersectionQuery| solve.requires((q,)),
        ensures
            final(self).wf(),
            old(self).resolve(obj1_id@, obj2_id@) is None ==> *final(self) == *old(self)
                && (r matches Err(GeometryError::InvalidConstruction { .. })),
            old(self).resolve(obj1_id@, obj2_id@) is Some ==> r is Ok,
            r matches Ok(pts) ==> Self::solved_and_recorded(old(self), final(self),
                old(self).resolve(obj1_id@, obj2_id@)->Some_0, solve, pts@),
    {
        let q = match self.intersection_query(obj1_id, obj2_id) {
            Ok(q) => q,
            Err(e) => {
                return Err(e);
            },
        };
        let found = solve(&q);
        let ghost fv = found;
        let pts = self.record_intersections(&q, found);
        proof {
            let ghost qs = old(self).resolve(obj1_id@, obj2_id@)->Some_0;
            assert(q == qs);
            assert(solve.ensures((&q,), fv));
            assert(Self::intersections_recorded(old(self), self, qs, fv@, pts@));
            assert(Self::solved_and_recorded(old(self), self, qs, solve, pts@));
        }
        Ok(pts)
    }

    /// The number of points, lines and circles.
    pub fn object_count(&self) -> (r: usize)
        requires
            self.points@.len() + self.lines@.len() + self.circles@.len() <= usize::MAX,
        ensures
            r == self.points@.len() + self.lines@.len() + self.circles@.len(),
    {
        self.points.len() + self.lines.len() + self.circles.len()
    }
}

} // verus!
