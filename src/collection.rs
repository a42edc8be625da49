//! The collection layer's bookkeeping: which kinds of element a user has
//! caught or seen, and the construction tools that this unlocks.

use vstd::prelude::*;
use crate::geometry::{texts, is_uuid_shaped};
use crate::ids::{new_id, same_id};
use crate::table::{Table, Keyed, lemma_inserted};

verus! {

/// Kinds of geometric element that can be collected.
#[derive(Clone, Copy, Debug, PartialEq, Eq, Structural)]
pub enum ElementType {
    Point,
    Line { finite: bool },
    Circle { filled: bool },
    Angle,
    Triangle { triangle_type: TriangleType },
    Polygon { sides: usize },
    /// A construction, by its proposition number.
    Construction { proposition_number: Option<usize> },
    Transformation { transform_type: TransformationType },
}

/// Classes of triangle.
#[derive(Clone, Copy, Debug, PartialEq, Eq, Structural)]
pub enum TriangleType {
    Scalene,
    Isosceles,
    Equilateral,
    Right,
    Acute,
    Obtuse,
}

/// Kinds of transformation.
#[derive(Clone, Copy, Debug, PartialEq, Eq, Structural)]
pub enum TransformationType {
    Translation,
    Rotation,
    Reflection,
    Scaling,
    Glide,
}

/// How rare an element is.
#[derive(Clone, Copy, Debug, PartialEq, Eq, Hash, Structural)]
pub enum Rarity {
    Common,
    Uncommon,
    Rare,
    Epic,
    Legendary,
    Mythic,
}

/// Scores of an element.
#[derive(Clone, Copy, Debug, PartialEq, Eq, Structural)]
pub struct ElementStats {
    /// How precisely it can be constructed.
    pub precision: u8,
    /// How complex the constructions it takes part in are.
    pub complexity: u8,
    /// How elegant its construction is.
    pub elegance: u8,
    /// How many other elements it helps construct.
    pub power: u8,
    /// Its rarity as a number.
    pub rarity_score: u8,
}

/// An instant in UTC: whole seconds since the Unix epoch and the nanoseconds
/// past that second.
#[derive(Clone, Copy, Debug, PartialEq, Eq, Structural)]
pub struct UtcInstant {
    pub seconds: i64,
    pub nanos: u32,
}

/// Relies on `chrono::Utc::now` with `DateTime::timestamp` and
/// `DateTime::timestamp_subsec_nanos`: the current time. Nothing is promised
/// of its value.
#[verifier::external_body]
fn utc_now() -> (r: UtcInstant) {
    let now = chrono::Utc::now();
    UtcInstant { seconds: now.timestamp(), nanos: now.timestamp_subsec_nanos() }
}

/// A caught element.
#[derive(Clone, Debug)]
pub struct CollectedElement {
    pub id: String,
    pub element_type: ElementType,
    pub name: String,
    pub description: String,
    pub rarity: Rarity,
    pub stats: ElementStats,
    pub unlock_requirements: Vec<String>,
    pub unlocks: Vec<String>,
    pub caught_at: UtcInstant,
}

impl Keyed for CollectedElement {
    open spec fn key(&self) -> Seq<char> {
        self.id@
    }

    fn key_str(&self) -> (r: &str) {
        self.id.as_str()
    }
}

/// Construction tools that a collection can unlock.
#[derive(Clone, Copy, Debug, PartialEq, Eq, Structural)]
pub enum ConstructionTool {
    Point,
    Line,
    Circle,
    Intersection,
    Perpendicular,
    Parallel,
    Tangent,
    Arc,
    EquilateralTriangle,
    Square,
    RegularPolygon { sides: usize },
    AngleBisector,
    PerpendicularBisector,
}

/// The number of collectible elements that completion is measured against.
pub const TOTAL_COLLECTIBLE: usize = 100;

/// Some element of `s` has type `t`.
pub open spec fn has_type(s: Seq<CollectedElement>, t: ElementType) -> bool {
    exists|i: int| 0 <= i < s.len() && #[trigger] s[i].element_type == t
}

/// Some element of `s` is the construction of proposition `n`.
pub open spec fn has_proposition(s: Seq<CollectedElement>, n: usize) -> bool {
    exists|i: int| 0 <= i < s.len()
        && #[trigger] s[i].element_type == (ElementType::Construction { proposition_number: Some(n) })
}

/// The elements of `s` of rarity `r`, in order.
pub open spec fn of_rarity(s: Seq<CollectedElement>, r: Rarity) -> Seq<CollectedElement>
    decreases s.len(),
{
    if s.len() == 0 {
        Seq::empty()
    } else if s.last().rarity == r {
        of_rarity(s.drop_last(), r).push(s.last())
    } else {
        of_rarity(s.drop_last(), r)
    }
}

/// The sum of the powers of the elements of `s`.
pub open spec fn power_sum(s: Seq<CollectedElement>) -> nat
    decreases s.len(),
{
    if s.len() == 0 {
        0
    } else {
        power_sum(s.drop_last()) + s.last().stats.power as nat
    }
}

/// The tools that a collection holding `s` makes available, in order.
pub open spec fn available_tools(s: Seq<CollectedElement>) -> Seq<ConstructionTool> {
    let base = seq![ConstructionTool::Point];
    let a = if has_type(s, ElementType::Point) {
        base + seq![ConstructionTool::Line, ConstructionTool::Circle]
    } else {
        base
    };
    let b = if has_type(s, ElementType::Line { finite: false }) {
        a + seq![ConstructionTool::Intersection, ConstructionTool::Perpendicular, ConstructionTool::Parallel]
    } else {
        a
    };
    let c = if has_type(s, ElementType::Circle { filled: false }) {
        b + seq![ConstructionTool::Tangent, ConstructionTool::Arc]
    } else {
        b
    };
    if has_proposition(s, 1) {
        c.push(ConstructionTool::EquilateralTriangle)
    } else {
        c
    }
}

/// The six rarities, from the most common.
pub open spec fn rarity_rank(k: int) -> Rarity {
    if k == 0 {
        Rarity::Common
    } else if k == 1 {
        Rarity::Uncommon
    } else if k == 2 {
        Rarity::Rare
    } else if k == 3 {
        Rarity::Epic
    } else if k == 4 {
        Rarity::Legendary
    } else {
        Rarity::Mythic
    }
}

/// Figures about a collection.
#[derive(Debug)]
pub struct CollectionStats {
    pub total_caught: usize,
    pub total_seen: usize,
    pub completion_percentage: usize,
    /// Each rarity, from the most common, with the number of caught elements of it.
    pub rarity_counts: Vec<(Rarity, usize)>,
    pub total_power: u32,
    /// The name of the strongest element, if any.
    pub favorite_element: Option<String>,
}

/// The elements caught and the identifiers seen by a user.
#[derive(Debug)]
pub struct ElementCollection {
    pub elements: Table<CollectedElement>,
    /// Identifiers seen but not caught.
    pub discovered: Vec<String>,
    pub caught_count: usize,
    pub seen_count: usize,
    /// Elements caught or seen, in percent of `TOTAL_COLLECTIBLE`
    /// (saturating at `usize::MAX`).
    pub completion_percentage: usize,
}

impl ElementCollection {
    /// The counters agree with the contents.
    pub open spec fn wf(&self) -> bool {
        &&& self.elements.wf()
        &&& self.caught_count == self.elements@.len()
        &&& self.seen_count == self.discovered@.len()
        &&& self.completion_percentage == completion_of(self.caught_count, self.seen_count)
    }

    /// An empty collection.
    pub fn new() -> (r: ElementCollection)
        ensures
            r.wf(),
            r.elements@.len() == 0,
            r.discovered@.len() == 0,
            r.completion_percentage == 0,
    {
        ElementCollection {
            elements: Table::new(),
            discovered: Vec::new(),
            caught_count: 0,
            seen_count: 0,
            completion_percentage: 0,
        }
    }

    fn update_completion(&mut self)
        ensures
            final(self).completion_percentage == completion_of(old(self).caught_count, old(self).seen_count),
            final(self).elements == old(self).elements,
            final(self).discovered == old(self).discovered,
            final(self).caught_count == old(self).caught_count,
            final(self).seen_count == old(self).seen_count,
    {
        self.completion_percentage = completion(self.caught_count, self.seen_count);
    }

    /// Add `element` unless one with its identifier is already caught;
    /// return whether it was added.
    pub fn catch_element(&mut self, element: CollectedElement) -> (r: bool)
        requires
            old(self).wf(),
        ensures
            final(self).wf(),
            r == !old(self).elements.has(element.id@),
            r ==> final(self).elements@ == old(self).elements@.push(element),
            !r ==> *final(self) == *old(self),
            final(self).discovered == old(self).discovered,
    {
        if self.elements.contains_key(element.id.as_str()) {
            return false;
        }
        proof { lemma_inserted(self.elements@, element); }
        self.elements.insert(element);
        self.caught_count = self.elements.len();
        self.update_completion();
        true
    }

    /// Whether `id` is among the discovered identifiers.
    fn is_discovered(&self, id: &str) -> (r: bool)
        ensures
            r == exists|i: int| 0 <= i < self.discovered@.len() && #[trigger] self.discovered@[i]@ == id@,
    {
        let mut i: usize = 0;
        while i < self.discovered.len()
            invariant
                i <= self.discovered@.len(),
                forall|j: int| 0 <= j < i ==> #[trigger] self.discovered@[j]@ != id@,
            decreases self.discovered@.len() - i,
        {
            if same_id(self.discovered[i].as_str(), id) {
                return true;
            }
            i = i + 1;
        }
        false
    }

    /// Mark `element_id` as seen unless it is caught or already seen; return
    /// whether it was marked.
    pub fn discover_element(&mut self, element_id: String) -> (r: bool)
        requires
            old(self).wf(),
        ensures
            final(self).wf(),
            r == !(old(self).elements.has(element_id@) || texts(old(self).discovered@).contains(element_id@)),
            r ==> final(self).discovered@ == old(self).discovered@.push(element_id),
            !r ==> *final(self) == *old(self),
            final(self).elements == old(self).elements,
    {
        let known = self.elements.contains_key(element_id.as_str()) || self.is_discovered(element_id.as_str());
        proof {
            if self.is_discovered_spec(element_id@) {
                let i = choose|i: int| 0 <= i < self.discovered@.len() && #[trigger] self.discovered@[i]@ == element_id@;
                assert(texts(self.discovered@)[i] == element_id@);
            }
            if texts(self.discovered@).contains(element_id@) {
                let i = choose|i: int| 0 <= i < texts(self.discovered@).len() && texts(self.discovered@)[i] == element_id@;
                assert(self.discovered@[i]@ == element_id@);
            }
        }
        if known {
            return false;
        }
        self.discovered.push(element_id);
        self.seen_count = self.discovered.len();
        self.update_completion();
        true
    }

    /// Some discovered identifier is `k`.
    pub open spec fn is_discovered_spec(&self, k: Seq<char>) -> bool {
        exists|i: int| 0 <= i < self.discovered@.len() && #[trigger] self.discovered@[i]@ == k
    }

    /// Whether some caught element has type `element_type`.
    pub fn has_element_type(&self, element_type: &ElementType) -> (r: bool)
        ensures
            r == has_type(self.elements@, *element_type),
    {
        let v = self.elements.values();
        let mut i: usize = 0;
        while i < v.len()
            invariant
                v@ == self.elements@,
                i <= v@.len(),
                forall|j: int| 0 <= j < i ==> #[trigger] v@[j].element_type != *element_type,
            decreases v@.len() - i,
        {
            if v[i].element_type == *element_type {
                return true;
            }
            i = i + 1;
        }
        false
    }

    /// Whether some caught element is the construction of proposition
    /// `proposition_number`.
    pub fn has_construction(&self, proposition_number: usize) -> (r: bool)
        ensures
            r == has_proposition(self.elements@, proposition_number),
    {
        self.has_element_type(&ElementType::Construction { proposition_number: Some(proposition_number) })
    }

    /// The tools that the caught elements make available, in order.
    pub fn get_available_tools(&self) -> (r: Vec<ConstructionTool>)
        ensures
            r@ == available_tools(self.elements@),
    {
        let mut tools: Vec<ConstructionTool> = Vec::new();
        tools.push(ConstructionTool::Point);
        if self.has_element_type(&ElementType::Point) {
            tools.push(ConstructionTool::Line);
            tools.push(ConstructionTool::Circle);
        }
        if self.has_element_type(&ElementType::Line { finite: false }) {
            tools.push(ConstructionTool::Intersection);
            tools.push(ConstructionTool::Perpendicular);
            tools.push(ConstructionTool::Parallel);
        }
        if self.has_element_type(&ElementType::Circle { filled: false }) {
            tools.push(ConstructionTool::Tangent);
            tools.push(ConstructionTool::Arc);
        }
        if self.has_construction(1) {
            tools.push(ConstructionTool::EquilateralTriangle);
        }
        assert(tools@ =~= available_tools(self.elements@));
        tools
    }

    /// The caught elements of rarity `rarity`, in order.
    pub fn get_by_rarity(&self, rarity: Rarity) -> (r: Vec<&CollectedElement>)
        ensures
            r@.map_values(|e: &CollectedElement| *e) == of_rarity(self.elements@, rarity),
    {
        let v = self.elements.values();
        let mut r: Vec<&CollectedElement> = Vec::new();
        let mut i: usize = 0;
        while i < v.len()
            invariant
                v@ == self.elements@,
                i <= v@.len(),
                r@.map_values(|e: &CollectedElement| *e) == of_rarity(v@.subrange(0, i as int), rarity),
            decreases v@.len() - i,
        {
            assert(v@.subrange(0, i + 1).drop_last() =~= v@.subrange(0, i as int));
            if v[i].rarity == rarity {
                r.push(&v[i]);
            }
            i = i + 1;
            assert(r@.map_values(|e: &CollectedElement| *e) =~= of_rarity(v@.subrange(0, i as int), rarity));
        }
        assert(v@.subrange(0, v@.len() as int) =~= v@);
        r
    }

    /// The number of caught elements of rarity `rarity`.
    pub fn count_rarity(&self, rarity: Rarity) -> (r: usize)
        ensures
            r == of_rarity(self.elements@, rarity).len(),
    {
        self.get_by_rarity(rarity).len()
    }

    /// The sum of the powers of the caught elements.
    pub fn total_power(&self) -> (r: u32)
        requires
            power_sum(self.elements@) <= u32::MAX,
        ensures
            r == power_sum(self.elements@),
    {
        let v = self.elements.values();
        let mut sum: u32 = 0;
        let mut i: usize = 0;
        while i < v.len()
            invariant
                v@ == self.elements@,
                power_sum(v@) <= u32::MAX,
                i <= v@.len(),
                sum == power_sum(v@.subrange(0, i as int)),
            decreases v@.len() - i,
        {
            assert(v@.subrange(0, i + 1).drop_last() =~= v@.subrange(0, i as int));
            proof { lemma_power_sum_prefix(v@, i as int + 1); }
            sum = sum + v[i].stats.power as u32;
            i = i + 1;
        }
        assert(v@.subrange(0, v@.len() as int) =~= v@);
        sum
    }

    /// All caught elements; every element may serve any construction.
    pub fn elements_for_construction(&self, _construction_type: &str) -> (r: Vec<&CollectedElement>)
        ensures
            r@.map_values(|e: &CollectedElement| *e) == self.elements@,
    {
        let v = self.elements.values();
        let mut r: Vec<&CollectedElement> = Vec::new();
        let mut i: usize = 0;
        while i < v.len()
            invariant
                v@ == self.elements@,
                i <= v@.len(),
                r@.map_values(|e: &CollectedElement| *e) == v@.subrange(0, i as int),
            decreases v@.len() - i,
        {
            let ghost before = r@;
            r.push(&v[i]);
            assert(r@.map_values(|e: &CollectedElement| *e)
                =~= before.map_values(|e: &CollectedElement| *e).push(v@[i as int]));
            i = i + 1;
            assert(r@.map_values(|e: &CollectedElement| *e) =~= v@.subrange(0, i as int));
        }
        assert(v@.subrange(0, v@.len() as int) =~= v@);
        r
    }

    /// The caught element of greatest power, the last such if several; none
    /// if nothing is caught.
    pub fn get_strongest_element(&self) -> (r: Option<&CollectedElement>)
        ensures
            r is None <==> self.elements@.len() == 0,
            r matches Some(e) ==> exists|i: int| 0 <= i < self.elements@.len() && self.elements@[i] == *e
                && (forall|j: int| 0 <= j < self.elements@.len() ==> #[trigger] self.elements@[j].stats.power <= e.stats.power)
                && (forall|j: int| i < j < self.elements@.len() ==> #[trigger] self.elements@[j].stats.power < e.stats.power),
    {
        let v = self.elements.values();
        if v.len() == 0 {
            return None;
        }
        let mut best: usize = 0;
        let mut i: usize = 1;
        while i < v.len()
            invariant
                v@ == self.elements@,
                1 <= i <= v@.len(),
                best < i,
                forall|j: int| 0 <= j < i ==> #[trigger] v@[j].stats.power <= v@[best as int].stats.power,
                forall|j: int| best < j < i ==> #[trigger] v@[j].stats.power < v@[best as int].stats.power,
            decreases v@.len() - i,
        {
            if v[i].stats.power >= v[best].stats.power {
                best = i;
            }
            i = i + 1;
        }
        Some(&v[best])
    }

    /// Figures about the collection.
    pub fn get_stats(&self) -> (r: CollectionStats)
        requires
            self.wf(),
            power_sum(self.elements@) <= u32::MAX,
        ensures
            r.total_caught == self.caught_count,
            r.total_seen == self.seen_count,
            r.completion_percentage == self.completion_percentage,
            r.rarity_counts@.len() == 6,
            forall|k: int| 0 <= k < 6 ==> #[trigger] r.rarity_counts@[k]
                == (rarity_rank(k), of_rarity(self.elements@, rarity_rank(k)).len() as usize),
            r.total_power == power_sum(self.elements@),
            r.favorite_element is None <==> self.elements@.len() == 0,
    {
        let mut rarity_counts: Vec<(Rarity, usize)> = Vec::new();
        rarity_counts.push((Rarity::Common, self.count_rarity(Rarity::Common)));
        rarity_counts.push((Rarity::Uncommon, self.count_rarity(Rarity::Uncommon)));
        rarity_counts.push((Rarity::Rare, self.count_rarity(Rarity::Rare)));
        rarity_counts.push((Rarity::Epic, self.count_rarity(Rarity::Epic)));
        rarity_counts.push((Rarity::Legendary, self.count_rarity(Rarity::Legendary)));
        rarity_counts.push((Rarity::Mythic, self.count_rarity(Rarity::Mythic)));
        let favorite_element = match self.get_strongest_element() {
            Some(e) => Some(e.name.clone()),
            None => None,
        };
        CollectionStats {
            total_caught: self.caught_count,
            total_seen: self.seen_count,
            completion_percentage: self.completion_percentage,
            rarity_counts,
            total_power: self.total_power(),
            favorite_element,
        }
    }
}

/// Maker of the standard collectible elements.
pub struct ElementFactory;

/// `e` is a freshly caught element with the given contents.
pub open spec fn made_element(
    e: CollectedElement,
    element_type: ElementType,
    name: Seq<char>,
    description: Seq<char>,
    rarity: Rarity,
    stats: ElementStats,
    requirements: Seq<Seq<char>>,
    unlocks: Seq<Seq<char>>,
) -> bool {
    &&& is_uuid_shaped(e.id@)
    &&& e.element_type == element_type
    &&& e.name@ == name
    &&& e.description@ == description
    &&& e.rarity == rarity
    &&& e.stats == stats
    &&& texts(e.unlock_requirements@) == requirements
    &&& texts(e.unlocks@) == unlocks
}

/// The given names as owned strings, in order.
fn name_list(a: Option<&str>, b: Option<&str>, c: Option<&str>) -> (r: Vec<String>)
    ensures
        texts(r@) == opt_seq(a) + opt_seq(b) + opt_seq(c),
{
    let mut r: Vec<String> = Vec::new();
    if let Some(a) = a {
        r.push(a.to_owned());
    }
    if let Some(b) = b {
        r.push(b.to_owned());
    }
    if let Some(c) = c {
        r.push(c.to_owned());
    }
    assert(texts(r@) =~= opt_seq(a) + opt_seq(b) + opt_seq(c));
    r
}

/// The text of `a` as a one-element sequence, or nothing.
pub open spec fn opt_seq(a: Option<&str>) -> Seq<Seq<char>> {
    match a {
        Some(s) => seq![s@],
        None => Seq::empty(),
    }
}

fn make_element(
    element_type: ElementType,
    name: &str,
    description: &str,
    rarity: Rarity,
    stats: ElementStats,
    unlock_requirements: Vec<String>,
    unlocks: Vec<String>,
) -> (r: CollectedElement)
    ensures
        made_element(r, element_type, name@, description@, rarity, stats, texts(unlock_requirements@), texts(unlocks@)),
{
    CollectedElement {
        id: new_id(),
        element_type,
        name: name.to_owned(),
        description: description.to_owned(),
        rarity,
        stats,
        unlock_requirements,
        unlocks,
        caught_at: utc_now(),
    }
}

impl ElementFactory {
    /// The point: common, unlocking lines and circles.
    pub fn create_point() -> (r: CollectedElement)
        ensures
            made_element(r, ElementType::Point, "Point"@,
                "The fundamental element of geometry - a location with no size"@, Rarity::Common,
                ElementStats { precision: 100, complexity: 10, elegance: 50, power: 20, rarity_score: 1 },
                Seq::empty(), seq!["Line"@, "Circle"@]),
    {
        let requirements: Vec<String> = Vec::new();
        assert(texts(requirements@) =~= Seq::<Seq<char>>::empty());
        let unlocks = name_list(Some("Line"), Some("Circle"), None);
        assert(opt_seq(Some("Line")) + opt_seq(Some("Circle")) + opt_seq(None) =~= seq!["Line"@, "Circle"@]);
        make_element(
            ElementType::Point,
            "Point",
            "The fundamental element of geometry - a location with no size",
            Rarity::Common,
            ElementStats { precision: 100, complexity: 10, elegance: 50, power: 20, rarity_score: 1 },
            requirements,
            unlocks,
        )
    }

    /// The infinite line: common, needing the point, unlocking triangles and polygons.
    pub fn create_line() -> (r: CollectedElement)
        ensures
            made_element(r, ElementType::Line { finite: false }, "Line"@,
                "Infinite straight path connecting two points"@, Rarity::Common,
                ElementStats { precision: 90, complexity: 30, elegance: 70, power: 40, rarity_score: 2 },
                seq!["Point"@], seq!["Triangle"@, "Polygon"@]),
    {
        let requirements = name_list(Some("Point"), None, None);
        let unlocks = name_list(Some("Triangle"), Some("Polygon"), None);
        assert(opt_seq(Some("Point")) + opt_seq(None) + opt_seq(None) =~= seq!["Point"@]);
        assert(opt_seq(Some("Triangle")) + opt_seq(Some("Polygon")) + opt_seq(None) =~= seq!["Triangle"@, "Polygon"@]);
        make_element(
            ElementType::Line { finite: false },
            "Line",
            "Infinite straight path connecting two points",
            Rarity::Common,
            ElementStats { precision: 90, complexity: 30, elegance: 70, power: 40, rarity_score: 2 },
            requirements,
            unlocks,
        )
    }

    /// The unfilled circle: uncommon, needing the point, unlocking arcs and tangents.
    pub fn create_circle() -> (r: CollectedElement)
        ensures
            made_element(r, ElementType::Circle { filled: false }, "Circle"@,
                "Perfect round shape with all points equidistant from center"@, Rarity::Uncommon,
                ElementStats { precision: 95, complexity: 50, elegance: 90, power: 60, rarity_score: 3 },
                seq!["Point"@], seq!["Arc"@, "Tangent"@]),
    {
        let requirements = name_list(Some("Point"), None, None);
        let unlocks = name_list(Some("Arc"), Some("Tangent"), None);
        assert(opt_seq(Some("Point")) + opt_seq(None) + opt_seq(None) =~= seq!["Point"@]);
        assert(opt_seq(Some("Arc")) + opt_seq(Some("Tangent")) + opt_seq(None) =~= seq!["Arc"@, "Tangent"@]);
        make_element(
            ElementType::Circle { filled: false },
            "Circle",
            "Perfect round shape with all points equidistant from center",
            Rarity::Uncommon,
            ElementStats { precision: 95, complexity: 50, elegance: 90, power: 60, rarity_score: 3 },
            requirements,
            unlocks,
        )
    }

    /// The construction of proposition 1, the equilateral triangle: rare,
    /// needing point, line and circle.
    pub fn create_equilateral_triangle() -> (r: CollectedElement)
        ensures
            made_element(r, ElementType::Construction { proposition_number: Some(1) },
                "Proposition I: Equilateral Triangle"@,
                "Euclid's first proposition - construct an equilateral triangle on a given finite straight line"@,
                Rarity::Rare,
                ElementStats { precision: 85, complexity: 70, elegance: 95, power: 80, rarity_score: 4 },
                seq!["Point"@, "Line"@, "Circle"@], seq!["Triangle"@, "Regular Polygon"@]),
    {
        let requirements = name_list(Some("Point"), Some("Line"), Some("Circle"));
        let unlocks = name_list(Some("Triangle"), Some("Regular Polygon"), None);
        assert(opt_seq(Some("Point")) + opt_seq(Some("Line")) + opt_seq(Some("Circle")) =~= seq!["Point"@, "Line"@, "Circle"@]);
        assert(opt_seq(Some("Triangle")) + opt_seq(Some("Regular Polygon")) + opt_seq(None) =~= seq!["Triangle"@, "Regular Polygon"@]);
        make_element(
            ElementType::Construction { proposition_number: Some(1) },
            "Proposition I: Equilateral Triangle",
            "Euclid's first proposition - construct an equilateral triangle on a given finite straight line",
            Rarity::Rare,
            ElementStats { precision: 85, complexity: 70, elegance: 95, power: 80, rarity_score: 4 },
            requirements,
            unlocks,
        )
    }
}

/// Completion in percent for `caught` and `seen` elements.
pub open spec fn completion_of(caught: usize, seen: usize) -> usize {
    if caught + seen > usize::MAX {
        usize::MAX
    } else {
        ((caught + seen) * 100 / TOTAL_COLLECTIBLE as int) as usize
    }
}

fn completion(caught: usize, seen: usize) -> (r: usize)
    ensures
        r == completion_of(caught, seen),
{
    match caught.checked_add(seen) {
        Some(found) => found,
        None => usize::MAX,
    }
}

/// The power sum over a prefix grows by the power of the next element.
proof fn lemma_power_sum_prefix(s: Seq<CollectedElement>, k: int)
    requires
        0 < k <= s.len(),
    ensures
        power_sum(s.subrange(0, k)) == power_sum(s.subrange(0, k - 1)) + s[k - 1].stats.power,
        power_sum(s.subrange(0, k)) <= power_sum(s),
    decreases s.len() - k,
{
    assert(s.subrange(0, k).drop_last() =~= s.subrange(0, k - 1));
    if k < s.len() {
        lemma_power_sum_prefix(s, k + 1);
    } else {
        assert(s.subrange(0, k) =~= s);
    }
}

} // verus!
