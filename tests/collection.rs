use nerv_geometry::collection::{ConstructionTool, ElementCollection, ElementFactory, ElementType, Rarity};
use nerv_geometry::perf::{time_function, Timer};

#[test]
fn test_new_collection() {
    let collection = ElementCollection::new();
    assert_eq!(collection.caught_count, 0);
    assert_eq!(collection.seen_count, 0);
    assert_eq!(collection.completion_percentage, 0);
}

#[test]
fn test_catch_element() {
    let mut collection = ElementCollection::new();
    let point = ElementFactory::create_point();

    assert!(collection.catch_element(point.clone()));
    assert_eq!(collection.caught_count, 1);
    assert!(!collection.catch_element(point));
}

#[test]
fn test_discover_element() {
    let mut collection = ElementCollection::new();
    let element_id = "test_element".to_string();

    assert!(collection.discover_element(element_id.clone()));
    assert_eq!(collection.seen_count, 1);
    assert!(!collection.discover_element(element_id));
}

#[test]
fn test_available_tools() {
    let mut collection = ElementCollection::new();
    let initial_tools = collection.get_available_tools();
    assert_eq!(initial_tools, vec![ConstructionTool::Point]);

    let point = ElementFactory::create_point();
    collection.catch_element(point);

    let tools_with_point = collection.get_available_tools();
    assert!(tools_with_point.contains(&ConstructionTool::Line));
    assert!(tools_with_point.contains(&ConstructionTool::Circle));
}

#[test]
fn test_element_factory() {
    let point = ElementFactory::create_point();
    assert_eq!(point.element_type, ElementType::Point);
    assert_eq!(point.name, "Point");
    assert_eq!(point.rarity, Rarity::Common);

    let line = ElementFactory::create_line();
    assert_eq!(line.element_type, ElementType::Line { finite: false });
    assert_eq!(line.rarity, Rarity::Common);

    let circle = ElementFactory::create_circle();
    assert_eq!(circle.element_type, ElementType::Circle { filled: false });
    assert_eq!(circle.rarity, Rarity::Uncommon);
}

#[test]
fn test_collection_stats() {
    let mut collection = ElementCollection::new();

    let point = ElementFactory::create_point();
    let line = ElementFactory::create_line();
    let circle = ElementFactory::create_circle();

    collection.catch_element(point);
    collection.catch_element(line);
    collection.catch_element(circle);

    let stats = collection.get_stats();
    assert_eq!(stats.total_caught, 3);
    assert!(stats.total_power > 0);
    assert!(stats.favorite_element.is_some());
}

#[test]
fn stats_count_power_and_rarities() {
    let mut c = ElementCollection::new();
    c.catch_element(ElementFactory::create_point());
    c.catch_element(ElementFactory::create_line());
    c.catch_element(ElementFactory::create_circle());
    c.discover_element("somewhere".to_string());
    let stats = c.get_stats();
    assert_eq!(stats.total_power, 120);
    assert_eq!(stats.total_seen, 1);
    assert_eq!(stats.completion_percentage, 4);
    assert_eq!(stats.rarity_counts[0], (Rarity::Common, 2));
    assert_eq!(stats.rarity_counts[1], (Rarity::Uncommon, 1));
    assert_eq!(stats.rarity_counts[5], (Rarity::Mythic, 0));
    assert_eq!(stats.favorite_element, Some("Circle".to_string()));
    assert_eq!(c.get_by_rarity(Rarity::Common).len(), 2);
    assert_eq!(c.elements_for_construction("anything").len(), 3);
}

#[test]
fn full_collection_unlocks_every_tool_in_order() {
    let mut c = ElementCollection::new();
    c.catch_element(ElementFactory::create_point());
    c.catch_element(ElementFactory::create_line());
    c.catch_element(ElementFactory::create_circle());
    c.catch_element(ElementFactory::create_equilateral_triangle());
    assert!(c.has_construction(1));
    assert!(!c.has_construction(2));
    assert_eq!(
        c.get_available_tools(),
        vec![
            ConstructionTool::Point,
            ConstructionTool::Line,
            ConstructionTool::Circle,
            ConstructionTool::Intersection,
            ConstructionTool::Perpendicular,
            ConstructionTool::Parallel,
            ConstructionTool::Tangent,
            ConstructionTool::Arc,
            ConstructionTool::EquilateralTriangle,
        ]
    );
    assert_eq!(c.get_strongest_element().unwrap().stats.power, 80);
}

#[test]
fn a_caught_element_cannot_then_be_discovered() {
    let mut c = ElementCollection::new();
    let p = ElementFactory::create_point();
    let id = p.id.clone();
    c.catch_element(p);
    assert!(!c.discover_element(id));
    assert_eq!(c.seen_count, 0);
    assert!(c.get_strongest_element().is_some());
    assert!(ElementCollection::new().get_strongest_element().is_none());
}

#[test]
fn timing_returns_the_result() {
    let (r, _d) = time_function("sum", || 2 + 3);
    assert_eq!(r, 5);
    let t = Timer::new("phase");
    assert_eq!(t.label(), "phase");
    let _ = t.elapsed();
}
