use drawdoc::arc::Arc;
use drawdoc::datamodel::DataModel;
use drawdoc::drawable::Drawable;
use drawdoc::line::Line;
use drawdoc::node::{Node, NodeType};
use drawdoc::page::Page;
use drawdoc::registry::Registry;
use drawdoc::scalar::Scalar;

fn num(x: f64) -> Scalar {
    Scalar::from_bits(x.to_bits())
}

fn page(id: &str, name: &str) -> Page {
    Page::new(id.to_string(), name.to_string(), "about".to_string())
}

fn line(id: &str, x1: f64, y1: f64, x2: f64, y2: f64) -> Drawable {
    Drawable::Line(Line::new(id.to_string(), num(x1), num(y1), num(x2), num(y2)))
}

#[test]
fn registry_keeps_order_of_first_insertion() {
    let mut r: Registry<u64> = Registry::new();
    assert_eq!(r.len(), 0);
    r.insert("b".to_string(), 1);
    r.insert("a".to_string(), 2);
    r.insert("c".to_string(), 3);
    r.insert("a".to_string(), 4);
    assert_eq!(r.len(), 3);
    assert_eq!(r.values(), vec![&1, &4, &3]);
    assert_eq!(r.get("a"), Some(&4));
    assert_eq!(r.get("z"), None);
    assert!(r.contains_key("c"));
    assert!(!r.contains_key("d"));
}

#[test]
fn registry_remove_keeps_the_others_in_order() {
    let mut r: Registry<u64> = Registry::new();
    r.insert("1".to_string(), 1);
    r.insert("2".to_string(), 2);
    r.insert("3".to_string(), 3);
    r.remove("2");
    assert_eq!(r.values(), vec![&1, &3]);
    r.remove("2");
    r.remove("nothing");
    assert_eq!(r.len(), 2);
    r.insert("2".to_string(), 5);
    assert_eq!(r.values(), vec![&1, &3, &5]);
}

#[test]
fn registry_get_mut_changes_the_stored_value() {
    let mut r: Registry<u64> = Registry::new();
    r.insert("k".to_string(), 1);
    if let Some(v) = r.get_mut("k") {
        *v = 9;
    }
    assert_eq!(r.get("k"), Some(&9));
    assert!(r.get_mut("other").is_none());
}

#[test]
fn registry_pick_passes_over_missing_keys() {
    let mut r: Registry<u64> = Registry::new();
    r.insert("1".to_string(), 1);
    r.insert("2".to_string(), 2);
    let keys = vec!["2".to_string(), "9".to_string(), "1".to_string(), "2".to_string()];
    assert_eq!(r.pick(&keys), vec![&2, &1, &2]);
}

#[test]
fn new_document_is_empty() {
    let dm = DataModel::default();
    assert_eq!(dm.get_current_page_id(), "");
    assert!(dm.get_current_page().is_none());
    assert!(dm.get_pages().is_empty());
    assert!(dm.get_nodes().is_empty());
    assert!(dm.list_commands().is_empty());
    assert_eq!(dm.id_counter(), 0);
}

#[test]
fn insert_page_makes_it_current() {
    let mut dm = DataModel::new();
    dm.insert_page(page("front", "first"));
    assert_eq!(dm.get_current_page_id(), "front");
    dm.insert_page(page("back", "second"));
    assert_eq!(dm.get_current_page_id(), "back");
    assert_eq!(dm.get_current_page().map(|p| p.get_name()), Some("second"));
    assert_eq!(dm.get_page("front").map(|p| p.get_name()), Some("first"));
    assert!(dm.get_page("spare").is_none());
    let names: Vec<&str> = dm.get_pages().iter().map(|p| p.get_name()).collect();
    assert_eq!(names, vec!["first", "second"]);
}

#[test]
fn insert_overwrites_silently() {
    let mut dm = DataModel::new();
    dm.insert_page(page("p", "old"));
    dm.insert_page(page("p", "new"));
    assert_eq!(dm.get_pages().len(), 1);
    assert_eq!(dm.get_page("p").map(|p| p.get_name()), Some("new"));
    dm.insert_node(line("n", 0.0, 0.0, 1.0, 1.0));
    dm.insert_node(Drawable::Arc(Arc::new(
        "n".to_string(),
        num(1.0),
        num(2.0),
        num(3.0),
        num(0.0),
        num(90.0),
    )));
    assert_eq!(dm.get_nodes().len(), 1);
    assert_eq!(dm.get_node("n").map(|n| *n.get_node_type()), Some(NodeType::Arc));
}

#[test]
fn remove_of_unknown_identifier_does_nothing() {
    let mut dm = DataModel::new();
    dm.insert_page(page("p", "page"));
    dm.insert_node(line("n", 0.0, 0.0, 1.0, 1.0));
    dm.remove_page("q");
    dm.remove_node("m");
    assert_eq!(dm.get_pages().len(), 1);
    assert_eq!(dm.get_nodes().len(), 1);
    dm.remove_page("p");
    dm.remove_node("n");
    assert!(dm.get_pages().is_empty());
    assert!(dm.get_nodes().is_empty());
    assert!(dm.get_page("p").is_none());
    assert!(dm.get_node("n").is_none());
}

#[test]
fn removing_the_current_page_leaves_its_identifier() {
    let mut dm = DataModel::new();
    dm.insert_page(page("p", "page"));
    dm.remove_page("p");
    assert_eq!(dm.get_current_page_id(), "p");
    assert!(dm.get_current_page().is_none());
    assert!(dm.get_current_page_mut().is_none());
}

#[test]
fn current_page_can_be_changed_in_place() {
    let mut dm = DataModel::new();
    dm.insert_page(page("p", "page"));
    if let Some(p) = dm.get_current_page_mut() {
        p.add_node_id("7".to_string());
        p.set_selected_ids(vec!["7".to_string(), "gone".to_string()]);
    }
    let p = dm.get_page("p").unwrap();
    assert_eq!(p.get_node_ids(), &vec!["7".to_string()]);
    assert_eq!(p.get_selected_ids(), &vec!["7".to_string(), "gone".to_string()]);
}

#[test]
fn node_can_be_changed_in_place() {
    let mut dm = DataModel::new();
    dm.insert_node(line("n", 0.0, 0.0, 1.0, 1.0));
    if let Some(Drawable::Line(l)) = dm.get_node_mut("n") {
        l.set_points(num(5.0), num(6.0), num(7.0), num(8.0));
    }
    assert_eq!(dm.get_node("n"), Some(&line("n", 5.0, 6.0, 7.0, 8.0)));
    assert!(dm.get_node_mut("m").is_none());
}

#[test]
fn resolve_passes_over_dangling_identifiers() {
    let mut dm = DataModel::new();
    dm.insert_node(line("1", 0.0, 0.0, 1.0, 1.0));
    dm.insert_node(line("2", 2.0, 2.0, 3.0, 3.0));
    dm.remove_node("1");
    let ids = vec!["1".to_string(), "2".to_string(), "3".to_string()];
    assert_eq!(dm.resolve(&ids), vec![&line("2", 2.0, 2.0, 3.0, 3.0)]);
}

#[test]
fn page_starts_without_nodes_and_selection() {
    let p = Page::new("1".to_string(), "name".to_string(), "text".to_string());
    assert_eq!(p.get_id(), "1");
    assert_eq!(p.get_name(), "name");
    assert_eq!(p.get_description(), "text");
    assert_eq!(*p.get_node_type(), NodeType::Page);
    assert!(p.get_node_ids().is_empty());
    assert!(p.get_selected_ids().is_empty());
}

#[test]
fn page_lists_nodes_in_order_and_allows_repeats() {
    let mut p = page("1", "name");
    p.add_node_id("a".to_string());
    p.add_node_id("b".to_string());
    p.add_node_id("a".to_string());
    assert_eq!(p.get_node_ids(), &vec!["a".to_string(), "b".to_string(), "a".to_string()]);
    let copy = p.clone();
    assert_eq!(copy, p);
    p.set_selected_ids(vec!["b".to_string()]);
    let kept = p.persisted();
    assert!(kept.get_selected_ids().is_empty());
    assert_eq!(kept.get_node_ids(), p.get_node_ids());
    assert_eq!(kept.get_name(), "name");
}

#[test]
fn line_holds_its_points() {
    let l = Line::new("4".to_string(), num(1.5), num(-2.0), num(3.25), num(4.0));
    assert_eq!(l.get_id(), "4");
    assert_eq!(*l.get_node_type(), NodeType::Line);
    assert_eq!(f64::from_bits(l.get_x1().to_bits()), 1.5);
    assert_eq!(f64::from_bits(l.get_y1().to_bits()), -2.0);
    assert_eq!(f64::from_bits(l.get_x2().to_bits()), 3.25);
    assert_eq!(f64::from_bits(l.get_y2().to_bits()), 4.0);
    assert_eq!(l.clone(), l);
}

#[test]
fn default_line_runs_from_origin_to_fifty() {
    let l = Line::with_default_extent("1".to_string());
    assert_eq!(l, Line::new("1".to_string(), num(0.0), num(0.0), num(50.0), num(50.0)));
}

#[test]
fn arc_holds_its_parts() {
    let a = Arc::new("5".to_string(), num(1.0), num(2.0), num(3.0), num(45.0), num(270.0));
    assert_eq!(a.get_id(), "5");
    assert_eq!(*a.get_node_type(), NodeType::Arc);
    assert_eq!(f64::from_bits(a.get_x().to_bits()), 1.0);
    assert_eq!(f64::from_bits(a.get_y().to_bits()), 2.0);
    assert_eq!(f64::from_bits(a.get_r().to_bits()), 3.0);
    assert_eq!(f64::from_bits(a.get_angle_start().to_bits()), 45.0);
    assert_eq!(f64::from_bits(a.get_angle_end().to_bits()), 270.0);
    assert_eq!(a.clone(), a);
}

#[test]
fn drawable_reports_the_kind_of_its_variant() {
    let l = line("1", 0.0, 0.0, 1.0, 1.0);
    assert_eq!(l.get_id(), "1");
    assert_eq!(*l.get_node_type(), NodeType::Line);
    let a = Drawable::Arc(Arc::new("2".to_string(), num(0.0), num(0.0), num(1.0), num(0.0), num(1.0)));
    assert_eq!(a.get_id(), "2");
    assert_eq!(*a.get_node_type(), NodeType::Arc);
    assert_eq!(a.clone(), a);
}

#[test]
fn node_type_names() {
    assert_eq!(NodeType::Page.to_string(), "Page");
    assert_eq!(NodeType::Line.to_string(), "Line");
    assert_eq!(NodeType::Arc.to_string(), "Arc");
    assert_eq!(NodeType::parse("page"), Some(NodeType::Page));
    assert_eq!(NodeType::parse("line"), Some(NodeType::Line));
    assert_eq!(NodeType::parse("arc"), Some(NodeType::Arc));
    assert_eq!(NodeType::parse("Line"), None);
    assert_eq!(NodeType::parse(""), None);
    assert_eq!(NodeType::parse("circle"), None);
}
