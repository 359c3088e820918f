use niloecl::flat::{flatten, FlatMap, FlatValue};
use niloecl::interaction::Component;

fn text(custom_id: &str, value: &str) -> Component {
    Component::TextInput { custom_id: custom_id.to_string(), value: value.to_string() }
}

fn multi(custom_id: &str, values: &[&str]) -> Component {
    Component::MultiSelect {
        custom_id: custom_id.to_string(),
        values: values.iter().map(|v| v.to_string()).collect(),
    }
}

fn single_of(map: &FlatMap, key: &str) -> String {
    match map.get(&key.to_string()) {
        Some(FlatValue::Single(s)) => s.clone(),
        other => panic!("expected a single value under {key}, got {:?}", other.is_some()),
    }
}

fn many_of(map: &FlatMap, key: &str) -> Vec<String> {
    match map.get(&key.to_string()) {
        Some(FlatValue::Many(vs)) => vs.clone(),
        other => panic!("expected a value list under {key}, got {:?}", other.is_some()),
    }
}

#[test]
fn last_write_wins_on_duplicate_custom_id() {
    let components = vec![text("x", "a"), text("x", "b")];
    let map = flatten(&components);
    assert_eq!(single_of(&map, "x"), "b");
}

#[test]
fn label_wrapping_action_row_wrapping_multi_select() {
    let components = vec![Component::Label(Box::new(Component::ActionRow(vec![multi(
        "tags",
        &["a", "b"],
    )])))];
    let map = flatten(&components);
    assert_eq!(many_of(&map, "tags"), vec!["a".to_string(), "b".to_string()]);
}

#[test]
fn inert_leaves_contribute_nothing() {
    let components = vec![Component::Inert, text("x", "a"), Component::Inert];
    let map = flatten(&components);
    assert_eq!(single_of(&map, "x"), "a");
    assert!(map.get(&"y".to_string()).is_none());
}

#[test]
fn empty_tree_flattens_to_empty_mapping() {
    let map = flatten(&Vec::new());
    assert!(map.get(&"x".to_string()).is_none());
}

#[test]
fn document_order_spans_nesting() {
    // The later leaf overwrites even from inside deeper nesting.
    let components = vec![
        text("x", "outer"),
        Component::ActionRow(vec![Component::Label(Box::new(text("x", "inner")))]),
    ];
    let map = flatten(&components);
    assert_eq!(single_of(&map, "x"), "inner");
}

#[test]
fn earlier_leaf_does_not_shadow_later_distinct_keys() {
    let components = vec![text("a", "1"), multi("b", &["2", "3"]), text("c", "4")];
    let map = flatten(&components);
    assert_eq!(single_of(&map, "a"), "1");
    assert_eq!(many_of(&map, "b"), vec!["2".to_string(), "3".to_string()]);
    assert_eq!(single_of(&map, "c"), "4");
}

#[test]
fn insert_overwrites_previous_value() {
    let mut map = FlatMap::new();
    map.insert("k".to_string(), FlatValue::Single("old".to_string()));
    map.insert("k".to_string(), FlatValue::Single("new".to_string()));
    assert_eq!(single_of(&map, "k"), "new");
}
