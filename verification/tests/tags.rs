use zenith::render::{Color, Vec2};
use zenith::tags::{TagStore, TagValue};

fn sorted_names(store: &TagStore) -> Vec<String> {
    let mut names: Vec<String> = store.entries().iter().map(|tag| tag.name.clone()).collect();
    names.sort();
    names
}

#[test]
fn extract_string_gives_text_only_for_text() {
    assert_eq!(TagValue::String("hi".to_string()).extract_string(), Some("hi".to_string()));
    assert_eq!(TagValue::Int(3).extract_string(), None);
    assert_eq!(TagValue::Color(Color::white()).extract_string(), None);
}

#[test]
fn extract_int_gives_number_only_for_int() {
    assert_eq!(TagValue::Int(-7).extract_int(), Some(-7));
    assert_eq!(TagValue::Int(i32::MIN).extract_int(), Some(i32::MIN));
    assert_eq!(TagValue::String("7".to_string()).extract_int(), None);
    assert_eq!(TagValue::Float(7).extract_int(), None);
}

#[test]
fn extract_float_round_trips_the_number() {
    let value = TagValue::Float(1.5f32.to_bits());
    assert_eq!(value.extract_float().map(f32::from_bits), Some(1.5f32));
    assert_eq!(value.extract_double(), None);
    assert_eq!(value.extract_int(), None);
    let negative_zero = TagValue::Float((-0.0f32).to_bits());
    assert_eq!(negative_zero.extract_float(), Some(0x8000_0000));
    assert_eq!(TagValue::Double(1.5f64.to_bits()).extract_float(), None);
}

#[test]
fn extract_double_round_trips_the_number() {
    let value = TagValue::Double(std::f64::consts::PI.to_bits());
    assert_eq!(value.extract_double().map(f64::from_bits), Some(std::f64::consts::PI));
    assert_eq!(value.extract_float(), None);
    assert_eq!(TagValue::Int(1).extract_double(), None);
}

#[test]
fn extract_color_and_vec2() {
    let color = TagValue::Color(Color { r: 1, g: 2, b: 3 });
    assert_eq!(color.extract_color(), Some(Color { r: 1, g: 2, b: 3 }));
    assert_eq!(color.extract_vec2(), None);
    let vector = TagValue::Vec2(Vec2::new(-4, 9));
    assert_eq!(vector.extract_vec2(), Some(Vec2 { x: -4, y: 9 }));
    assert_eq!(vector.extract_color(), None);
}

#[test]
fn apply_leaves_the_value_alone() {
    let mut value = TagValue::Int(5);
    value.apply(|| TagValue::Int(99));
    assert_eq!(value.extract_int(), Some(5));
}

#[test]
fn new_store_is_empty() {
    let store = TagStore::new();
    assert!(store.entries().is_empty());
    assert!(store.get("anything").is_none());
    assert!(store.get("").is_none());
}

#[test]
fn set_then_get_gives_the_value() {
    let mut store = TagStore::new();
    store.set("hp", TagValue::Int(10));
    assert_eq!(store.get("hp").and_then(|v| v.extract_int()), Some(10));
    assert!(store.get("HP").is_none());
    assert!(store.get("h").is_none());
}

#[test]
fn set_twice_keeps_the_last_value() {
    let mut store = TagStore::new();
    store.set("hp", TagValue::Int(10));
    store.set("hp", TagValue::String("full".to_string()));
    assert_eq!(store.entries().len(), 1);
    let value = store.get("hp").unwrap();
    assert_eq!(value.extract_int(), None);
    assert_eq!(value.extract_string(), Some("full".to_string()));
}

#[test]
fn set_leaves_other_names_alone() {
    let mut store = TagStore::new();
    store.set("a", TagValue::Int(1));
    store.set("b", TagValue::Int(2));
    store.set("c", TagValue::Int(3));
    store.set("b", TagValue::Int(20));
    assert_eq!(store.get("a").and_then(|v| v.extract_int()), Some(1));
    assert_eq!(store.get("b").and_then(|v| v.extract_int()), Some(20));
    assert_eq!(store.get("c").and_then(|v| v.extract_int()), Some(3));
    assert_eq!(sorted_names(&store), vec!["a", "b", "c"]);
}

#[test]
fn empty_name_is_a_name_like_any_other() {
    let mut store = TagStore::new();
    store.set("", TagValue::Int(1));
    assert_eq!(store.get("").and_then(|v| v.extract_int()), Some(1));
    assert_eq!(store.entries().len(), 1);
}

#[test]
fn missing_and_mistyped_both_give_nothing() {
    let mut store = TagStore::new();
    store.set("speed", TagValue::Int(3));
    let missing = store.get("size").and_then(|v| v.extract_int());
    let mistyped = store.get("speed").and_then(|v| v.extract_vec2());
    assert_eq!(missing, None);
    assert_eq!(mistyped, None);
}

#[test]
fn entries_list_each_name_once_with_its_value() {
    let mut store = TagStore::new();
    store.set("x", TagValue::Int(1));
    store.set("y", TagValue::Int(2));
    store.set("x", TagValue::Int(3));
    let entries = store.entries();
    assert_eq!(entries.len(), 2);
    for tag in entries {
        let expected = if tag.name == "x" { 3 } else { 2 };
        assert_eq!(tag.value.extract_int(), Some(expected));
    }
}

#[test]
fn clone_of_store_is_independent() {
    let mut store = TagStore::new();
    store.set("x", TagValue::Int(1));
    let copy = store.clone();
    store.set("x", TagValue::Int(2));
    store.set("y", TagValue::Int(3));
    assert_eq!(copy.get("x").and_then(|v| v.extract_int()), Some(1));
    assert!(copy.get("y").is_none());
}
