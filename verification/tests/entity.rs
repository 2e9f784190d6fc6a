use zenith::render::{Color, Vec2};
use zenith::tags::TagValue;
use zenith::Entity;

fn int_tag(entity: &Entity<u8>, name: &str) -> Option<i32> {
    entity.get_tag(name).and_then(|value| value.extract_int())
}

#[test]
fn new_entity_has_no_tags_and_no_hooks() {
    let entity: Entity<u8> = Entity::new();
    assert!(entity.update_function.is_none());
    assert!(entity.start_function.is_none());
    assert!(entity.tags.entries().is_empty());
    assert!(entity.get_tag("name").is_none());
}

#[test]
fn builder_steps_set_what_they_name() {
    let entity = Entity::new().with_update_fn(1u8).with_start_fn(2u8).with_tag("hp", TagValue::Int(9));
    assert_eq!(entity.update_function, Some(1));
    assert_eq!(entity.start_function, Some(2));
    assert_eq!(int_tag(&entity, "hp"), Some(9));
    assert_eq!(entity.tags.entries().len(), 1);
}

#[test]
fn later_builder_step_wins() {
    let entity = Entity::new()
        .with_update_fn(1u8)
        .with_update_fn(5u8)
        .with_tag("hp", TagValue::Int(9))
        .with_tag("hp", TagValue::Int(10));
    assert_eq!(entity.update_function, Some(5));
    assert_eq!(entity.start_function, None);
    assert_eq!(int_tag(&entity, "hp"), Some(10));
}

#[test]
fn name_tag_is_an_ordinary_text_tag() {
    let entity: Entity<u8> = Entity::new().with_name_tag("player");
    assert_eq!(entity.get_name(), "player");
    assert_eq!(
        entity.get_tag("name").and_then(|value| value.extract_string()),
        Some("player".to_string())
    );
    assert!(entity.has_name("player"));
    assert!(!entity.has_name("Player"));
    let renamed = entity.with_name_tag("boss");
    assert_eq!(renamed.get_name(), "boss");
    assert!(!renamed.has_name("player"));
    assert_eq!(renamed.tags.entries().len(), 1);
}

#[test]
fn anonymous_entity_reads_unnamed() {
    let entity: Entity<u8> = Entity::new();
    assert_eq!(entity.get_name(), "'Unnamed'");
    assert!(!entity.has_name("'Unnamed'"));
    assert!(!entity.has_name(""));
}

#[test]
fn name_tag_of_another_kind_does_not_name() {
    let entity: Entity<u8> = Entity::new().with_tag("name", TagValue::Int(4));
    assert_eq!(entity.get_name(), "'Unnamed'");
    assert!(!entity.has_name("4"));
    assert_eq!(int_tag(&entity, "name"), Some(4));
}

#[test]
fn get_tag_twice_gives_equal_values() {
    let entity: Entity<u8> = Entity::new()
        .with_name_tag("twice")
        .with_tag("at", TagValue::Vec2(Vec2::new(3, 4)))
        .with_tag("tint", TagValue::Color(Color::black()));
    for name in ["name", "at", "tint", "missing"] {
        let first = entity.get_tag(name);
        let second = entity.get_tag(name);
        assert_eq!(format!("{:?}", first), format!("{:?}", second));
    }
    assert_eq!(
        entity.get_tag("at").and_then(|v| v.extract_vec2()),
        Some(Vec2 { x: 3, y: 4 })
    );
}

#[test]
fn set_tag_inserts_and_replaces() {
    let mut entity: Entity<u8> = Entity::new().with_update_fn(7);
    entity.set_tag("hp", TagValue::Int(1));
    entity.set_tag("mp", TagValue::Int(2));
    entity.set_tag("hp", TagValue::Int(3));
    assert_eq!(int_tag(&entity, "hp"), Some(3));
    assert_eq!(int_tag(&entity, "mp"), Some(2));
    assert_eq!(entity.update_function, Some(7));
    assert_eq!(entity.tags.entries().len(), 2);
}

#[test]
fn clone_of_entity_is_independent() {
    let mut entity: Entity<u8> = Entity::new().with_name_tag("one").with_start_fn(3);
    let copy = entity.clone();
    entity.set_tag("name", TagValue::String("two".to_string()));
    assert_eq!(copy.get_name(), "one");
    assert_eq!(copy.start_function, Some(3));
    assert_eq!(entity.get_name(), "two");
}
