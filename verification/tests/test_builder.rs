//! Tests of the engine builder and the property map.

use rs_debezium_engine::engine::DebeziumEngineBuilder;
use rs_debezium_engine::error::DebeziumError;
use rs_debezium_engine::handler::ChangeHandler;
use rs_debezium_engine::types::{ChangeEvent, EngineProperties};
use std::path::PathBuf;

struct NoopHandler;

impl ChangeHandler for NoopHandler {
    fn handle_batch(&self, _records: &[ChangeEvent]) {}
}

fn config_message(err: DebeziumError) -> String {
    match err {
        DebeziumError::Config(m) => m,
        other => panic!("expected a configuration error, got {:?}", other),
    }
}

#[test]
fn properties_insert_and_get() {
    let mut props = EngineProperties::new();
    assert!(props.is_empty());
    assert_eq!(props.insert("name".to_string(), "engine".to_string()), None);
    assert_eq!(props.insert("topic.prefix".to_string(), "db".to_string()), None);
    assert_eq!(props.len(), 2);
    assert_eq!(props.get("name").map(|s| s.as_str()), Some("engine"));
    assert_eq!(props.get("topic.prefix").map(|s| s.as_str()), Some("db"));
    assert_eq!(props.get("missing"), None);
    assert!(props.contains_key("name"));
    assert!(!props.contains_key("Name"));
}

#[test]
fn properties_insert_overrides_same_key() {
    let mut props = EngineProperties::new();
    props.insert("snapshot.mode".to_string(), "initial".to_string());
    let previous = props.insert("snapshot.mode".to_string(), "never".to_string());
    assert_eq!(previous.as_deref(), Some("initial"));
    assert_eq!(props.len(), 1);
    assert_eq!(props.get("snapshot.mode").map(|s| s.as_str()), Some("never"));
    assert_eq!(props.entries().len(), 1);
}

#[test]
fn properties_entries_hold_each_key_once() {
    let mut props = EngineProperties::new();
    props.insert("a".to_string(), "1".to_string());
    props.insert("b".to_string(), "2".to_string());
    props.insert("a".to_string(), "3".to_string());
    let mut entries: Vec<(String, String)> = props.entries().clone();
    entries.sort();
    assert_eq!(
        entries,
        vec![
            ("a".to_string(), "3".to_string()),
            ("b".to_string(), "2".to_string())
        ]
    );
}

#[test]
fn builder_without_properties_is_refused() {
    let result = DebeziumEngineBuilder::new().handler(NoopHandler).into_parts();
    let err = result.err().expect("a builder without properties is refused");
    assert_eq!(
        config_message(err),
        "Debezium properties are required. Call .properties() on the builder."
    );
}

#[test]
fn builder_without_handler_is_refused() {
    let result = DebeziumEngineBuilder::new()
        .properties(EngineProperties::new())
        .into_parts();
    let err = result.err().expect("a builder without a handler is refused");
    assert_eq!(
        config_message(err),
        "Change handler is required. Call .handler() on the builder."
    );
}

#[test]
fn builder_checks_properties_before_handler() {
    let err = DebeziumEngineBuilder::new()
        .into_parts()
        .err()
        .expect("an empty builder is refused");
    assert_eq!(
        config_message(err),
        "Debezium properties are required. Call .properties() on the builder."
    );
}

#[test]
fn builder_hands_out_what_it_holds() {
    let mut props = EngineProperties::new();
    props.insert("name".to_string(), "my-engine".to_string());
    let parts = DebeziumEngineBuilder::new()
        .properties(props)
        .property("topic.prefix", "testdb")
        .jar_dir("/opt/jars")
        .handler(NoopHandler)
        .into_parts()
        .ok()
        .expect("a complete builder is accepted");
    assert_eq!(parts.properties.len(), 2);
    assert_eq!(
        parts.properties.get("name").map(|s| s.as_str()),
        Some("my-engine")
    );
    assert_eq!(
        parts.properties.get("topic.prefix").map(|s| s.as_str()),
        Some("testdb")
    );
    assert_eq!(parts.jar_dir, Some(PathBuf::from("/opt/jars")));
}

#[test]
fn builder_property_starts_from_no_properties() {
    let parts = DebeziumEngineBuilder::new()
        .property("name", "engine")
        .handler_box(Box::new(NoopHandler))
        .into_parts()
        .ok()
        .expect("a single property is enough");
    assert_eq!(parts.properties.len(), 1);
    assert_eq!(parts.jar_dir, None);
}

#[test]
fn builder_property_last_write_wins() {
    let parts = DebeziumEngineBuilder::new()
        .property("snapshot.mode", "initial")
        .property(String::from("snapshot.mode"), String::from("never"))
        .handler(NoopHandler)
        .into_parts()
        .ok()
        .expect("complete");
    assert_eq!(parts.properties.len(), 1);
    assert_eq!(
        parts.properties.get("snapshot.mode").map(|s| s.as_str()),
        Some("never")
    );
}

#[test]
fn builder_properties_replace_earlier_ones() {
    let mut replacement = EngineProperties::new();
    replacement.insert("b".to_string(), "2".to_string());
    let parts = DebeziumEngineBuilder::new()
        .property("a", "1")
        .properties(replacement)
        .handler(NoopHandler)
        .into_parts()
        .ok()
        .expect("complete");
    assert_eq!(parts.properties.len(), 1);
    assert!(parts.properties.get("a").is_none());
    assert_eq!(parts.properties.get("b").map(|s| s.as_str()), Some("2"));
}

struct Tagged(u8);

impl ChangeHandler for Tagged {
    fn handle_batch(&self, _records: &[ChangeEvent]) {}
}

#[test]
fn builder_handler_replaces_earlier_handler() {
    let parts = DebeziumEngineBuilder::new()
        .handler(Tagged(1))
        .property("name", "engine")
        .handler(Tagged(2))
        .into_parts()
        .ok()
        .expect("complete");
    assert_eq!(parts.handler.0, 2);
}

#[test]
fn builder_keeps_handler_across_other_setters() {
    let parts = DebeziumEngineBuilder::new()
        .handler(Tagged(7))
        .properties(EngineProperties::new())
        .put_property("a".to_string(), "1".to_string())
        .put_jar_dir(PathBuf::from("/jars"))
        .into_parts()
        .ok()
        .expect("complete");
    assert_eq!(parts.handler.0, 7);
    assert_eq!(parts.jar_dir, Some(PathBuf::from("/jars")));
    assert_eq!(parts.properties.get("a").map(|s| s.as_str()), Some("1"));
}

#[test]
fn properties_from_pairs_later_wins() {
    let props = EngineProperties::from_pairs(vec![
        ("a".to_string(), "1".to_string()),
        ("b".to_string(), "2".to_string()),
        ("a".to_string(), "3".to_string()),
    ]);
    assert_eq!(props.len(), 2);
    assert_eq!(props.get("a").map(|s| s.as_str()), Some("3"));
    assert_eq!(props.get("b").map(|s| s.as_str()), Some("2"));
}

#[test]
fn builder_property_extends_properties_last_value_wins() {
    let mut props = EngineProperties::new();
    props.insert("name".to_string(), "e".to_string());
    let parts = DebeziumEngineBuilder::new()
        .properties(props)
        .property("a", "1")
        .property("a", "2")
        .handler(NoopHandler)
        .into_parts()
        .ok()
        .expect("complete");
    let mut entries = parts.properties.entries().clone();
    entries.sort();
    assert_eq!(
        entries,
        vec![
            ("a".to_string(), "2".to_string()),
            ("name".to_string(), "e".to_string())
        ]
    );
}
