//! Tests of the handler registry and of batch assembly.

use rs_debezium_engine::handler::ChangeHandler;
use rs_debezium_engine::registry::{assemble_batch, error_text_or_unknown, HandlerRegistry};
use rs_debezium_engine::types::ChangeEvent;
use std::sync::{Arc, Mutex};

#[derive(Default)]
struct Log {
    batches: Vec<Vec<ChangeEvent>>,
    errors: Vec<String>,
}

struct SharedHandler {
    log: Arc<Mutex<Log>>,
}

impl ChangeHandler for SharedHandler {
    fn handle_batch(&self, records: &[ChangeEvent]) {
        self.log.lock().unwrap().batches.push(records.to_vec());
    }

    fn on_error(&self, error: &str) {
        self.log.lock().unwrap().errors.push(error.to_string());
    }
}

fn some(s: &str) -> Option<String> {
    Some(s.to_string())
}

#[test]
fn assemble_batch_pairs_by_position() {
    let keys = vec![some("k1"), None];
    let values = vec![some("v1"), some("v2")];
    let destinations = vec![some("d1"), some("d2")];
    let records = assemble_batch(&keys, &values, &destinations);
    assert_eq!(records.len(), 2);
    assert_eq!(records[0].key, some("k1"));
    assert_eq!(records[0].value, some("v1"));
    assert_eq!(records[0].destination, some("d1"));
    assert_eq!(records[1].key, None);
    assert_eq!(records[1].value, some("v2"));
    assert_eq!(records[1].destination, some("d2"));
}

#[test]
fn assemble_batch_stops_at_shortest() {
    let keys = vec![some("k1"), some("k2"), some("k3")];
    let values = vec![some("v1")];
    let destinations = vec![some("d1"), some("d2")];
    let records = assemble_batch(&keys, &values, &destinations);
    assert_eq!(records.len(), 1);
    assert!(assemble_batch(&vec![], &values, &destinations).is_empty());
}

#[test]
fn error_text_defaults_to_unknown() {
    assert_eq!(error_text_or_unknown(None), "Unknown error");
    assert_eq!(error_text_or_unknown(some("boom")), "boom");
}

#[test]
fn registry_register_get_unregister() {
    let log = Arc::new(Mutex::new(Log::default()));
    let mut registry: HandlerRegistry<Box<dyn ChangeHandler>> = HandlerRegistry::new();
    assert!(registry.has_free_id());
    let first = registry.register(Box::new(SharedHandler { log: log.clone() })).unwrap();
    let second = registry.register(Box::new(SharedHandler { log: log.clone() })).unwrap();
    assert!(first >= 1);
    assert_ne!(first, second);
    assert!(registry.contains(first));
    assert!(registry.get(second).is_some());
    assert!(registry.unregister(first).is_some());
    assert!(!registry.contains(first));
    assert!(registry.get(first).is_none());
    assert!(registry.contains(second));
    assert!(registry.unregister(first).is_none());
}

#[test]
fn registry_ids_are_not_reused() {
    let mut registry: HandlerRegistry<u8> = HandlerRegistry::new();
    let a = registry.register(1).unwrap();
    registry.unregister(a);
    let b = registry.register(2).unwrap();
    assert_ne!(a, b);
    assert_eq!(registry.get(b), Some(&2));
}

#[test]
fn registry_dispatch_batch_reaches_handler() {
    let log = Arc::new(Mutex::new(Log::default()));
    let mut registry: HandlerRegistry<Box<dyn ChangeHandler>> = HandlerRegistry::new();
    let id = registry.register(Box::new(SharedHandler { log: log.clone() })).unwrap();
    let delivered = registry.dispatch_batch(
        id,
        &vec![some(r#"{"id":1}"#), some(r#"{"id":2}"#)],
        &vec![some(r#"{"after":{"id":1}}"#), None],
        &vec![some("db.public.t1"), some("db.public.t1")],
    );
    assert!(delivered);
    let log = log.lock().unwrap();
    assert_eq!(log.batches.len(), 1);
    assert_eq!(log.batches[0].len(), 2);
    assert_eq!(log.batches[0][1].key, some(r#"{"id":2}"#));
    assert_eq!(log.batches[0][1].value, None);
}

#[test]
fn registry_dispatch_to_unknown_id_calls_nobody() {
    let log = Arc::new(Mutex::new(Log::default()));
    let mut registry: HandlerRegistry<Box<dyn ChangeHandler>> = HandlerRegistry::new();
    let id = registry.register(Box::new(SharedHandler { log: log.clone() })).unwrap();
    assert!(!registry.dispatch_batch(id + 1, &vec![], &vec![], &vec![]));
    assert!(!registry.dispatch_error(id + 1, some("lost")));
    assert!(log.lock().unwrap().batches.is_empty());
    assert!(log.lock().unwrap().errors.is_empty());
}

#[test]
fn registry_dispatch_error_uses_unknown_text() {
    let log = Arc::new(Mutex::new(Log::default()));
    let mut registry: HandlerRegistry<Box<dyn ChangeHandler>> = HandlerRegistry::new();
    let id = registry.register(Box::new(SharedHandler { log: log.clone() })).unwrap();
    assert!(registry.dispatch_error(id, None));
    assert!(registry.dispatch_error(id, some("connector failed")));
    let log = log.lock().unwrap();
    assert_eq!(log.errors, vec!["Unknown error".to_string(), "connector failed".to_string()]);
}

#[test]
fn registry_prepare_batch_and_error() {
    let mut registry: HandlerRegistry<u8> = HandlerRegistry::new();
    let id = registry.register(9).unwrap();
    let (handler, records) = registry
        .prepare_batch(id, &vec![some("k")], &vec![some("v")], &vec![None])
        .expect("registered");
    assert_eq!(*handler, 9);
    assert_eq!(records.len(), 1);
    assert_eq!(records[0].key, some("k"));
    assert_eq!(records[0].destination, None);
    let (handler, text) = registry.prepare_error(id, None).expect("registered");
    assert_eq!(*handler, 9);
    assert_eq!(text, "Unknown error");
    assert!(registry.prepare_batch(id + 1, &vec![], &vec![], &vec![]).is_none());
    assert!(registry.prepare_error(id + 1, some("x")).is_none());
}

#[test]
fn registry_unregister_absent_id_changes_nothing() {
    let mut registry: HandlerRegistry<u8> = HandlerRegistry::new();
    let id = registry.register(4).unwrap();
    assert!(registry.unregister(id + 1).is_none());
    assert_eq!(registry.get(id), Some(&4));
}
