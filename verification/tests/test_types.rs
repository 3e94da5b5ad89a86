//! Unit tests for the change event type, the error values and the handler
//! trait.

use rs_debezium_engine::{ChangeEvent, ChangeHandler, DebeziumError};
use std::sync::Mutex;

/// Thread-safe test handler that captures batch calls and error messages.
struct RecordingHandler {
    batches: Mutex<Vec<Vec<ChangeEvent>>>,
    errors: Mutex<Vec<String>>,
}

impl RecordingHandler {
    fn new() -> Self {
        Self {
            batches: Mutex::new(Vec::new()),
            errors: Mutex::new(Vec::new()),
        }
    }

    fn all_records(&self) -> Vec<ChangeEvent> {
        self.batches
            .lock()
            .unwrap()
            .iter()
            .flatten()
            .cloned()
            .collect()
    }

    fn batch_count(&self) -> usize {
        self.batches.lock().unwrap().len()
    }

    fn error_count(&self) -> usize {
        self.errors.lock().unwrap().len()
    }

    fn last_error(&self) -> Option<String> {
        self.errors.lock().unwrap().last().cloned()
    }
}

impl ChangeHandler for RecordingHandler {
    fn handle_batch(&self, records: &[ChangeEvent]) {
        self.batches.lock().unwrap().push(records.to_vec());
    }

    fn on_error(&self, error: &str) {
        self.errors.lock().unwrap().push(error.to_string());
    }
}

/// Minimal handler that relies on the default `on_error` implementation.
struct DefaultErrorHandler {
    batches: Mutex<Vec<Vec<ChangeEvent>>>,
}

impl DefaultErrorHandler {
    fn new() -> Self {
        Self {
            batches: Mutex::new(Vec::new()),
        }
    }
}

impl ChangeHandler for DefaultErrorHandler {
    fn handle_batch(&self, records: &[ChangeEvent]) {
        self.batches.lock().unwrap().push(records.to_vec());
    }
}

#[test]
fn change_event_creation_with_all_fields() {
    let event = ChangeEvent {
        key: Some(r#"{"id":1}"#.to_string()),
        value: Some(r#"{"after":{"id":1,"name":"Alice"}}"#.to_string()),
        destination: Some("mydb.public.users".to_string()),
    };

    assert_eq!(event.key.as_deref(), Some(r#"{"id":1}"#));
    assert_eq!(
        event.value.as_deref(),
        Some(r#"{"after":{"id":1,"name":"Alice"}}"#)
    );
    assert_eq!(event.destination.as_deref(), Some("mydb.public.users"));
}

#[test]
fn change_event_tombstone_all_none() {
    // A Debezium tombstone event has all fields set to None.
    let tombstone = ChangeEvent {
        key: None,
        value: None,
        destination: None,
    };

    assert!(tombstone.key.is_none());
    assert!(tombstone.value.is_none());
    assert!(tombstone.destination.is_none());

    // Parsing the value gives None (no value string to parse).
    assert!(tombstone
        .parse_value(|v| serde_json::from_str::<serde_json::Value>(v))
        .is_none());
}

#[test]
fn change_event_tombstone_key_only() {
    // Tombstones sometimes carry a key but no value.
    let tombstone = ChangeEvent {
        key: Some(r#"{"id":42}"#.to_string()),
        value: None,
        destination: Some("mydb.public.orders".to_string()),
    };

    assert!(tombstone.key.is_some());
    assert!(tombstone.value.is_none());
    assert!(tombstone
        .parse_value(|v| serde_json::from_str::<serde_json::Value>(v))
        .is_none());
}

#[test]
fn parse_value_hands_the_value_text_to_the_parser() {
    let event = ChangeEvent {
        key: None,
        value: Some("this is not valid json {{{".to_string()),
        destination: None,
    };
    assert_eq!(event.parse_value(|v| v.len()), Some(26));
    let parsed = event
        .parse_value(|v| serde_json::from_str::<serde_json::Value>(v))
        .expect("a value is parsed");
    assert!(parsed.is_err());
}

#[test]
fn error_display_jvm() {
    let err = DebeziumError::Jvm("out of memory".into());
    let msg = err.message();
    assert!(msg.contains("JVM error"), "got: {}", msg);
    assert!(msg.contains("out of memory"), "got: {}", msg);
}

#[test]
fn error_display_jni() {
    let err = DebeziumError::Jni("null pointer".into());
    let msg = err.message();
    assert!(msg.contains("JNI error"), "got: {}", msg);
    assert!(msg.contains("null pointer"), "got: {}", msg);
}

#[test]
fn error_display_config() {
    let err = DebeziumError::Config("missing database.hostname".into());
    let msg = err.message();
    assert!(msg.contains("Configuration error"), "got: {}", msg);
    assert!(msg.contains("missing database.hostname"), "got: {}", msg);
}

#[test]
fn error_display_not_built() {
    let err = DebeziumError::NotBuilt;
    let msg = err.message();
    assert!(msg.contains("not built"), "got: {}", msg);
    assert!(msg.contains("build()"), "got: {}", msg);
}

#[test]
fn error_display_already_running() {
    let err = DebeziumError::AlreadyRunning;
    let msg = err.message();
    assert!(msg.contains("already running"), "got: {}", msg);
}

#[test]
fn error_display_jvm_already_started() {
    let err = DebeziumError::JvmAlreadyStarted;
    let msg = err.message();
    assert!(msg.contains("JVM already started"), "got: {}", msg);
}

#[test]
fn error_display_java_exception() {
    let err = DebeziumError::JavaException {
        class: "java.lang.NullPointerException".into(),
        message: "Cannot invoke method on null".into(),
    };
    let msg = err.message();

    assert!(msg.contains("Java exception"), "got: {}", msg);
    assert!(
        msg.contains("java.lang.NullPointerException"),
        "got: {}",
        msg
    );
    assert!(msg.contains("Cannot invoke method on null"), "got: {}", msg);
    assert!(
        msg.contains("NullPointerException: Cannot invoke method"),
        "expected class: message format, got: {}",
        msg
    );
}

#[test]
fn error_display_io() {
    let io_err = std::io::Error::new(std::io::ErrorKind::NotFound, "file missing");
    let err = DebeziumError::Io(io_err);
    let msg = err.message();
    assert!(msg.contains("IO error"), "got: {}", msg);
    assert!(msg.contains("file missing"), "got: {}", msg);
}

#[test]
fn error_display_jars_not_found_includes_path() {
    let err = DebeziumError::JarsNotFound {
        path: "/opt/debezium/jars".into(),
    };
    let msg = err.message();

    assert!(msg.contains("JARs not found"), "got: {}", msg);
    assert!(
        msg.contains("/opt/debezium/jars"),
        "path should appear in message, got: {}",
        msg
    );
    assert!(
        msg.contains("download-debezium"),
        "should hint at the download script, got: {}",
        msg
    );
}

#[test]
fn error_display_handler() {
    let err = DebeziumError::Handler("callback panicked".into());
    let msg = err.message();
    assert!(msg.contains("Handler error"), "got: {}", msg);
    assert!(msg.contains("callback panicked"), "got: {}", msg);
}

#[test]
fn error_is_send_and_sync() {
    fn assert_send_sync<T: Send + Sync>() {}
    assert_send_sync::<DebeziumError>();
}

#[test]
fn error_debug_format() {
    let err = DebeziumError::AlreadyRunning;
    let dbg = format!("{:?}", err);
    assert_eq!(dbg, "AlreadyRunning");
}

#[test]
fn error_java_exception_debug_includes_fields() {
    let err = DebeziumError::JavaException {
        class: "java.io.IOException".into(),
        message: "Connection refused".into(),
    };
    let dbg = format!("{:?}", err);
    assert!(dbg.contains("JavaException"), "got: {}", dbg);
    assert!(dbg.contains("java.io.IOException"), "got: {}", dbg);
    assert!(dbg.contains("Connection refused"), "got: {}", dbg);
}

#[test]
fn error_io_from_conversion() {
    let io_err: std::io::Error =
        std::io::Error::new(std::io::ErrorKind::PermissionDenied, "denied");
    let err: DebeziumError = io_err.into();
    assert!(matches!(err, DebeziumError::Io(_)));
    assert!(err.message().contains("denied"));
}

#[test]
fn handler_receives_correct_batch() {
    let handler = RecordingHandler::new();

    let records = vec![
        ChangeEvent {
            key: Some(r#"{"id":1}"#.into()),
            value: Some(r#"{"after":{"id":1}}"#.into()),
            destination: Some("db.public.t1".into()),
        },
        ChangeEvent {
            key: Some(r#"{"id":2}"#.into()),
            value: Some(r#"{"after":{"id":2}}"#.into()),
            destination: Some("db.public.t1".into()),
        },
    ];

    handler.handle_batch(&records);

    assert_eq!(handler.batch_count(), 1);
    let all = handler.all_records();
    assert_eq!(all.len(), 2);
    assert_eq!(all[0].key, Some(r#"{"id":1}"#.into()));
    assert_eq!(all[1].key, Some(r#"{"id":2}"#.into()));
}

#[test]
fn handler_multiple_batches_recorded() {
    let handler = RecordingHandler::new();

    let batch1 = vec![ChangeEvent {
        key: Some("k1".into()),
        value: Some("v1".into()),
        destination: Some("dest1".into()),
    }];

    let batch2 = vec![
        ChangeEvent {
            key: Some("k2".into()),
            value: Some("v2".into()),
            destination: Some("dest2".into()),
        },
        ChangeEvent {
            key: Some("k3".into()),
            value: Some("v3".into()),
            destination: Some("dest3".into()),
        },
    ];

    handler.handle_batch(&batch1);
    handler.handle_batch(&batch2);

    assert_eq!(handler.batch_count(), 2);
    assert_eq!(handler.all_records().len(), 3);
}

#[test]
fn handler_empty_batch() {
    let handler = RecordingHandler::new();

    handler.handle_batch(&[]);

    assert_eq!(handler.batch_count(), 1);
    assert_eq!(handler.all_records().len(), 0);
}

#[test]
fn handler_on_error_records_message() {
    let handler = RecordingHandler::new();

    handler.on_error("something went wrong");
    handler.on_error("another failure");

    assert_eq!(handler.error_count(), 2);
    assert_eq!(handler.last_error(), Some("another failure".to_string()));
}

#[test]
fn handler_is_send_and_sync() {
    fn assert_handler<T: ChangeHandler>() {}

    assert_handler::<RecordingHandler>();
    assert_handler::<DefaultErrorHandler>();
}

#[test]
fn handler_on_error_default_implementation_is_callable() {
    let handler = DefaultErrorHandler::new();
    handler.on_error("test default error handler");
}
