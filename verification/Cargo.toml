[package]
name = "rs-debezium-engine"
version = "0.1.0"
edition = "2021"
publish = false

[dependencies]
jni = { version = "0.21", features = ["invocation"] }
log = "0.4"
once_cell = "1"
serde = { version = "1", features = ["derive"] }
serde_json = "1"
thiserror = "1"
pyo3 = { version = "0.22", features = ["extension-module"] }
