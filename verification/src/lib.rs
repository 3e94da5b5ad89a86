//! Embedded Debezium CDC engine: the verified core.
//!
//! The library holds what the engine decides: its configuration builder and
//! property map, its error values and their messages, the registry that maps
//! handler ids to change handlers, the assembly of change-event batches, and
//! the classpath and JVM-option computations. Talking to the JVM, the file
//! system and the environment is left to the application layer, which hands
//! the library plain values.

pub mod engine;
pub mod error;
pub mod handler;
pub mod jvm;
pub mod laws;
pub mod registry;
pub mod types;

pub use engine::DebeziumEngineBuilder;
pub use error::DebeziumError;
pub use handler::ChangeHandler;
pub use types::{ChangeEvent, EngineProperties};
