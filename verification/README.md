# rs-debezium-engine

An embedded Debezium change data capture engine for Rust: the Java
Debezium engine runs inside a JVM started through JNI, and batches of change
events come back to a Rust `ChangeHandler`.

## Layout

- `src/` is the verified library (Verus):
  - `types.rs`: `ChangeEvent`, and `EngineProperties`, the connector
    properties as a map with one value per key (viewed as a `Map`).
  - `engine.rs`: `DebeziumEngineBuilder<H>`, which collects the properties,
    the JAR directory and the handler (of type `H`, by default a boxed
    `dyn ChangeHandler`), and `into_parts`, which checks that the
    configuration is complete.
  - `handler.rs`: the `ChangeHandler` trait that users implement.
  - `registry.rs`: the registry that maps handler ids (held by the Java
    consumer) to handlers, and the assembly of the batch or error text that
    a handler is to receive.
  - `jvm.rs`: the JAR selection and ordering, the classpath, the choice among
    candidate locations, the javac arguments and the JVM options.
  - `error.rs`: `DebeziumError`, the text of each error, and the errors of
    the JNI bridge's steps.
  - `laws.rs`: properties that relate several operations.
- `app/` is ordinary Rust around the library: starting the JVM and calling
  into it, reading the file system and the environment, the global handler
  registry and the JNI callbacks, the serde form of Debezium events, and the
  Python bindings.
- `tests/` holds the tests.

## Usage

```rust
use rs_debezium_engine::engine::DebeziumEngineBuilder;

let builder = DebeziumEngineBuilder::new()
    .property("name", "my-engine")
    .property("connector.class", "io.debezium.connector.postgresql.PostgresConnector")
    .property("topic.prefix", "testdb")
    .handler(MyHandler);
```

The application layer builds and runs the engine from such a builder
(`Build::build`, then `DebeziumEngine::run`).
