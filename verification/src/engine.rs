//! The builder that collects an engine's configuration and checks it.

use std::path::PathBuf;
use vstd::prelude::*;
use crate::error::DebeziumError;
use crate::handler::ChangeHandler;
use crate::types::EngineProperties;

verus! {

/// Declares `std::path::PathBuf` to Verus as an opaque type: a JAR directory
/// is carried through the builder and nothing is claimed of its contents.
#[verifier::external_type_specification]
#[verifier::external_body]
pub struct ExPathBuf(PathBuf);

/// `String::from(&str)` (the conversion behind `"text".into()`): claimed
/// to give a string with the same characters, as std documents it.
pub assume_specification<'a, 'b>[ <String as From<&'a str>>::from ](s: &'b str) -> (ret: String)
    ensures
        ret@ == s@,
;

/// `String::from(&String)`: claimed to give a string with the same
/// characters (a copy), as std documents it.
pub assume_specification<'a, 'b>[ <String as From<&'a String>>::from ](s: &'b String) -> (ret:
    String)
    ensures
        ret@ == s@,
;

/// The reflexive `From<A> for A` of std (behind `x.into()` into its own
/// type): claimed to return the argument unchanged, as std documents it.
pub assume_specification<A>[ <A as core::convert::From<A>>::from ](t: A) -> (ret: A)
    ensures
        ret == t,
;

/// Builder for the Debezium engine's configuration: the connector
/// properties, the directory of the Debezium JARs, and the change handler.
///
/// The handler's type is a parameter of the builder, so that the builder
/// holds the very handler it was given: `handler` sets a handler of any
/// type, `handler_box` one that is already a boxed trait object, which is
/// also the type of a builder before a handler is set.
pub struct DebeziumEngineBuilder<H = Box<dyn ChangeHandler>> {
    properties: Option<EngineProperties>,
    jar_dir: Option<PathBuf>,
    handler: Option<H>,
}

/// What a complete builder hands on to start an engine: the connector
/// properties, the change handler, and the JAR directory if one was given.
pub struct EngineParts<H> {
    pub properties: EngineProperties,
    pub handler: H,
    pub jar_dir: Option<PathBuf>,
}

/// The message of the error for a builder that holds no properties.
pub open spec fn missing_properties_text() -> Seq<char> {
    "Debezium properties are required. Call .properties() on the builder."@
}

/// The message of the error for a builder that holds no handler.
pub open spec fn missing_handler_text() -> Seq<char> {
    "Change handler is required. Call .handler() on the builder."@
}

/// The properties a builder holds, as a map, if it holds any.
pub open spec fn props_view(p: Option<EngineProperties>) -> Option<Map<Seq<char>, Seq<char>>> {
    match p {
        Some(q) => Some(q@),
        None => None,
    }
}

impl DebeziumEngineBuilder {
    /// A builder with nothing set.
    pub fn new() -> (b: DebeziumEngineBuilder)
        ensures
            b.spec_properties() is None,
            b.spec_jar_dir() is None,
            b.spec_handler() is None,
    {
        DebeziumEngineBuilder { properties: None, jar_dir: None, handler: None }
    }
}

impl<H> DebeziumEngineBuilder<H> {
    /// The connector properties set so far, if any were set.
    pub closed spec fn spec_properties(&self) -> Option<Map<Seq<char>, Seq<char>>> {
        props_view(self.properties)
    }

    /// The JAR directory set so far, if one was set.
    pub closed spec fn spec_jar_dir(&self) -> Option<PathBuf> {
        self.jar_dir
    }

    /// The change handler set so far, if one was set.
    pub closed spec fn spec_handler(&self) -> Option<H> {
        self.handler
    }

    /// Whether a change handler has been set.
    pub open spec fn spec_has_handler(&self) -> bool {
        self.spec_handler() is Some
    }

    /// The properties that a single `property` call extends: those set so
    /// far, or none.
    pub open spec fn property_base(&self) -> Map<Seq<char>, Seq<char>> {
        match self.spec_properties() {
            Some(m) => m,
            None => Map::empty(),
        }
    }

    /// Sets the connector configuration properties, replacing any set before.
    ///
    /// These are the properties a Debezium connector takes. Which are
    /// required depends on the connector, but they typically include `name`,
    /// `connector.class`, `snapshot.mode`, the database connection
    /// properties, and `topic.prefix`.
    pub fn properties(self, props: EngineProperties) -> (b: DebeziumEngineBuilder<H>)
        ensures
            b.spec_properties() == Some(props@),
            b.spec_jar_dir() == self.spec_jar_dir(),
            b.spec_handler() == self.spec_handler(),
    {
        DebeziumEngineBuilder { properties: Some(props), jar_dir: self.jar_dir, handler: self.handler }
    }

    /// Sets one property whose key and value are strings, keeping the
    /// others; starts from no properties if none were set.
    pub fn put_property(self, key: String, value: String) -> (b: DebeziumEngineBuilder<H>)
        ensures
            b.spec_properties() == Some(self.property_base().insert(key@, value@)),
            b.spec_jar_dir() == self.spec_jar_dir(),
            b.spec_handler() == self.spec_handler(),
    {
        let DebeziumEngineBuilder { properties, jar_dir, handler } = self;
        let mut props = match properties {
            Some(p) => p,
            None => EngineProperties::new(),
        };
        props.insert(key, value);
        DebeziumEngineBuilder { properties: Some(props), jar_dir, handler }
    }

    /// Sets a single configuration property, keeping the others; starts from
    /// no properties if none were set. The key and value are converted to
    /// strings by `Into` and set by `put_property`; for `&str`, `&String` and
    /// `String` arguments the converted text is the argument's.
    pub fn property<K: Into<String>, V: Into<String>>(self, key: K, value: V) -> (b:
        DebeziumEngineBuilder<H>)
        ensures
            exists|k: String, v: String|
                {
                    &&& b.spec_properties() == Some(self.property_base().insert(k@, v@))
                    &&& call_ensures(<K as Into<String>>::into, (key,), k)
                    &&& call_ensures(<V as Into<String>>::into, (value,), v)
                },
            b.spec_jar_dir() == self.spec_jar_dir(),
            b.spec_handler() == self.spec_handler(),
    {
        let k: String = key.into();
        let v: String = value.into();
        self.put_property(k, v)
    }

    /// Sets the directory that holds the Debezium JAR files, given as a
    /// path.
    pub fn put_jar_dir(self, path: PathBuf) -> (b: DebeziumEngineBuilder<H>)
        ensures
            b.spec_jar_dir() == Some(path),
            b.spec_properties() == self.spec_properties(),
            b.spec_handler() == self.spec_handler(),
    {
        DebeziumEngineBuilder { properties: self.properties, jar_dir: Some(path), handler: self.handler }
    }

    /// Sets the directory that holds the Debezium JAR files; the argument is
    /// converted to a path and set by `put_jar_dir`.
    ///
    /// Without it, the directory named by `DEBEZIUM_LIBS_DIR` (or
    /// `DEBEZIUM_JARS_DIR`) or `./debezium-libs/` is used.
    pub fn jar_dir<P: Into<PathBuf>>(self, path: P) -> (b: DebeziumEngineBuilder<H>)
        ensures
            exists|p: PathBuf|
                b.spec_jar_dir() == Some(p) && call_ensures(<P as Into<PathBuf>>::into, (path,), p),
            b.spec_properties() == self.spec_properties(),
            b.spec_handler() == self.spec_handler(),
    {
        let dir: PathBuf = path.into();
        self.put_jar_dir(dir)
    }

    /// Sets the change event handler, whose `handle_batch` is called for
    /// each batch of change events; a handler set before is dropped.
    pub fn handler<G: ChangeHandler>(self, handler: G) -> (b: DebeziumEngineBuilder<G>)
        ensures
            b.spec_handler() == Some(handler),
            b.spec_properties() == self.spec_properties(),
            b.spec_jar_dir() == self.spec_jar_dir(),
    {
        DebeziumEngineBuilder { properties: self.properties, jar_dir: self.jar_dir, handler: Some(handler) }
    }

    /// Sets the change event handler from a handler already boxed; a
    /// handler set before is dropped.
    pub fn handler_box(self, handler: Box<dyn ChangeHandler>) -> (b: DebeziumEngineBuilder)
        ensures
            b.spec_handler() == Some(handler),
            b.spec_properties() == self.spec_properties(),
            b.spec_jar_dir() == self.spec_jar_dir(),
    {
        let held = Some(handler);
        DebeziumEngineBuilder { properties: self.properties, jar_dir: self.jar_dir, handler: held }
    }

    /// Checks that the builder is complete and hands out what it holds.
    ///
    /// Properties are checked first, then the handler; each missing one is a
    /// configuration error that says which call was left out.
    pub fn into_parts(self) -> (r: Result<EngineParts<H>, DebeziumError>)
        ensures
            self.spec_properties() is None ==> (r matches Err(DebeziumError::Config(m))
                && m@ == missing_properties_text()),
            self.spec_properties() is Some && !self.spec_has_handler() ==> (r matches Err(
                DebeziumError::Config(m),
            ) && m@ == missing_handler_text()),
            self.spec_properties() is Some && self.spec_has_handler() ==> (r matches Ok(parts)
                && Some(parts.properties@) == self.spec_properties() && parts.jar_dir
                == self.spec_jar_dir() && self.spec_handler() == Some(parts.handler)),
    {
        let properties = match self.properties {
            Some(p) => p,
            None => {
                return Err(
                    DebeziumError::Config(
                        "Debezium properties are required. Call .properties() on the builder.".to_string(),
                    ),
                );
            },
        };
        let handler = match self.handler {
            Some(h) => h,
            None => {
                return Err(
                    DebeziumError::Config(
                        "Change handler is required. Call .handler() on the builder.".to_string(),
                    ),
                );
            },
        };
        Ok(EngineParts { properties, handler, jar_dir: self.jar_dir })
    }
}

} // verus!
