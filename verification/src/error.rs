//! Errors of the engine and the text that describes each of them.

use vstd::prelude::*;
use vstd::string::*;

verus! {

/// Declares `std::io::Error` to Verus as an opaque type: an I/O error is
/// carried inside `DebeziumError::Io` and nothing is claimed of its contents.
#[verifier::external_type_specification]
#[verifier::external_body]
pub struct ExIoError(std::io::Error);

/// Errors that can occur in the Debezium engine.
#[derive(Debug)]
pub enum DebeziumError {
    /// The JVM could not be started or reached.
    Jvm(String),
    /// A JNI call failed.
    Jni(String),
    /// The engine's configuration is incomplete or wrong.
    Config(String),
    /// The engine was run before it was built.
    NotBuilt,
    /// The engine is already running.
    AlreadyRunning,
    /// Another library started the JVM.
    JvmAlreadyStarted,
    /// A Java exception, with its class name and message.
    JavaException { class: String, message: String },
    /// An I/O error.
    Io(std::io::Error),
    /// No Debezium JAR was found at the given place.
    JarsNotFound { path: String },
    /// A change handler failed.
    Handler(String),
}

/// The text that describes an error; for `Io`, only the text that comes
/// before the description that the `std::io::Error` gives of itself.
pub open spec fn error_text(e: DebeziumError) -> Seq<char> {
    match e {
        DebeziumError::Jvm(s) => "JVM error: "@ + s@,
        DebeziumError::Jni(s) => "JNI error: "@ + s@,
        DebeziumError::Config(s) => "Configuration error: "@ + s@,
        DebeziumError::NotBuilt => "Engine not built — call build() before run()"@,
        DebeziumError::AlreadyRunning => "Engine already running"@,
        DebeziumError::JvmAlreadyStarted => "JVM already started by another library"@,
        DebeziumError::JavaException { class, message } =>
            "Java exception: "@ + class@ + ": "@ + message@,
        DebeziumError::Io(_) => "IO error: "@,
        DebeziumError::JarsNotFound { path } =>
            "Debezium JARs not found at "@ + path@
                + " — run scripts/download-debezium.sh first"@,
        DebeziumError::Handler(s) => "Handler error: "@ + s@,
    }
}

/// The class name a Java exception error carries: the one read from the
/// JVM, or "Unknown" where it could not be read.
pub open spec fn class_or_unknown(class: Option<String>) -> Seq<char> {
    match class {
        Some(c) => c@,
        None => "Unknown"@,
    }
}

/// The message a Java exception error carries: the one read from the JVM,
/// or the empty text where it could not be read.
pub open spec fn message_or_empty(message: Option<String>) -> Seq<char> {
    match message {
        Some(m) => m@,
        None => Seq::empty(),
    }
}

fn text_or(value: Option<String>, default: &str) -> (text: String)
    ensures
        text@ == (match value {
            Some(v) => v@,
            None => default@,
        }),
{
    match value {
        Some(v) => v,
        None => default.to_string(),
    }
}


/// A step of the JVM bridge that can fail with a description of the cause.
#[derive(Debug, Clone, Copy, PartialEq, Eq, Structural)]
pub enum BridgeStep {
    /// Attaching the current thread to the JVM.
    AttachThread,
    /// Creating a global reference to a Java object.
    CreateGlobalRef,
    /// Running the Java engine.
    EngineRun,
    /// Looking up the JSON format class.
    FindJsonClass,
    /// Calling `DebeziumEngine.create`.
    EngineCreate,
    /// Reading an object out of a Java call's result.
    ExpectObject,
    /// Calling the engine builder's `using`.
    Using,
    /// Calling the engine builder's `notifying`.
    Notifying,
    /// Calling the engine builder's `build`.
    Build,
    /// Creating a `java.util.Properties`.
    CreateProperties,
    /// Creating a Java string.
    CreateJavaString,
    /// Calling `Properties.setProperty`.
    SetProperty,
    /// Creating the Java change consumer.
    CreateConsumer,
    /// Registering the native callbacks.
    RegisterNatives,
    /// Building the JVM's start-up arguments.
    JvmArgs,
    /// Starting the JVM.
    JvmStart,
    /// Launching the Java compiler.
    JavacLaunch,
    /// The Java compiler's run, when it reports failure.
    JavacExit,
}

/// The kinds of error that a bridge step's failure is reported as.
pub enum ErrorKind {
    Jvm,
    Jni,
    Config,
}

/// The kind of error a failed bridge step gives.
pub open spec fn step_kind(step: BridgeStep) -> ErrorKind {
    match step {
        BridgeStep::JvmArgs | BridgeStep::JvmStart => ErrorKind::Jvm,
        BridgeStep::JavacLaunch | BridgeStep::JavacExit => ErrorKind::Config,
        _ => ErrorKind::Jni,
    }
}

/// The text before the cause in the message of a failed bridge step.
pub open spec fn step_prefix(step: BridgeStep) -> Seq<char> {
    match step {
        BridgeStep::AttachThread => "Failed to attach thread: "@,
        BridgeStep::CreateGlobalRef => "Failed to create global ref: "@,
        BridgeStep::EngineRun => "engine.run() failed: "@,
        BridgeStep::FindJsonClass => "Cannot find Json format class: "@,
        BridgeStep::EngineCreate => "DebeziumEngine.create() failed: "@,
        BridgeStep::ExpectObject => "Expected object return: "@,
        BridgeStep::Using => ".using() failed: "@,
        BridgeStep::Notifying => ".notifying() failed: "@,
        BridgeStep::Build => ".build() failed: "@,
        BridgeStep::CreateProperties => "Failed to create Properties: "@,
        BridgeStep::CreateJavaString => "Failed to create Java string: "@,
        BridgeStep::SetProperty => "setProperty failed: "@,
        BridgeStep::CreateConsumer => "Failed to create RsChangeConsumer: "@,
        BridgeStep::RegisterNatives => "RegisterNatives failed: "@,
        BridgeStep::JvmArgs => "Failed to build JVM args: "@,
        BridgeStep::JvmStart => "Failed to start JVM: "@,
        BridgeStep::JavacLaunch => "Failed to run javac: "@,
        BridgeStep::JavacExit => "javac failed: "@,
    }
}

/// The text after the cause in the message of a failed bridge step.
pub open spec fn step_suffix(step: BridgeStep) -> Seq<char> {
    match step {
        BridgeStep::FindJsonClass => ". Are Debezium JARs in classpath?"@,
        BridgeStep::JvmStart => ". Ensure JAVA_HOME is set and JDK 11+ is installed."@,
        BridgeStep::JavacLaunch => ". Is JDK installed?"@,
        _ => Seq::empty(),
    }
}

/// The error of a failed bridge step with the given cause: its kind, with
/// the step's prefix, the cause and the step's suffix as message.
pub open spec fn is_step_error(err: DebeziumError, step: BridgeStep, cause: Seq<char>) -> bool {
    let text = step_prefix(step) + cause + step_suffix(step);
    match step_kind(step) {
        ErrorKind::Jvm => err matches DebeziumError::Jvm(m) && m@ == text,
        ErrorKind::Jni => err matches DebeziumError::Jni(m) && m@ == text,
        ErrorKind::Config => err matches DebeziumError::Config(m) && m@ == text,
    }
}

fn step_affixes(step: BridgeStep) -> (affixes: (&'static str, &'static str))
    ensures
        affixes.0@ == step_prefix(step),
        affixes.1@ == step_suffix(step),
{
    proof {
        reveal_strlit("");
    }
    match step {
        BridgeStep::AttachThread => ("Failed to attach thread: ", ""),
        BridgeStep::CreateGlobalRef => ("Failed to create global ref: ", ""),
        BridgeStep::EngineRun => ("engine.run() failed: ", ""),
        BridgeStep::FindJsonClass => ("Cannot find Json format class: ",
            ". Are Debezium JARs in classpath?"),
        BridgeStep::EngineCreate => ("DebeziumEngine.create() failed: ", ""),
        BridgeStep::ExpectObject => ("Expected object return: ", ""),
        BridgeStep::Using => (".using() failed: ", ""),
        BridgeStep::Notifying => (".notifying() failed: ", ""),
        BridgeStep::Build => (".build() failed: ", ""),
        BridgeStep::CreateProperties => ("Failed to create Properties: ", ""),
        BridgeStep::CreateJavaString => ("Failed to create Java string: ", ""),
        BridgeStep::SetProperty => ("setProperty failed: ", ""),
        BridgeStep::CreateConsumer => ("Failed to create RsChangeConsumer: ", ""),
        BridgeStep::RegisterNatives => ("RegisterNatives failed: ", ""),
        BridgeStep::JvmArgs => ("Failed to build JVM args: ", ""),
        BridgeStep::JvmStart => ("Failed to start JVM: ",
            ". Ensure JAVA_HOME is set and JDK 11+ is installed."),
        BridgeStep::JavacLaunch => ("Failed to run javac: ", ". Is JDK installed?"),
        BridgeStep::JavacExit => ("javac failed: ", ""),
    }
}

impl DebeziumError {
    /// The human-readable description of the error (its display text).
    pub fn message(&self) -> (text: String)
        ensures
            match self {
                DebeziumError::Io(e) => exists|d: String|
                    #[trigger] to_string_from_display_ensures::<std::io::Error>(e, d)
                        && text@ == "IO error: "@ + d@,
                _ => text@ == error_text(*self),
            },
    {
        match self {
            DebeziumError::Jvm(s) => "JVM error: ".to_string().concat(s.as_str()),
            DebeziumError::Jni(s) => "JNI error: ".to_string().concat(s.as_str()),
            DebeziumError::Config(s) => "Configuration error: ".to_string().concat(s.as_str()),
            DebeziumError::NotBuilt => "Engine not built — call build() before run()".to_string(),
            DebeziumError::AlreadyRunning => "Engine already running".to_string(),
            DebeziumError::JvmAlreadyStarted => "JVM already started by another library".to_string(),
            DebeziumError::JavaException { class, message } => {
                let text = "Java exception: ".to_string().concat(class.as_str());
                let text = text.concat(": ");
                text.concat(message.as_str())
            },
            DebeziumError::Io(e) => {
                let d = e.to_string();
                "IO error: ".to_string().concat(d.as_str())
            },
            DebeziumError::JarsNotFound { path } => {
                let text = "Debezium JARs not found at ".to_string().concat(path.as_str());
                text.concat(" — run scripts/download-debezium.sh first")
            },
            DebeziumError::Handler(s) => "Handler error: ".to_string().concat(s.as_str()),
        }
    }

    /// The error for a failed bridge step, with the cause's description.
    pub fn bridge_failure(step: BridgeStep, cause: &str) -> (err: DebeziumError)
        ensures
            is_step_error(err, step, cause@),
    {
        let (prefix, suffix) = step_affixes(step);
        let text = prefix.to_string().concat(cause).concat(suffix);
        match step {
            BridgeStep::JvmArgs | BridgeStep::JvmStart => DebeziumError::Jvm(text),
            BridgeStep::JavacLaunch | BridgeStep::JavacExit => DebeziumError::Config(text),
            _ => DebeziumError::Jni(text),
        }
    }

    /// The error for asking for the JVM before it was started.
    pub fn jvm_not_initialized() -> (err: DebeziumError)
        ensures
            err matches DebeziumError::Jvm(m) && m@ == "JVM not initialized — call init_jvm() first"@,
    {
        DebeziumError::Jvm("JVM not initialized — call init_jvm() first".to_string())
    }

    /// The error for a Java bridge class that is neither compiled nor
    /// compilable.
    pub fn bridge_class_missing() -> (err: DebeziumError)
        ensures
            err matches DebeziumError::Config(m) && m@
                == "Java bridge class not found. Run build.rs or compile manually."@,
    {
        DebeziumError::Config("Java bridge class not found. Run build.rs or compile manually.".to_string())
    }

    /// The error that describes a failed JNI call: a Java exception with the
    /// class name and message read from the JVM when an exception is pending,
    /// and an unknown JNI error otherwise.
    ///
    /// `pending` tells whether the JVM reported a pending exception and handed
    /// it out; `class` and `message` are what could be read of it (`None`
    /// where a read failed or the value was null).
    pub fn from_exception_parts(pending: bool, class: Option<String>, message: Option<String>) -> (err:
        DebeziumError)
        ensures
            pending ==> (err matches DebeziumError::JavaException { class: c, message: m }
                && c@ == class_or_unknown(class) && m@ == message_or_empty(message)),
            !pending ==> (err matches DebeziumError::Jni(s) && s@ == "Unknown JNI error"@),
    {
        if pending {
            let class = text_or(class, "Unknown");
            let message = text_or(message, "");
            proof {
                reveal_strlit("");
            }
            DebeziumError::JavaException { class, message }
        } else {
            DebeziumError::Jni("Unknown JNI error".to_string())
        }
    }
}

impl From<std::io::Error> for DebeziumError {
    fn from(e: std::io::Error) -> (err: DebeziumError) {
        DebeziumError::Io(e)
    }
}

impl vstd::std_specs::convert::FromSpecImpl<std::io::Error> for DebeziumError {
    open spec fn obeys_from_spec() -> bool {
        true
    }

    open spec fn from_spec(e: std::io::Error) -> DebeziumError {
        DebeziumError::Io(e)
    }
}

} // verus!
