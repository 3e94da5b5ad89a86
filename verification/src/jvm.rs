//! What the JVM bridge decides and computes: which JAR files make up the
//! classpath and in what order, the classpath string, the options the JVM is
//! started with, which of several candidate locations is used, and the
//! arguments the Java bridge class is compiled with.
//!
//! Looking at the file system and the environment is left to the caller,
//! which hands in what it found as plain values.

use vstd::prelude::*;
use vstd::string::*;
use crate::error::DebeziumError;

verus! {

/// Default Debezium version to download.
pub const DEBEZIUM_VERSION: &'static str = "3.4.1.Final";

/// The class file of the Java bridge, relative to a class directory.
pub const BRIDGE_CLASS_FILE: &'static str = "io/rsdebezium/RsChangeConsumer.class";

/// The source file of the Java bridge.
pub const BRIDGE_SOURCE_FILE: &'static str = "java/io/rsdebezium/RsChangeConsumer.java";

/// The directory the Java bridge is compiled into when it is compiled at
/// run time.
pub const BRIDGE_CLASS_DIR: &'static str = "java-classes";

/// The Java compiler under a Java home.
pub const JAVAC_IN_JAVA_HOME: &'static str = "bin/javac";

/// The Java compiler on the search path.
pub const JAVAC_ON_PATH: &'static str = "javac";

/// The directory, relative to the working directory, searched for the
/// Debezium JARs after the ones named by the environment.
pub const LOCAL_LIBS_DIR: &'static str = "debezium-libs";

/// The log4j configuration used when none of the candidates exists.
pub const DEFAULT_LOG4J_CONFIG: &'static str = "log4j2.properties";

// ---------------------------------------------------------------------------
// File name extensions
// ---------------------------------------------------------------------------

/// The index of the last '.' in a name, or -1 when there is none.
pub open spec fn last_dot(name: Seq<char>) -> int
    decreases name.len(),
{
    if name.len() == 0 {
        -1
    } else if name.last() == '.' {
        name.len() - 1
    } else {
        last_dot(name.drop_last())
    }
}

/// The extension of a file name, as `std::path::Path::extension` documents
/// it: none for "..", none when the name has no '.', none when its only '.'
/// is its first character, and otherwise what follows the last '.'.
pub open spec fn file_extension(name: Seq<char>) -> Option<Seq<char>> {
    if name == seq!['.', '.'] {
        None
    } else if last_dot(name) <= 0 {
        None
    } else {
        Some(name.subrange(last_dot(name) + 1, name.len() as int))
    }
}

/// Whether a file name has the extension "jar".
pub open spec fn is_jar_name(name: Seq<char>) -> bool {
    file_extension(name) == Some(seq!['j', 'a', 'r'])
}

pub(crate) proof fn lemma_last_dot_bounds(name: Seq<char>)
    ensures
        -1 <= last_dot(name) < name.len(),
        last_dot(name) >= 0 ==> name[last_dot(name)] == '.',
        forall|j: int| last_dot(name) < j < name.len() ==> name[j] != '.',
    decreases name.len(),
{
    if name.len() > 0 && name.last() != '.' {
        lemma_last_dot_bounds(name.drop_last());
        assert forall|j: int| last_dot(name) < j < name.len() implies name[j] != '.' by {
            if j < name.len() - 1 {
                assert(name.drop_last()[j] == name[j]);
            }
        }
    }
}

/// A '.' after which no other '.' follows is the last one.
pub(crate) proof fn lemma_last_dot_at(name: Seq<char>, k: int)
    requires
        0 <= k < name.len(),
        name[k] == '.',
        forall|j: int| k < j < name.len() ==> name[j] != '.',
    ensures
        last_dot(name) == k,
    decreases name.len(),
{
    if k != name.len() - 1 {
        assert(name[name.len() - 1] != '.');
        let t = name.drop_last();
        assert(t[k] == name[k]);
        assert forall|j: int| k < j < t.len() implies t[j] != '.' by {
            assert(t[j] == name[j]);
        }
        lemma_last_dot_at(t, k);
    }
}

/// Whether a file name has the extension "jar" (case-sensitive).
pub fn has_jar_extension(name: &str) -> (jar: bool)
    ensures
        jar == is_jar_name(name@),
        jar == (name@.len() >= 5 && name@.subrange(name@.len() - 4, name@.len() as int) == seq![
            '.',
            'j',
            'a',
            'r',
        ]),
{
    let n = name.unicode_len();
    let mut last: Option<usize> = None;
    let mut i: usize = 0;
    while i < n
        invariant
            n == name@.len(),
            i <= n,
            match last {
                Some(d) => d < i && d as int == last_dot(name@.take(i as int)),
                None => last_dot(name@.take(i as int)) == -1,
            },
        decreases n - i,
    {
        proof {
            assert(name@.take(i + 1).drop_last() =~= name@.take(i as int));
        }
        if name.get_char(i) == '.' {
            last = Some(i);
        }
        i = i + 1;
    }
    proof {
        assert(name@.take(n as int) =~= name@);
        lemma_last_dot_bounds(name@);
        crate::laws::law_jar_name_is_dot_jar_suffix(name@);
    }
    match last {
        None => false,
        Some(d) => {
            if d == 0 || n - d != 4 {
                proof {
                    if d > 0 && name@ != seq!['.', '.'] {
                        assert(name@.subrange(d + 1, n as int).len() != 3);
                    }
                }
                false
            } else {
                let a = name.get_char(d + 1);
                let b = name.get_char(d + 2);
                let c = name.get_char(d + 3);
                proof {
                    let ext = name@.subrange(d + 1, n as int);
                    assert(ext.len() == 3);
                    assert(ext[0] == a && ext[1] == b && ext[2] == c);
                    if name@ == seq!['.', '.'] {
                        assert(name@.len() == 2);
                    }
                    if a == 'j' && b == 'a' && c == 'r' {
                        assert(ext =~= seq!['j', 'a', 'r']);
                    }
                }
                a == 'j' && b == 'a' && c == 'r'
            }
        },
    }
}

// ---------------------------------------------------------------------------
// Ordering of paths
// ---------------------------------------------------------------------------

/// Lexicographic order on texts by character code, which for UTF-8 text is
/// the same as the byte order that `Ord for str` uses.
pub open spec fn text_le(a: Seq<char>, b: Seq<char>) -> bool
    decreases a.len(),
{
    if a.len() == 0 {
        true
    } else if b.len() == 0 {
        false
    } else if a[0] != b[0] {
        (a[0] as u32) < (b[0] as u32)
    } else {
        text_le(a.drop_first(), b.drop_first())
    }
}

/// A sequence of strings in ascending order.
pub open spec fn sorted_texts(s: Seq<String>) -> bool {
    forall|i: int, j: int| 0 <= i < j < s.len() ==> text_le(#[trigger] s[i]@, #[trigger] s[j]@)
}

/// Sorts strings in ascending order, by `slice::sort` (`Ord for String`).
///
/// Claimed of the std function: the result is a rearrangement of the input
/// that is in ascending lexicographic order of the strings' bytes, stated
/// here as the equivalent order of their characters.
#[verifier::external_body]
fn sort_texts(v: &mut Vec<String>)
    ensures
        final(v)@.to_multiset() == old(v)@.to_multiset(),
        final(v)@.len() == old(v)@.len(),
        sorted_texts(final(v)@),
{
    v.sort();
}

// ---------------------------------------------------------------------------
// JAR files and the classpath
// ---------------------------------------------------------------------------

/// The paths of the directory entries whose file names have the extension
/// "jar", in the order of the entries. Each entry is a path and its file
/// name.
pub open spec fn jar_paths(entries: Seq<(String, String)>) -> Seq<String>
    decreases entries.len(),
{
    if entries.len() == 0 {
        Seq::empty()
    } else if is_jar_name(entries.last().1@) {
        jar_paths(entries.drop_last()).push(entries.last().0)
    } else {
        jar_paths(entries.drop_last())
    }
}

/// The JAR files of a directory, sorted by path.
///
/// `listing` is `None` when the directory does not exist, and otherwise its
/// entries, each as a path and a file name. The result is an error naming
/// `dir` when the directory does not exist or holds no JAR file.
pub fn collect_jars(dir: String, listing: Option<Vec<(String, String)>>) -> (r: Result<
    Vec<String>,
    DebeziumError,
>)
    ensures
        match listing {
            None => r matches Err(DebeziumError::JarsNotFound { path }) && path@ == dir@,
            Some(entries) => if jar_paths(entries@).len() == 0 {
                r matches Err(DebeziumError::JarsNotFound { path }) && path@ == dir@
            } else {
                r matches Ok(jars) && jars@.to_multiset() == jar_paths(entries@).to_multiset()
                    && sorted_texts(jars@) && (forall|j: int|
                    0 <= j < entries@.len() && is_jar_name(#[trigger] entries@[j].1@)
                        ==> jars@.contains(entries@[j].0))
            },
        },
{
    let entries = match listing {
        None => {
            return Err(DebeziumError::JarsNotFound { path: dir });
        },
        Some(e) => e,
    };
    let mut jars: Vec<String> = Vec::new();
    let mut i: usize = 0;
    while i < entries.len()
        invariant
            i <= entries@.len(),
            jars@ == jar_paths(entries@.take(i as int)),
        decreases entries@.len() - i,
    {
        proof {
            assert(entries@.take(i + 1).drop_last() =~= entries@.take(i as int));
        }
        if has_jar_extension(entries[i].1.as_str()) {
            jars.push(entries[i].0.clone());
        }
        i = i + 1;
    }
    proof {
        assert(entries@.take(entries@.len() as int) =~= entries@);
    }
    if jars.len() == 0 {
        return Err(DebeziumError::JarsNotFound { path: dir });
    }
    sort_texts(&mut jars);
    proof {
        crate::laws::law_collected_jars_are_the_jar_entries(entries@, jars@);
    }
    Ok(jars)
}

/// Texts joined with a separator between each two of them.
pub open spec fn join_texts(parts: Seq<Seq<char>>, sep: Seq<char>) -> Seq<char>
    decreases parts.len(),
{
    if parts.len() == 0 {
        Seq::empty()
    } else if parts.len() == 1 {
        parts[0]
    } else {
        join_texts(parts.drop_last(), sep) + sep + parts.last()
    }
}

/// The sum of the lengths of texts.
pub open spec fn total_len(parts: Seq<Seq<char>>) -> int
    decreases parts.len(),
{
    if parts.len() == 0 {
        0
    } else {
        total_len(parts.drop_last()) + parts.last().len()
    }
}

/// The views of a sequence of strings.
pub open spec fn texts(s: Seq<String>) -> Seq<Seq<char>> {
    s.map_values(|t: String| t@)
}

/// The directories among the candidates that exist, in order.
pub open spec fn existing_dirs(dirs: Seq<(String, bool)>) -> Seq<String>
    decreases dirs.len(),
{
    if dirs.len() == 0 {
        Seq::empty()
    } else if dirs.last().1 {
        existing_dirs(dirs.drop_last()).push(dirs.last().0)
    } else {
        existing_dirs(dirs.drop_last())
    }
}

/// Joins strings with a separator.
pub fn join_strings(parts: &Vec<String>, sep: &str) -> (joined: String)
    ensures
        joined@ == join_texts(texts(parts@), sep@),
        parts@.len() >= 1 ==> joined@.len() == total_len(texts(parts@)) + (parts@.len() - 1)
            * sep@.len(),
{
    let mut joined = String::new();
    let mut i: usize = 0;
    while i < parts.len()
        invariant
            i <= parts@.len(),
            joined@ == join_texts(texts(parts@.take(i as int)), sep@),
        decreases parts@.len() - i,
    {
        proof {
            assert(texts(parts@.take(i + 1)).drop_last() =~= texts(parts@.take(i as int)));
            assert(texts(parts@.take(i + 1)).last() == parts@[i as int]@);
            if i == 0 {
                assert(texts(parts@.take(0)) =~= Seq::<Seq<char>>::empty());
            }
        }
        if i > 0 {
            joined.append(sep);
        }
        joined.append(parts[i].as_str());
        proof {
            if i == 0 {
                assert(joined@ =~= parts@[0]@);
            }
        }
        i = i + 1;
    }
    proof {
        assert(parts@.take(parts@.len() as int) =~= parts@);
        if parts@.len() >= 1 {
            crate::laws::law_join_length(texts(parts@), sep@);
        }
    }
    joined
}

/// The classpath: the JAR files, then those of the extra directories that
/// exist, separated by ':'.
pub fn build_classpath(jars: &Vec<String>, extra_dirs: &Vec<(String, bool)>) -> (classpath:
    String)
    ensures
        classpath@ == join_texts(texts(jars@ + existing_dirs(extra_dirs@)), seq![':']),
{
    let mut parts: Vec<String> = jars.clone();
    let mut i: usize = 0;
    while i < extra_dirs.len()
        invariant
            i <= extra_dirs@.len(),
            parts@ == jars@ + existing_dirs(extra_dirs@.take(i as int)),
        decreases extra_dirs@.len() - i,
    {
        proof {
            assert(extra_dirs@.take(i + 1).drop_last() =~= extra_dirs@.take(i as int));
        }
        if extra_dirs[i].1 {
            parts.push(extra_dirs[i].0.clone());
            proof {
                assert(parts@ =~= jars@ + existing_dirs(extra_dirs@.take(i + 1)));
            }
        }
        i = i + 1;
    }
    proof {
        assert(extra_dirs@.take(extra_dirs@.len() as int) =~= extra_dirs@);
        reveal_strlit(":");
        assert(":"@ =~= seq![':']);
    }
    join_strings(&parts, ":")
}


// ---------------------------------------------------------------------------
// Choosing among candidate locations
// ---------------------------------------------------------------------------

/// `i` is the first index at which a flag is set.
pub open spec fn is_first_set(flags: Seq<bool>, i: int) -> bool {
    &&& 0 <= i < flags.len()
    &&& flags[i]
    &&& forall|j: int| 0 <= j < i ==> !#[trigger] flags[j]
}

/// No flag is set.
pub open spec fn none_set(flags: Seq<bool>) -> bool {
    forall|j: int| 0 <= j < flags.len() ==> !#[trigger] flags[j]
}

/// The index of the first candidate that exists, if any.
pub fn first_existing(exists: &Vec<bool>) -> (found: Option<usize>)
    ensures
        match found {
            Some(i) => is_first_set(exists@, i as int),
            None => none_set(exists@),
        },
        match found {
            Some(i) => i < exists@.len() && exists@[i as int] && forall|j: int|
                0 <= j < i ==> !exists@[j],
            None => forall|j: int| 0 <= j < exists@.len() ==> !exists@[j],
        },
{
    let mut i: usize = 0;
    while i < exists.len()
        invariant
            i <= exists@.len(),
            forall|j: int| 0 <= j < i ==> !#[trigger] exists@[j],
        decreases exists@.len() - i,
    {
        if exists[i] {
            return Some(i);
        }
        i = i + 1;
    }
    None
}

/// The environment variable that names the Debezium JAR directory.
pub const LIBS_DIR_VAR: &'static str = "DEBEZIUM_LIBS_DIR";

/// The other environment variable that names the Debezium JAR directory.
pub const JARS_DIR_VAR: &'static str = "DEBEZIUM_JARS_DIR";

/// The environment variable that names the crate's manifest directory.
pub const MANIFEST_DIR_VAR: &'static str = "CARGO_MANIFEST_DIR";

/// A place where the Debezium JARs are looked for.
#[derive(Debug, Clone, Copy)]
pub enum LibsCandidate {
    /// The directory named by `DEBEZIUM_LIBS_DIR`, if that is set.
    LibsDirVar,
    /// The directory named by `DEBEZIUM_JARS_DIR`, if that is set.
    JarsDirVar,
    /// `debezium-libs` under the working directory.
    LocalDir,
    /// `debezium-libs` under `CARGO_MANIFEST_DIR`, if that is set.
    ManifestDir,
}

/// The places searched for the Debezium JARs, in the order they are
/// searched.
pub fn libs_search_order() -> (order: Vec<LibsCandidate>)
    ensures
        order@ == seq![
            LibsCandidate::LibsDirVar,
            LibsCandidate::JarsDirVar,
            LibsCandidate::LocalDir,
            LibsCandidate::ManifestDir,
        ],
{
    let mut order = Vec::new();
    order.push(LibsCandidate::LibsDirVar);
    order.push(LibsCandidate::JarsDirVar);
    order.push(LibsCandidate::LocalDir);
    order.push(LibsCandidate::ManifestDir);
    proof {
        assert(order@ =~= seq![
            LibsCandidate::LibsDirVar,
            LibsCandidate::JarsDirVar,
            LibsCandidate::LocalDir,
            LibsCandidate::ManifestDir,
        ]);
    }
    order
}

/// A directory where the compiled Java bridge class is looked for.
#[derive(Debug, Clone, Copy)]
pub enum BridgeCandidate {
    /// `target/java-classes` under `CARGO_MANIFEST_DIR`, if that is set.
    ManifestTarget,
    /// `java-classes` under the working directory.
    LocalClasses,
}

/// The directories searched for the compiled Java bridge class, in order.
pub fn bridge_search_order() -> (order: Vec<BridgeCandidate>)
    ensures
        order@ == seq![BridgeCandidate::ManifestTarget, BridgeCandidate::LocalClasses],
{
    let mut order = Vec::new();
    order.push(BridgeCandidate::ManifestTarget);
    order.push(BridgeCandidate::LocalClasses);
    proof {
        assert(order@ =~= seq![BridgeCandidate::ManifestTarget, BridgeCandidate::LocalClasses]);
    }
    order
}

/// The Java compiler to run.
#[derive(Debug, Clone)]
pub enum JavacProgram {
    /// `bin/javac` under this Java home.
    InJavaHome(String),
    /// `javac`, found on the search path.
    OnPath,
}

/// The Java compiler under `JAVA_HOME` when that is set, and `javac` on
/// the search path otherwise.
pub fn javac_program(java_home: Option<String>) -> (program: JavacProgram)
    ensures
        match java_home {
            Some(home) => program matches JavacProgram::InJavaHome(h) && h == home,
            None => program is OnPath,
        },
{
    match java_home {
        Some(home) => JavacProgram::InJavaHome(home),
        None => JavacProgram::OnPath,
    }
}

/// The message path of the error for Debezium JARs that are nowhere to be
/// found.
pub open spec fn libs_hint() -> Seq<char> {
    "debezium-libs/ (set DEBEZIUM_LIBS_DIR env var or run scripts/download-debezium.sh)"@
}

/// Chooses the Debezium JAR directory: the first of the candidates, in the
/// order of `libs_search_order`, that exists (a candidate whose variable is
/// not set does not exist), or an error that says where the JARs are
/// looked for.
pub fn select_libs_dir(exists: &Vec<bool>) -> (r: Result<usize, DebeziumError>)
    ensures
        match r {
            Ok(i) => is_first_set(exists@, i as int),
            Err(e) => none_set(exists@) && (e matches DebeziumError::JarsNotFound { path }
                && path@ == libs_hint()),
        },
        match r {
            Ok(i) => i < exists@.len() && exists@[i as int] && forall|j: int|
                0 <= j < i ==> !exists@[j],
            Err(_) => forall|j: int| 0 <= j < exists@.len() ==> !exists@[j],
        },
{
    match first_existing(exists) {
        Some(i) => Ok(i),
        None => Err(
            DebeziumError::JarsNotFound {
                path: "debezium-libs/ (set DEBEZIUM_LIBS_DIR env var or run scripts/download-debezium.sh)".to_string(),
            },
        ),
    }
}

/// What was found of a candidate path: whether it exists, and its
/// canonical form where that could be computed.
pub struct PathProbe {
    pub path: String,
    pub exists: bool,
    pub canonical: Option<String>,
}

/// Whether each probed path exists.
pub open spec fn probe_flags(probes: Seq<PathProbe>) -> Seq<bool> {
    probes.map_values(|p: PathProbe| p.exists)
}

/// The candidate locations of the log4j configuration, in order.
pub fn log4j_config_candidates() -> (candidates: Vec<String>)
    ensures
        texts(candidates@) == seq![
            "config/log4j2.properties"@,
            "debezium-libs/config/log4j2.properties"@,
        ],
{
    let mut candidates = Vec::new();
    candidates.push("config/log4j2.properties".to_string());
    candidates.push("debezium-libs/config/log4j2.properties".to_string());
    proof {
        assert(texts(candidates@) =~= seq![
            "config/log4j2.properties"@,
            "debezium-libs/config/log4j2.properties"@,
        ]);
    }
    candidates
}

/// The log4j configuration to start the JVM with: the first candidate that
/// exists, in canonical form where that could be computed, and otherwise
/// `log4j2.properties`.
pub fn find_log4j_config(probes: &Vec<PathProbe>) -> (config: String)
    ensures
        forall|i: int|
            #[trigger] is_first_set(probe_flags(probes@), i) ==> config@ == (match probes@[i].canonical {
                Some(c) => c@,
                None => probes@[i].path@,
            }),
        none_set(probe_flags(probes@)) ==> config@ == DEFAULT_LOG4J_CONFIG@,
        forall|i: int|
            0 <= i < probes@.len() && #[trigger] probes@[i].exists && (forall|j: int|
                0 <= j < i ==> !probes@[j].exists) ==> config@ == (match probes@[i].canonical {
                Some(c) => c@,
                None => probes@[i].path@,
            }),
        (forall|j: int| 0 <= j < probes@.len() ==> !probes@[j].exists) ==> config@
            == DEFAULT_LOG4J_CONFIG@,
{
    let mut i: usize = 0;
    while i < probes.len()
        invariant
            i <= probes@.len(),
            forall|j: int| 0 <= j < i ==> !#[trigger] probe_flags(probes@)[j],
            forall|j: int| 0 <= j < i ==> !(#[trigger] probes@[j]).exists,
        decreases probes@.len() - i,
    {
        if probes[i].exists {
            let chosen = match &probes[i].canonical {
                Some(c) => c.clone(),
                None => probes[i].path.clone(),
            };
            proof {
                assert(is_first_set(probe_flags(probes@), i as int));
                assert forall|k: int| #[trigger] is_first_set(probe_flags(probes@), k) implies k
                    == i by {
                    if k < i {
                        assert(!probe_flags(probes@)[k]);
                    }
                    if k > i {
                        assert(probe_flags(probes@)[i as int]);
                    }
                }
                assert forall|k: int|
                    0 <= k < probes@.len() && #[trigger] probes@[k].exists && (forall|j: int|
                        0 <= j < k ==> !probes@[j].exists) implies k == i by {
                    if k > i {
                        assert(!probes@[i as int].exists);
                    }
                }
            }
            return chosen;
        }
        i = i + 1;
    }
    DEFAULT_LOG4J_CONFIG.to_string()
}

/// What to do to get the Java bridge class.
pub enum BridgePlan {
    /// Use the candidate class directory at this index.
    Use(usize),
    /// Compile the bridge source, then look in `java-classes`.
    Compile,
    /// Give up: there is neither a compiled class nor its source.
    Missing,
}

/// Chooses where the Java bridge class comes from: the first candidate
/// class directory that holds the compiled class, else a compilation when
/// the source is present, else nowhere.
pub fn plan_bridge_dir(class_present: &Vec<bool>, source_present: bool) -> (plan: BridgePlan)
    ensures
        match plan {
            BridgePlan::Use(i) => is_first_set(class_present@, i as int),
            BridgePlan::Compile => none_set(class_present@) && source_present,
            BridgePlan::Missing => none_set(class_present@) && !source_present,
        },
        match plan {
            BridgePlan::Use(i) => i < class_present@.len() && class_present@[i as int] && forall|
                j: int,
            | 0 <= j < i ==> !class_present@[j],
            _ => forall|j: int| 0 <= j < class_present@.len() ==> !class_present@[j],
        },
{
    match first_existing(class_present) {
        Some(i) => BridgePlan::Use(i),
        None => if source_present {
            BridgePlan::Compile
        } else {
            BridgePlan::Missing
        },
    }
}

/// The outcome of compiling the Java bridge: fine when the compiled class
/// is now present, and the missing-bridge error otherwise.
pub fn bridge_after_compile(class_present: bool) -> (r: Result<(), DebeziumError>)
    ensures
        class_present <==> r is Ok,
        !class_present ==> (r matches Err(DebeziumError::Config(m)) && m@
            == "Java bridge class not found. Run build.rs or compile manually."@),
{
    if class_present {
        Ok(())
    } else {
        Err(DebeziumError::bridge_class_missing())
    }
}

// ---------------------------------------------------------------------------
// Command lines
// ---------------------------------------------------------------------------

/// The arguments the Java bridge is compiled with: the output directory,
/// Java 11 as source and target, the classpath when there is one, and the
/// bridge source file.
pub fn javac_arguments(out_dir: &str, classpath: &str) -> (args: Vec<String>)
    ensures
        texts(args@) == seq!["-d"@, out_dir@, "-source"@, "11"@, "-target"@, "11"@] + (if classpath@.len()
            > 0 {
            seq!["-cp"@, classpath@]
        } else {
            Seq::empty()
        }) + seq![BRIDGE_SOURCE_FILE@],
{
    let mut args: Vec<String> = Vec::new();
    args.push("-d".to_string());
    args.push(out_dir.to_string());
    args.push("-source".to_string());
    args.push("11".to_string());
    args.push("-target".to_string());
    args.push("11".to_string());
    if classpath.unicode_len() > 0 {
        args.push("-cp".to_string());
        args.push(classpath.to_string());
        args.push(BRIDGE_SOURCE_FILE.to_string());
        proof {
            assert(texts(args@) =~= seq!["-d"@, out_dir@, "-source"@, "11"@, "-target"@, "11"@] + seq![
                "-cp"@,
                classpath@,
            ] + seq![BRIDGE_SOURCE_FILE@]);
        }
    } else {
        args.push(BRIDGE_SOURCE_FILE.to_string());
        proof {
            assert(texts(args@) =~= seq!["-d"@, out_dir@, "-source"@, "11"@, "-target"@, "11"@]
                + Seq::<Seq<char>>::empty() + seq![BRIDGE_SOURCE_FILE@]);
        }
    }
    args
}

/// The options the JVM is started with: the classpath, headless mode, and
/// the log4j configuration file.
pub fn jvm_options(classpath: &str, log4j_config: &str) -> (options: Vec<String>)
    ensures
        texts(options@) == seq![
            "-Djava.class.path="@ + classpath@,
            "-Djava.awt.headless=true"@,
            "-Dlog4j.configurationFile="@ + log4j_config@,
        ],
{
    let mut options: Vec<String> = Vec::new();
    options.push("-Djava.class.path=".to_string().concat(classpath));
    options.push("-Djava.awt.headless=true".to_string());
    options.push("-Dlog4j.configurationFile=".to_string().concat(log4j_config));
    proof {
        assert(texts(options@) =~= seq![
            "-Djava.class.path="@ + classpath@,
            "-Djava.awt.headless=true"@,
            "-Dlog4j.configurationFile="@ + log4j_config@,
        ]);
    }
    options
}

// ---------------------------------------------------------------------------
// Starting the JVM once
// ---------------------------------------------------------------------------

/// What a call that asks for the JVM is to do.
#[derive(Debug, Clone, Copy)]
pub enum JvmStartStep {
    /// Start the JVM: it is not running yet.
    Start,
    /// Nothing: the JVM is already running.
    AlreadyStarted,
}

/// Whether the JVM of this process has been started. A start that failed
/// leaves it not started, so a later call tries again and reports its own
/// outcome; once a start succeeded, later calls start nothing.
pub struct JvmStarter {
    started: bool,
}

impl JvmStarter {
    /// Whether a start has succeeded.
    pub closed spec fn is_started(&self) -> bool {
        self.started
    }

    /// No start has been made.
    pub fn new() -> (s: JvmStarter)
        ensures
            !s.is_started(),
    {
        JvmStarter { started: false }
    }

    /// What a call that asks for the JVM is to do: start it unless a start
    /// has succeeded.
    pub fn step(&self) -> (step: JvmStartStep)
        ensures
            self.is_started() <==> step is AlreadyStarted,
    {
        if self.started {
            JvmStartStep::AlreadyStarted
        } else {
            JvmStartStep::Start
        }
    }

    /// Records the outcome of a start and hands it back unchanged: the JVM
    /// counts as started exactly when the start succeeded.
    pub fn finish(&mut self, outcome: Result<(), DebeziumError>) -> (r: Result<(), DebeziumError>)
        requires
            !old(self).is_started(),
        ensures
            r == outcome,
            final(self).is_started() == outcome is Ok,
    {
        self.started = outcome.is_ok();
        outcome
    }
}

} // verus!
