//! Properties that relate several operations of the library.

use vstd::prelude::*;
use crate::engine::DebeziumEngineBuilder;
use crate::jvm::{
    existing_dirs, file_extension, is_first_set, is_jar_name, jar_paths, join_texts, last_dot,
    lemma_last_dot_at, lemma_last_dot_bounds, none_set, total_len,
};
use crate::registry::{min3, HandlerRegistry};

verus! {

/// Setting the same property twice keeps the later value: two `property`
/// calls with one key leave the properties as a single call with the second
/// value would.
pub proof fn law_property_last_write_wins(
    b0: DebeziumEngineBuilder,
    b1: DebeziumEngineBuilder,
    b2: DebeziumEngineBuilder,
    key: Seq<char>,
    first: Seq<char>,
    second: Seq<char>,
)
    requires
        b1.spec_properties() == Some(b0.property_base().insert(key, first)),
        b2.spec_properties() == Some(b1.property_base().insert(key, second)),
    ensures
        b2.spec_properties() == Some(b0.property_base().insert(key, second)),
{
    assert(b1.property_base().insert(key, second) =~= b0.property_base().insert(key, second));
}

/// Setting a property leaves every other property as it was, and reading
/// the property back gives the value set.
pub proof fn law_property_read_back(
    b0: DebeziumEngineBuilder,
    b1: DebeziumEngineBuilder,
    key: Seq<char>,
    value: Seq<char>,
    other: Seq<char>,
)
    requires
        b1.spec_properties() == Some(b0.property_base().insert(key, value)),
        other != key,
    ensures
        b1.property_base().contains_key(key),
        b1.property_base()[key] == value,
        b1.property_base().contains_key(other) == b0.property_base().contains_key(other),
        b0.property_base().contains_key(other) ==> b1.property_base()[other]
            == b0.property_base()[other],
{
}

/// After `properties(p)` the properties are `p`, whatever was set before,
/// and a property set afterwards extends `p`.
pub proof fn law_properties_replace(
    b1: DebeziumEngineBuilder,
    b2: DebeziumEngineBuilder,
    p: Map<Seq<char>, Seq<char>>,
    key: Seq<char>,
    value: Seq<char>,
)
    requires
        b1.spec_properties() == Some(p),
        b2.spec_properties() == Some(b1.property_base().insert(key, value)),
    ensures
        b1.property_base() == p,
        b2.spec_properties() == Some(p.insert(key, value)),
{
}

/// A handler registered under an id is the one found under that id.
pub proof fn law_register_then_get<H>(
    r0: HandlerRegistry<H>,
    r1: HandlerRegistry<H>,
    id: i64,
    handler: H,
)
    requires
        r1.handlers_view() == r0.handlers_view().insert(id, handler),
    ensures
        r1.ids().contains(id),
        r1.handlers_view()[id] == handler,
        r1.ids() == r0.ids().insert(id),
{
    assert(r1.ids() =~= r0.ids().insert(id));
}

/// A handler registered and then unregistered leaves the registry holding
/// exactly the handlers it held before.
pub proof fn law_register_then_unregister<H>(
    r0: HandlerRegistry<H>,
    r1: HandlerRegistry<H>,
    r2: HandlerRegistry<H>,
    id: i64,
    handler: H,
)
    requires
        !r0.ids().contains(id),
        r1.handlers_view() == r0.handlers_view().insert(id, handler),
        r2.handlers_view() == r1.handlers_view().remove(id),
    ensures
        r2.handlers_view() == r0.handlers_view(),
{
    assert(r0.handlers_view().insert(id, handler).remove(id) =~= r0.handlers_view());
}

/// Unregistering an id under which no handler is registered leaves the
/// registry as it was.
pub proof fn law_unregister_absent_is_noop<H>(
    r0: HandlerRegistry<H>,
    r1: HandlerRegistry<H>,
    id: i64,
)
    requires
        !r0.ids().contains(id),
        r1.handlers_view() == r0.handlers_view().remove(id),
    ensures
        r1.handlers_view() == r0.handlers_view(),
{
    assert(r0.handlers_view().remove(id) =~= r0.handlers_view());
}

/// Two registrations in a row hand out different ids, and both handlers
/// are found under their ids afterwards.
pub proof fn law_registrations_distinct<H>(
    r0: HandlerRegistry<H>,
    r1: HandlerRegistry<H>,
    r2: HandlerRegistry<H>,
    id1: i64,
    h1: H,
    id2: i64,
    h2: H,
)
    requires
        !r0.ids().contains(id1),
        r1.handlers_view() == r0.handlers_view().insert(id1, h1),
        !r1.ids().contains(id2),
        r2.handlers_view() == r1.handlers_view().insert(id2, h2),
    ensures
        id1 != id2,
        r2.handlers_view()[id1] == h1,
        r2.handlers_view()[id2] == h2,
{
}

/// Unregistering an id leaves the handlers under every other id in place.
pub proof fn law_unregister_keeps_others<H>(
    r0: HandlerRegistry<H>,
    r1: HandlerRegistry<H>,
    id: i64,
    other: i64,
)
    requires
        r1.handlers_view() == r0.handlers_view().remove(id),
        other != id,
    ensures
        !r1.ids().contains(id),
        r1.ids().contains(other) == r0.ids().contains(other),
        r0.ids().contains(other) ==> r1.handlers_view()[other] == r0.handlers_view()[other],
{
}

/// At most one candidate is the first that exists, and a candidate list
/// either has one or has none that exists.
pub proof fn law_first_existing_unique(flags: Seq<bool>, i: int, j: int)
    requires
        is_first_set(flags, i),
        is_first_set(flags, j),
    ensures
        i == j,
        !none_set(flags),
{
    if i < j {
        assert(!flags[i]);
    }
    if j < i {
        assert(!flags[j]);
    }
}

/// Some entry of the listing has the path `p` and a file name with the
/// extension "jar".
pub open spec fn is_jar_entry_path(entries: Seq<(String, String)>, p: String) -> bool {
    exists|j: int| 0 <= j < entries.len() && #[trigger] entries[j].0 == p && is_jar_name(entries[j].1@)
}

/// A path is among the JAR paths of a listing exactly when some entry of
/// the listing has that path and a file name with the extension "jar".
pub proof fn lemma_jar_paths_members(entries: Seq<(String, String)>, p: String)
    ensures
        jar_paths(entries).contains(p) <==> is_jar_entry_path(entries, p),
    decreases entries.len(),
{
    if entries.len() > 0 {
        let t = entries.drop_last();
        lemma_jar_paths_members(t, p);
        if jar_paths(entries).contains(p) {
            if is_jar_name(entries.last().1@) && p == entries.last().0 {
                assert(entries[entries.len() - 1].0 == p);
            } else {
                assert(jar_paths(t).contains(p)) by {
                    if is_jar_name(entries.last().1@) {
                        let k = choose|k: int| 0 <= k < jar_paths(entries).len() && jar_paths(entries)[k] == p;
                        assert(k < jar_paths(t).len());
                        assert(jar_paths(t)[k] == p);
                    }
                }
                let j = choose|j: int| 0 <= j < t.len() && #[trigger] t[j].0 == p && is_jar_name(t[j].1@);
                assert(entries[j] == t[j]);
            }
        }
        if exists|j: int| 0 <= j < entries.len() && #[trigger] entries[j].0 == p && is_jar_name(entries[j].1@) {
            let j = choose|j: int| 0 <= j < entries.len() && #[trigger] entries[j].0 == p && is_jar_name(entries[j].1@);
            if j == entries.len() - 1 {
                assert(jar_paths(entries).last() == p);
                assert(jar_paths(entries).contains(p));
            } else {
                assert(t[j] == entries[j]);
                assert(jar_paths(t).contains(p));
                let k = choose|k: int| 0 <= k < jar_paths(t).len() && jar_paths(t)[k] == p;
                if is_jar_name(entries.last().1@) {
                    assert(jar_paths(entries)[k] == p);
                }
            }
        }
    }
}

/// The JARs collected from a directory listing are exactly its entries
/// with the extension "jar": each collected path is such an entry, and
/// each such entry is collected.
pub proof fn law_collected_jars_are_the_jar_entries(
    entries: Seq<(String, String)>,
    jars: Seq<String>,
)
    requires
        jars.to_multiset() == jar_paths(entries).to_multiset(),
    ensures
        forall|i: int| 0 <= i < jars.len() ==> #[trigger] is_jar_entry_path(entries, jars[i]),
        forall|j: int|
            0 <= j < entries.len() && is_jar_name(#[trigger] entries[j].1@) ==> jars.contains(
                entries[j].0,
            ),
{
    broadcast use vstd::seq_lib::group_to_multiset_ensures;

    assert forall|i: int| 0 <= i < jars.len() implies #[trigger] is_jar_entry_path(
        entries,
        jars[i],
    ) by {
        assert(jars.contains(jars[i]));
        assert(jars.to_multiset().count(jars[i]) > 0);
        assert(jar_paths(entries).contains(jars[i]));
        lemma_jar_paths_members(entries, jars[i]);
    }
    assert forall|j: int| 0 <= j < entries.len() && is_jar_name(#[trigger] entries[j].1@) implies jars.contains(
        entries[j].0,
    ) by {
        lemma_jar_paths_members(entries, entries[j].0);
        assert(jar_paths(entries).to_multiset().count(entries[j].0) > 0);
    }
}

/// The length of a batch is the smallest of the three lengths it is built
/// from: no more than any of them, and equal to one of them.
pub proof fn law_min3_is_smallest(a: int, b: int, c: int)
    ensures
        min3(a, b, c) <= a,
        min3(a, b, c) <= b,
        min3(a, b, c) <= c,
        min3(a, b, c) == a || min3(a, b, c) == b || min3(a, b, c) == c,
{
}

/// A candidate is the first that exists exactly when it exists and no
/// candidate before it does, whatever the number of candidates.
pub proof fn law_first_set_is_first_existing(flags: Seq<bool>, i: int)
    ensures
        is_first_set(flags, i) <==> (0 <= i < flags.len() && flags[i] && forall|j: int|
            0 <= j < i ==> !flags[j]),
{
}

/// A file name has the extension "jar" exactly when it ends in ".jar" and
/// something comes before that, whatever its length.
pub proof fn law_jar_name_is_dot_jar_suffix(name: Seq<char>)
    ensures
        is_jar_name(name) <==> (name.len() >= 5 && name.subrange(
            name.len() - 4,
            name.len() as int,
        ) == seq!['.', 'j', 'a', 'r']),
{
    let n = name.len() as int;
    lemma_last_dot_bounds(name);
    if n >= 5 && name.subrange(n - 4, n) == seq!['.', 'j', 'a', 'r'] {
        let suf = name.subrange(n - 4, n);
        assert(name[n - 4] == suf[0]);
        assert(name[n - 3] == suf[1]);
        assert(name[n - 2] == suf[2]);
        assert(name[n - 1] == suf[3]);
        lemma_last_dot_at(name, n - 4);
        assert(name != seq!['.', '.']) by {
            assert(seq!['.', '.'].len() == 2);
        }
        assert(name.subrange(n - 3, n) =~= seq!['j', 'a', 'r']);
        assert(file_extension(name) == Some(seq!['j', 'a', 'r']));
    }
    if is_jar_name(name) {
        let d = last_dot(name);
        assert(d > 0);
        let ext = name.subrange(d + 1, n);
        assert(ext == seq!['j', 'a', 'r']);
        assert(ext.len() == 3);
        assert(d == n - 4);
        assert(name[d] == '.');
        assert(name[d + 1] == ext[0]);
        assert(name[d + 2] == ext[1]);
        assert(name[d + 3] == ext[2]);
        assert(name.subrange(n - 4, n) =~= seq!['.', 'j', 'a', 'r']);
    }
}

/// Any non-empty stem followed by ".jar" is a JAR file name, however long
/// the stem is.
pub proof fn law_jar_name_any_stem(stem: Seq<char>)
    requires
        stem.len() >= 1,
    ensures
        is_jar_name(stem + seq!['.', 'j', 'a', 'r']),
{
    let name = stem + seq!['.', 'j', 'a', 'r'];
    assert(name.subrange(name.len() - 4, name.len() as int) =~= seq!['.', 'j', 'a', 'r']);
    law_jar_name_is_dot_jar_suffix(name);
}

/// Joining one text gives that text.
pub proof fn law_join_single(a: Seq<char>, sep: Seq<char>)
    ensures
        join_texts(seq![a], sep) == a,
{
}

/// Adding a part to a non-empty list of parts adds one separator and the
/// part to the joined text, however many parts there are.
pub proof fn law_join_push(parts: Seq<Seq<char>>, sep: Seq<char>, p: Seq<char>)
    requires
        parts.len() >= 1,
    ensures
        join_texts(parts.push(p), sep) == join_texts(parts, sep) + sep + p,
{
    assert(parts.push(p).drop_last() =~= parts);
}

/// Joining n parts, n >= 1, puts exactly n - 1 separators between them: the
/// joined text is as long as the parts together plus n - 1 separators.
pub proof fn law_join_length(parts: Seq<Seq<char>>, sep: Seq<char>)
    requires
        parts.len() >= 1,
    ensures
        join_texts(parts, sep).len() == total_len(parts) + (parts.len() - 1) * sep.len(),
    decreases parts.len(),
{
    let n = parts.len() as int;
    let s = sep.len() as int;
    if n == 1 {
        assert(parts.drop_last().len() == 0);
        assert(total_len(parts.drop_last()) == 0);
    } else {
        law_join_length(parts.drop_last(), sep);
        assert((n - 2) * s + s == (n - 1) * s) by (nonlinear_arith);
    }
}

/// Counting registrations: in a run of registries that starts fresh and
/// where each one has one more registration than the one before, the k-th
/// has had k registrations and can still register while k < 2^63 - 2.
pub proof fn law_registrations_counted<H>(rs: Seq<HandlerRegistry<H>>)
    requires
        rs.len() >= 1,
        rs[0].registrations() == 0,
        forall|k: int| 1 <= k < rs.len() ==> #[trigger] rs[k].registrations() == rs[k
            - 1].registrations() + 1,
    ensures
        forall|k: int| 0 <= k < rs.len() ==> #[trigger] rs[k].registrations() == k,
        forall|k: int| 0 <= k < rs.len() && k < i64::MAX - 1 ==> #[trigger] rs[k].can_register(),
    decreases rs.len(),
{
    if rs.len() > 1 {
        let t = rs.drop_last();
        assert forall|k: int| 1 <= k < t.len() implies #[trigger] t[k].registrations() == t[k
            - 1].registrations() + 1 by {
            assert(t[k] == rs[k]);
            assert(t[k - 1] == rs[k - 1]);
            assert(rs[k].registrations() == rs[k - 1].registrations() + 1);
        }
        law_registrations_counted(t);
        assert forall|k: int| 0 <= k < rs.len() implies #[trigger] rs[k].registrations() == k by {
            if k < rs.len() - 1 {
                assert(t[k] == rs[k]);
            } else {
                assert(t[k - 1] == rs[k - 1]);
                assert(rs[k].registrations() == rs[k - 1].registrations() + 1);
            }
        }
    }
    assert forall|k: int| 0 <= k < rs.len() && k < i64::MAX - 1 implies #[trigger] rs[k].can_register() by {
        rs[k].law_registers_until_ids_run_out();
        assert(rs[k].registrations() == k);
    }
}

/// Some candidate directory is `d` and exists.
pub open spec fn is_existing_dir_entry(dirs: Seq<(String, bool)>, d: String) -> bool {
    exists|j: int| 0 <= j < dirs.len() && #[trigger] dirs[j].0 == d && dirs[j].1
}

/// A directory is among the existing ones exactly when some candidate is
/// that directory and exists.
pub proof fn lemma_existing_dirs_members(dirs: Seq<(String, bool)>, d: String)
    ensures
        existing_dirs(dirs).contains(d) <==> is_existing_dir_entry(dirs, d),
    decreases dirs.len(),
{
    if dirs.len() > 0 {
        let t = dirs.drop_last();
        lemma_existing_dirs_members(t, d);
        if existing_dirs(dirs).contains(d) {
            if dirs.last().1 && d == dirs.last().0 {
                assert(dirs[dirs.len() - 1].0 == d);
            } else {
                assert(existing_dirs(t).contains(d)) by {
                    if dirs.last().1 {
                        let k = choose|k: int|
                            0 <= k < existing_dirs(dirs).len() && existing_dirs(dirs)[k] == d;
                        assert(k < existing_dirs(t).len());
                        assert(existing_dirs(t)[k] == d);
                    }
                }
                let j = choose|j: int| 0 <= j < t.len() && #[trigger] t[j].0 == d && t[j].1;
                assert(dirs[j] == t[j]);
            }
        }
        if is_existing_dir_entry(dirs, d) {
            let j = choose|j: int| 0 <= j < dirs.len() && #[trigger] dirs[j].0 == d && dirs[j].1;
            if j == dirs.len() - 1 {
                assert(existing_dirs(dirs).last() == d);
                assert(existing_dirs(dirs).contains(d));
            } else {
                assert(t[j] == dirs[j]);
                assert(existing_dirs(t).contains(d));
                let k = choose|k: int| 0 <= k < existing_dirs(t).len() && existing_dirs(t)[k] == d;
                if dirs.last().1 {
                    assert(existing_dirs(dirs)[k] == d);
                }
            }
        }
    }
}

/// The extra classpath directories are exactly the candidates that exist:
/// each one taken exists, and each one that exists is taken, wherever it
/// stands among the candidates.
pub proof fn law_classpath_dirs_are_the_existing_ones(dirs: Seq<(String, bool)>)
    ensures
        forall|i: int|
            0 <= i < existing_dirs(dirs).len() ==> #[trigger] is_existing_dir_entry(
                dirs,
                existing_dirs(dirs)[i],
            ),
        forall|j: int| 0 <= j < dirs.len() && (#[trigger] dirs[j]).1 ==> existing_dirs(dirs).contains(dirs[j].0),
{
    assert forall|i: int| 0 <= i < existing_dirs(dirs).len() implies #[trigger] is_existing_dir_entry(
        dirs,
        existing_dirs(dirs)[i],
    ) by {
        assert(existing_dirs(dirs).contains(existing_dirs(dirs)[i]));
        lemma_existing_dirs_members(dirs, existing_dirs(dirs)[i]);
    }
    assert forall|j: int| 0 <= j < dirs.len() && (#[trigger] dirs[j]).1 implies existing_dirs(dirs).contains(dirs[j].0) by {
        lemma_existing_dirs_members(dirs, dirs[j].0);
        assert(is_existing_dir_entry(dirs, dirs[j].0));
    }
}

} // verus!
