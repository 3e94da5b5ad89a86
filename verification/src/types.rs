//! Core types for change data capture events and engine configuration.

use vstd::prelude::*;

verus! {

/// A single change data capture event.
///
/// Mirrors the Java `ChangeEvent<String, String>` where key and value are
/// JSON-serialized strings.
#[derive(Debug, Clone)]
pub struct ChangeEvent {
    /// Record key (typically the primary key, JSON-encoded).
    /// `None` for tombstone events.
    pub key: Option<String>,
    /// Record value (the full change event as a JSON string).
    /// `None` for tombstone events.
    pub value: Option<String>,
    /// Destination topic or table name: `<topic.prefix>.<schema>.<table>`.
    pub destination: Option<String>,
}

impl ChangeEvent {
    /// Parses the value with `parse`, when there is a value: `None` for an
    /// event without value (a tombstone), and otherwise what `parse` gives
    /// for the value's text.
    pub fn parse_value<T, F: Fn(&str) -> T>(&self, parse: F) -> (parsed: Option<T>)
        requires
            forall|s: &str| #[trigger] call_requires(parse, (s,)),
        ensures
            self.value is None ==> parsed is None,
            self.value is Some ==> parsed is Some,
            self.value is Some ==> exists|s: &str|
                s@ == self.value->0@ && #[trigger] call_ensures(parse, (s,), parsed->0),
    {
        match &self.value {
            Some(v) => {
                let s = v.as_str();
                let t = parse(s);
                let r = Some(t);
                proof {
                    assert(s@ == self.value->0@);
                    assert(call_ensures(parse, (s,), r->0));
                }
                r
            },
            None => None,
        }
    }
}

/// The view of an optional string: the optional sequence of its characters.
pub open spec fn opt_view(s: Option<String>) -> Option<Seq<char>> {
    match s {
        Some(t) => Some(t@),
        None => None,
    }
}

/// No key occurs twice in a sequence of key/value pairs.
pub open spec fn keys_distinct(s: Seq<(String, String)>) -> bool {
    forall|i: int, j: int| 0 <= i < j < s.len() ==> #[trigger] s[i].0@ != #[trigger] s[j].0@
}

/// The map that a sequence of key/value pairs denotes, later pairs taking
/// precedence over earlier ones with the same key.
pub open spec fn pairs_map(s: Seq<(String, String)>) -> Map<Seq<char>, Seq<char>>
    decreases s.len(),
{
    if s.len() == 0 {
        Map::empty()
    } else {
        pairs_map(s.drop_last()).insert(s.last().0@, s.last().1@)
    }
}

/// With distinct keys, the map holds exactly the keys of the pairs, each
/// bound to the value of its pair, and has one entry per pair.
pub proof fn lemma_pairs_map(s: Seq<(String, String)>)
    requires
        keys_distinct(s),
    ensures
        pairs_map(s).dom().finite(),
        pairs_map(s).len() == s.len(),
        forall|k: Seq<char>|
            #[trigger] pairs_map(s).contains_key(k) <==> exists|i: int|
                0 <= i < s.len() && #[trigger] s[i].0@ == k,
        forall|i: int| 0 <= i < s.len() ==> #[trigger] pairs_map(s)[s[i].0@] == s[i].1@,
    decreases s.len(),
{
    if s.len() > 0 {
        let t = s.drop_last();
        assert(keys_distinct(t));
        lemma_pairs_map(t);
        let k = s.last().0@;
        assert(!pairs_map(t).contains_key(k)) by {
            if pairs_map(t).contains_key(k) {
                let i = choose|i: int| 0 <= i < t.len() && #[trigger] t[i].0@ == k;
                assert(s[i].0@ == s[s.len() - 1].0@);
            }
        }
        assert forall|k2: Seq<char>|
            #[trigger] pairs_map(s).contains_key(k2) implies exists|i: int|
                0 <= i < s.len() && #[trigger] s[i].0@ == k2 by {
            if k2 == k {
                assert(s[s.len() - 1].0@ == k2);
            } else {
                let i = choose|i: int| 0 <= i < t.len() && #[trigger] t[i].0@ == k2;
                assert(s[i].0@ == k2);
            }
        }
        assert forall|k2: Seq<char>|
            (exists|i: int| 0 <= i < s.len() && #[trigger] s[i].0@ == k2) implies
                #[trigger] pairs_map(s).contains_key(k2) by {
            let i = choose|i: int| 0 <= i < s.len() && #[trigger] s[i].0@ == k2;
            if i < s.len() - 1 {
                assert(t[i].0@ == k2);
            }
        }
        assert forall|i: int| 0 <= i < s.len() implies #[trigger] pairs_map(s)[s[i].0@]
            == s[i].1@ by {
            if i < s.len() - 1 {
                assert(t[i] == s[i]);
                assert(s[i].0@ != k);
            }
        }
    }
}

/// Replacing the value of the pair at index `i` rebinds its key.
pub proof fn lemma_pairs_map_update(s: Seq<(String, String)>, i: int, p: (String, String))
    requires
        keys_distinct(s),
        0 <= i < s.len(),
        s[i].0@ == p.0@,
    ensures
        keys_distinct(s.update(i, p)),
        pairs_map(s.update(i, p)) == pairs_map(s).insert(p.0@, p.1@),
{
    let u = s.update(i, p);
    assert(keys_distinct(u)) by {
        assert forall|a: int, b: int| 0 <= a < b < u.len() implies #[trigger] u[a].0@
            != #[trigger] u[b].0@ by {
            assert(s[a].0@ != s[b].0@);
        }
    }
    lemma_pairs_map(s);
    lemma_pairs_map(u);
    let m = pairs_map(s).insert(p.0@, p.1@);
    assert forall|k: Seq<char>| #[trigger] pairs_map(u).contains_key(k) <==> m.contains_key(k) by {
        if pairs_map(u).contains_key(k) {
            let j = choose|j: int| 0 <= j < u.len() && #[trigger] u[j].0@ == k;
            if j != i {
                assert(s[j].0@ == k);
            }
        }
        if m.contains_key(k) && k != p.0@ {
            let j = choose|j: int| 0 <= j < s.len() && #[trigger] s[j].0@ == k;
            assert(u[j].0@ == k);
        }
        if k == p.0@ {
            assert(u[i].0@ == k);
        }
    }
    assert forall|k: Seq<char>| #[trigger] pairs_map(u).contains_key(k) implies pairs_map(u)[k]
        == m[k] by {
        let j = choose|j: int| 0 <= j < u.len() && #[trigger] u[j].0@ == k;
        if j != i {
            assert(s[j] == u[j]);
            assert(s[j].0@ != s[i].0@);
        }
    }
    assert(pairs_map(u) =~= m);
}

/// Engine configuration properties: a map from property names to values.
///
/// These map directly to Debezium connector configuration properties.
pub struct EngineProperties {
    entries: Vec<(String, String)>,
}

impl View for EngineProperties {
    type V = Map<Seq<char>, Seq<char>>;

    closed spec fn view(&self) -> Map<Seq<char>, Seq<char>> {
        pairs_map(self.entries@)
    }
}

impl EngineProperties {
    #[verifier::type_invariant]
    closed spec fn inv(self) -> bool {
        keys_distinct(self.entries@)
    }

    /// An empty set of properties.
    pub fn new() -> (props: EngineProperties)
        ensures
            props@ == Map::<Seq<char>, Seq<char>>::empty(),
    {
        EngineProperties { entries: Vec::new() }
    }

    /// The properties that a sequence of key/value pairs sets, a later pair
    /// overriding an earlier one with the same key.
    pub fn from_pairs(pairs: Vec<(String, String)>) -> (props: EngineProperties)
        ensures
            props@ == pairs_map(pairs@),
    {
        let mut props = EngineProperties::new();
        let mut i: usize = 0;
        while i < pairs.len()
            invariant
                i <= pairs@.len(),
                props@ == pairs_map(pairs@.take(i as int)),
            decreases pairs@.len() - i,
        {
            proof {
                assert(pairs@.take(i + 1).drop_last() =~= pairs@.take(i as int));
            }
            props.insert(pairs[i].0.clone(), pairs[i].1.clone());
            i = i + 1;
        }
        proof {
            assert(pairs@.take(pairs@.len() as int) =~= pairs@);
        }
        props
    }

    /// The index of the pair whose key is `key`, if there is one.
    fn position(&self, key: &String) -> (pos: Option<usize>)
        ensures
            match pos {
                Some(i) => i < self.entries@.len() && self.entries@[i as int].0@ == key@,
                None => forall|i: int|
                    0 <= i < self.entries@.len() ==> #[trigger] self.entries@[i].0@ != key@,
            },
    {
        let mut i: usize = 0;
        while i < self.entries.len()
            invariant
                i <= self.entries@.len(),
                forall|j: int| 0 <= j < i ==> #[trigger] self.entries@[j].0@ != key@,
            decreases self.entries@.len() - i,
        {
            if self.entries[i].0 == *key {
                return Some(i);
            }
            i = i + 1;
        }
        None
    }

    /// Sets `key` to `value`, returning the value it had before, if any.
    pub fn insert(&mut self, key: String, value: String) -> (previous: Option<String>)
        ensures
            final(self)@ == old(self)@.insert(key@, value@),
            opt_view(previous) == (if old(self)@.contains_key(key@) {
                Some(old(self)@[key@])
            } else {
                None
            }),
    {
        proof {
            use_type_invariant(&*self);
            lemma_pairs_map(self.entries@);
        }
        match self.position(&key) {
            Some(i) => {
                let ghost s = self.entries@;
                let previous = self.entries[i].1.clone();
                proof {
                    lemma_pairs_map_update(s, i as int, (key, value));
                }
                let mut entries = Vec::new();
                std::mem::swap(&mut entries, &mut self.entries);
                entries.set(i, (key, value));
                self.entries = entries;
                Some(previous)
            },
            None => {
                let ghost s = self.entries@;
                proof {
                    assert(!pairs_map(s).contains_key(key@));
                    assert(keys_distinct(s.push((key, value)))) by {
                        assert forall|a: int, b: int|
                            0 <= a < b < s.len() + 1 implies #[trigger] s.push((key, value))[a].0@
                            != #[trigger] s.push((key, value))[b].0@ by {
                            if b < s.len() {
                                assert(s[a].0@ != s[b].0@);
                            }
                        }
                    }
                    assert(s.push((key, value)).drop_last() =~= s);
                }
                let mut entries = Vec::new();
                std::mem::swap(&mut entries, &mut self.entries);
                entries.push((key, value));
                self.entries = entries;
                None
            },
        }
    }

    /// The value of `key`, if it is set.
    pub fn get(&self, key: &str) -> (value: Option<&String>)
        ensures
            match value {
                Some(v) => self@.contains_key(key@) && v@ == self@[key@],
                None => !self@.contains_key(key@),
            },
    {
        proof {
            use_type_invariant(self);
            lemma_pairs_map(self.entries@);
        }
        let key = key.to_string();
        match self.position(&key) {
            Some(i) => Some(&self.entries[i].1),
            None => None,
        }
    }

    /// Whether `key` is set.
    pub fn contains_key(&self, key: &str) -> (present: bool)
        ensures
            present == self@.contains_key(key@),
    {
        self.get(key).is_some()
    }

    /// The number of properties set.
    pub fn len(&self) -> (n: usize)
        ensures
            n == self@.len(),
            self@.dom().finite(),
    {
        proof {
            use_type_invariant(self);
            lemma_pairs_map(self.entries@);
        }
        self.entries.len()
    }

    /// Whether no property is set.
    pub fn is_empty(&self) -> (empty: bool)
        ensures
            empty == (self@.len() == 0),
    {
        self.len() == 0
    }

    /// The properties as key/value pairs, each key once, in no particular
    /// order.
    pub fn entries(&self) -> (pairs: &Vec<(String, String)>)
        ensures
            keys_distinct(pairs@),
            pairs_map(pairs@) == self@,
    {
        proof {
            use_type_invariant(self);
        }
        &self.entries
    }
}

} // verus!
