//! The registry of change handlers, keyed by the ids that the JVM side holds,
//! and the delivery of batches and errors to them.

use std::collections::HashMap;
use vstd::prelude::*;
use crate::handler::ChangeHandler;
use crate::types::{ChangeEvent, opt_view};

verus! {

broadcast use vstd::std_specs::hash::group_hash_axioms;

/// The smallest of three lengths.
pub open spec fn min3(a: int, b: int, c: int) -> int {
    if a <= b && a <= c {
        a
    } else if b <= c {
        b
    } else {
        c
    }
}

/// The event at index `i` is made of the `i`th key, value and destination.
pub open spec fn event_from_parts(
    e: ChangeEvent,
    keys: Seq<Option<String>>,
    values: Seq<Option<String>>,
    destinations: Seq<Option<String>>,
    i: int,
) -> bool {
    &&& opt_view(e.key) == opt_view(keys[i])
    &&& opt_view(e.value) == opt_view(values[i])
    &&& opt_view(e.destination) == opt_view(destinations[i])
}

fn clone_text(s: &Option<String>) -> (c: Option<String>)
    ensures
        opt_view(c) == opt_view(*s),
{
    match s {
        Some(t) => Some(t.clone()),
        None => None,
    }
}

/// Pairs up the keys, values and destinations of a batch into change
/// events, position by position; the batch is as long as the shortest of
/// the three.
pub fn assemble_batch(
    keys: &Vec<Option<String>>,
    values: &Vec<Option<String>>,
    destinations: &Vec<Option<String>>,
) -> (records: Vec<ChangeEvent>)
    ensures
        records@.len() == min3(keys@.len() as int, values@.len() as int, destinations@.len() as int),
        records@.len() <= keys@.len(),
        records@.len() <= values@.len(),
        records@.len() <= destinations@.len(),
        records@.len() == keys@.len() || records@.len() == values@.len() || records@.len()
            == destinations@.len(),
        forall|i: int|
            0 <= i < records@.len() ==> #[trigger] event_from_parts(
                records@[i],
                keys@,
                values@,
                destinations@,
                i,
            ),
        forall|i: int|
            0 <= i < records@.len() ==> opt_view((#[trigger] records@[i]).key) == opt_view(keys@[i])
                && opt_view(records@[i].value) == opt_view(values@[i]) && opt_view(
                records@[i].destination,
            ) == opt_view(destinations@[i]),
{
    let mut n = keys.len();
    if values.len() < n {
        n = values.len();
    }
    if destinations.len() < n {
        n = destinations.len();
    }
    let mut records: Vec<ChangeEvent> = Vec::new();
    let mut i: usize = 0;
    while i < n
        invariant
            n <= keys@.len(),
            n <= values@.len(),
            n <= destinations@.len(),
            n == min3(keys@.len() as int, values@.len() as int, destinations@.len() as int),
            i <= n,
            records@.len() == i,
            forall|j: int|
                0 <= j < i ==> #[trigger] event_from_parts(
                    records@[j],
                    keys@,
                    values@,
                    destinations@,
                    j,
                ),
        decreases n - i,
    {
        let event = ChangeEvent {
            key: clone_text(&keys[i]),
            value: clone_text(&values[i]),
            destination: clone_text(&destinations[i]),
        };
        records.push(event);
        i = i + 1;
    }
    proof {
        assert forall|i: int| 0 <= i < records@.len() implies opt_view((#[trigger] records@[i]).key)
            == opt_view(keys@[i]) && opt_view(records@[i].value) == opt_view(values@[i])
            && opt_view(records@[i].destination) == opt_view(destinations@[i]) by {
            assert(event_from_parts(records@[i], keys@, values@, destinations@, i));
        }
    }
    records
}

/// The text handed to a handler's `on_error`: the error read from the JVM,
/// or "Unknown error" where none could be read.
pub open spec fn error_or_unknown(error: Option<String>) -> Seq<char> {
    match error {
        Some(e) => e@,
        None => "Unknown error"@,
    }
}

/// The text handed to a handler's `on_error`, as `error_or_unknown` says.
pub fn error_text_or_unknown(error: Option<String>) -> (text: String)
    ensures
        text@ == error_or_unknown(error),
{
    match error {
        Some(e) => e,
        None => "Unknown error".to_string(),
    }
}

/// The change handlers of the running engines, each under the id that the
/// JVM side passes back with every batch.
pub struct HandlerRegistry<H> {
    handlers: HashMap<i64, H>,
    next_id: i64,
}

impl<H> HandlerRegistry<H> {
    #[verifier::type_invariant]
    closed spec fn inv(self) -> bool {
        &&& 1 <= self.next_id
        &&& forall|id: i64| #[trigger] self.handlers@.contains_key(id) ==> 1 <= id < self.next_id
    }

    /// The registered handlers by id.
    pub closed spec fn handlers_view(&self) -> Map<i64, H> {
        self.handlers@
    }

    /// The ids under which a handler is registered.
    pub open spec fn ids(&self) -> Set<i64> {
        self.handlers_view().dom()
    }

    /// How many handlers have been given an id since the registry was made.
    pub closed spec fn registrations(&self) -> int {
        self.next_id - 1
    }

    /// Whether another handler can be given a fresh id.
    pub closed spec fn can_register(&self) -> bool {
        self.next_id < i64::MAX
    }

    /// A registry can give out ids until every positive `i64` has been
    /// handed out: after fewer than 2^63 - 2 registrations it still
    /// registers.
    pub proof fn law_registers_until_ids_run_out(&self)
        ensures
            self.can_register() <==> self.registrations() < i64::MAX - 1,
    {
    }

    /// A registry with no handler in it.
    pub fn new() -> (r: HandlerRegistry<H>)
        ensures
            r.handlers_view() == Map::<i64, H>::empty(),
            r.can_register(),
            r.registrations() == 0,
    {
        HandlerRegistry { handlers: HashMap::new(), next_id: 1 }
    }

    /// Whether another handler can be given a fresh id (false only after
    /// about 2^63 registrations).
    pub fn has_free_id(&self) -> (free: bool)
        ensures
            free == self.can_register(),
            free == (self.registrations() < i64::MAX - 1),
    {
        self.next_id < i64::MAX
    }

    /// Whether a handler is registered under `id`.
    pub fn contains(&self, id: i64) -> (present: bool)
        ensures
            present == self.ids().contains(id),
    {
        self.handlers.contains_key(&id)
    }

    /// The handler registered under `id`, if any.
    pub fn get(&self, id: i64) -> (handler: Option<&H>)
        ensures
            match handler {
                Some(h) => self.handlers_view().contains_key(id) && *h == self.handlers_view()[id],
                None => !self.handlers_view().contains_key(id),
            },
    {
        self.handlers.get(&id)
    }

    /// Registers a handler and returns its id: a positive id under which no
    /// handler was registered, the other handlers staying as they were.
    /// Only when every id has been handed out (after 2^63 - 2
    /// registrations) is the handler refused, with `None`, and the registry
    /// left as it was.
    pub fn register(&mut self, handler: H) -> (id: Option<i64>)
        ensures
            match id {
                Some(i) => {
                    &&& i >= 1
                    &&& i == old(self).registrations() + 1
                    &&& !old(self).ids().contains(i)
                    &&& final(self).handlers_view() == old(self).handlers_view().insert(i, handler)
                    &&& final(self).registrations() == old(self).registrations() + 1
                },
                None => !old(self).can_register() && final(self).handlers_view()
                    == old(self).handlers_view() && old(self).registrations() == i64::MAX - 1
                    && final(self).registrations() == old(self).registrations(),
            },
            0 <= old(self).registrations() <= i64::MAX - 1,
            old(self).registrations() < i64::MAX - 1 ==> id is Some,
    {
        proof {
            use_type_invariant(&*self);
        }
        if self.next_id == i64::MAX {
            return None;
        }
        let id = self.next_id;
        let mut handlers = HashMap::new();
        std::mem::swap(&mut handlers, &mut self.handlers);
        handlers.insert(id, handler);
        self.next_id = id + 1;
        self.handlers = handlers;
        Some(id)
    }

    /// Removes the handler registered under `id`, if any, and hands it back;
    /// the other handlers stay as they were.
    pub fn unregister(&mut self, id: i64) -> (removed: Option<H>)
        ensures
            final(self).registrations() == old(self).registrations(),
            final(self).handlers_view() == old(self).handlers_view().remove(id),
            match removed {
                Some(h) => old(self).handlers_view().contains_key(id) && h == old(self).handlers_view()[id],
                None => !old(self).handlers_view().contains_key(id),
            },
    {
        proof {
            use_type_invariant(&*self);
        }
        let mut handlers = HashMap::new();
        std::mem::swap(&mut handlers, &mut self.handlers);
        let removed = handlers.remove(&id);
        self.handlers = handlers;
        removed
    }

    /// The handler registered under `id` together with the batch it is to
    /// receive, built from the keys, values and destinations as
    /// `assemble_batch` does; `None` when no handler is registered under `id`.
    pub fn prepare_batch(
        &self,
        id: i64,
        keys: &Vec<Option<String>>,
        values: &Vec<Option<String>>,
        destinations: &Vec<Option<String>>,
    ) -> (prepared: Option<(&H, Vec<ChangeEvent>)>)
        ensures
            match prepared {
                Some((handler, records)) => {
                    &&& self.ids().contains(id)
                    &&& *handler == self.handlers_view()[id]
                    &&& records@.len() == min3(
                        keys@.len() as int,
                        values@.len() as int,
                        destinations@.len() as int,
                    )
                    &&& records@.len() <= keys@.len() && records@.len() <= values@.len()
                        && records@.len() <= destinations@.len()
                    &&& (records@.len() == keys@.len() || records@.len() == values@.len()
                        || records@.len() == destinations@.len())
                    &&& forall|i: int|
                        0 <= i < records@.len() ==> #[trigger] event_from_parts(
                            records@[i],
                            keys@,
                            values@,
                            destinations@,
                            i,
                        )
                },
                None => !self.ids().contains(id),
            },
    {
        match self.get(id) {
            Some(handler) => Some((handler, assemble_batch(keys, values, destinations))),
            None => None,
        }
    }

    /// The handler registered under `id` together with the error text it is
    /// to receive, as `error_or_unknown` gives it; `None` when no handler is
    /// registered under `id`.
    pub fn prepare_error(&self, id: i64, error: Option<String>) -> (prepared: Option<(&H, String)>)
        ensures
            match prepared {
                Some((handler, text)) => self.ids().contains(id) && *handler
                    == self.handlers_view()[id] && text@ == error_or_unknown(error),
                None => !self.ids().contains(id),
            },
    {
        match self.get(id) {
            Some(handler) => Some((handler, error_text_or_unknown(error))),
            None => None,
        }
    }
}

impl<H: ChangeHandler> HandlerRegistry<H> {
    /// Hands the batch that `prepare_batch` builds to the handler it picks; returns whether a
    /// handler was registered under `id` (no handler is called otherwise).
    pub fn dispatch_batch(
        &self,
        id: i64,
        keys: &Vec<Option<String>>,
        values: &Vec<Option<String>>,
        destinations: &Vec<Option<String>>,
    ) -> (delivered: bool)
        ensures
            delivered == self.ids().contains(id),
            delivered ==> exists|records: &[ChangeEvent]|
                {
                    &&& records@.len() == min3(
                        keys@.len() as int,
                        values@.len() as int,
                        destinations@.len() as int,
                    )
                    &&& records@.len() <= keys@.len() && records@.len() <= values@.len()
                        && records@.len() <= destinations@.len()
                    &&& (records@.len() == keys@.len() || records@.len() == values@.len()
                        || records@.len() == destinations@.len())
                    &&& (forall|i: int|
                        0 <= i < records@.len() ==> #[trigger] event_from_parts(
                            records@[i],
                            keys@,
                            values@,
                            destinations@,
                            i,
                        ))
                    &&& call_ensures(
                        <H as ChangeHandler>::handle_batch,
                        (&self.handlers_view()[id], records),
                        (),
                    )
                },
    {
        match self.prepare_batch(id, keys, values, destinations) {
            Some((handler, records)) => {
                handler.handle_batch(records.as_slice());
                true
            },
            None => false,
        }
    }

    /// Hands the error text that `prepare_error` gives to the handler it
    /// picks, calling its `on_error` with it; returns whether a handler was
    /// registered under `id` (no handler is called otherwise).
    pub fn dispatch_error(&self, id: i64, error: Option<String>) -> (delivered: bool)
        ensures
            delivered == self.ids().contains(id),
            delivered ==> exists|text: &str|
                text@ == error_or_unknown(error) && call_ensures(
                    <H as ChangeHandler>::on_error,
                    (&self.handlers_view()[id], text),
                    (),
                ),
    {
        match self.prepare_error(id, error) {
            Some((handler, text)) => {
                handler.on_error(text.as_str());
                true
            },
            None => false,
        }
    }
}

} // verus!
