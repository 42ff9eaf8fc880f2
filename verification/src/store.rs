//! The dispatch table: at most one handler for each event name and version.

use vstd::prelude::*;
use crate::events::RequestEvent;
use crate::handlers::{EventHandler, FnForwardHandler, HandlerResult};
use crate::text::same_text;

verus! {

/// A lookup from event name and version to a handler.
pub trait EventStore {
    /// The type of the handlers that the store holds.
    type Handler: EventHandler;

    /// The handler registered for exactly this name and version, if any.
    spec fn resolve(&self, name: Seq<char>, version: u16) -> Option<Self::Handler>;

    /// Looks up the handler for exactly this name and version. That none is
    /// registered is an ordinary answer.
    fn handler_for(&self, event_name: &str, version: u16) -> (r: Option<&Self::Handler>)
        ensures
            match self.resolve(event_name@, version) {
                Some(handler) => r == Some(&handler),
                None => r is None,
            },
    ;
}

struct Entry<H> {
    name: String,
    version: u16,
    handler: H,
}

impl<H> Entry<H> {
    spec fn key(&self) -> (Seq<char>, u16) {
        (self.name@, self.version)
    }
}

/// The entry at `i` is registered under `key`.
spec fn holds<H>(entries: Seq<Entry<H>>, key: (Seq<char>, u16), i: int) -> bool {
    0 <= i < entries.len() && entries[i].key() == key
}

/// No key is held by two entries.
spec fn distinct<H>(entries: Seq<Entry<H>>) -> bool {
    forall|i: int, j: int| 0 <= i < j < entries.len() ==> entries[i].key() != entries[j].key()
}

/// The entries as a map from key to handler.
spec fn table_of<H>(entries: Seq<Entry<H>>) -> Map<(Seq<char>, u16), H> {
    Map::new(
        |key: (Seq<char>, u16)| exists|i: int| holds(entries, key, i),
        |key: (Seq<char>, u16)| entries[choose|i: int| holds(entries, key, i)].handler,
    )
}

/// Among distinct entries, the table holds under the key of an entry the
/// handler of that entry.
proof fn lemma_table_at<H>(entries: Seq<Entry<H>>, i: int)
    requires
        distinct(entries),
        0 <= i < entries.len(),
    ensures
        table_of(entries).contains_key(entries[i].key()),
        table_of(entries)[entries[i].key()] == entries[i].handler,
{
    let key = entries[i].key();
    assert(holds(entries, key, i));
    let found = choose|j: int| holds(entries, key, j);
    assert(holds(entries, key, found));
    assert(found == i);
}

/// The index of the entry registered under a name and version.
fn position<H>(entries: &Vec<Entry<H>>, name: &str, version: u16) -> (r: Option<usize>)
    ensures
        match r {
            Some(i) => holds(entries@, (name@, version), i as int),
            None => forall|i: int| !holds(entries@, (name@, version), i),
        },
{
    let mut i: usize = 0;
    while i < entries.len()
        invariant
            i <= entries@.len(),
            forall|j: int| 0 <= j < i ==> !holds(entries@, (name@, version), j),
        decreases entries@.len() - i,
    {
        let entry = &entries[i];
        if entry.version == version && same_text(entry.name.as_str(), name) {
            return Some(i);
        }
        i += 1;
    }
    None
}

/// Sets the handler of a key: in place where the key is held, else at the
/// end.
fn put<H>(entries: &mut Vec<Entry<H>>, name: &str, version: u16, handler: H)
    requires
        distinct(old(entries)@),
    ensures
        distinct(final(entries)@),
        table_of(final(entries)@) == table_of(old(entries)@).insert((name@, version), handler),
{
    let ghost key = (name@, version);
    let ghost before = entries@;
    let ghost at: int;
    let entry = Entry { name: name.to_owned(), version, handler };
    match position(entries, name, version) {
        Some(i) => {
            entries.set(i, entry);
            proof {
                at = i as int;
            }
        },
        None => {
            entries.push(entry);
            proof {
                at = before.len() as int;
                assert forall|j: int| 0 <= j < at implies !holds(before, key, j) by {}
            }
        },
    }
    proof {
        let after = entries@;
        assert(holds(after, key, at));
        assert(after[at].handler == handler);
        assert forall|j: int| 0 <= j < after.len() && j != at implies after[j] == before[j]
            && after[j].key() != key by {
            assert(holds(before, before[j].key(), j));
        }
        assert(distinct(after));
        let expected = table_of(before).insert(key, handler);
        assert forall|k: (Seq<char>, u16)|
            table_of(after).contains_key(k) == expected.contains_key(k) by {
            if table_of(after).contains_key(k) && k != key {
                let j = choose|j: int| holds(after, k, j);
                assert(holds(after, k, j));
                assert(holds(before, k, j));
            }
            if expected.contains_key(k) && k != key {
                let j = choose|j: int| holds(before, k, j);
                assert(holds(before, k, j));
                assert(holds(after, k, j));
            }
        }
        assert forall|k: (Seq<char>, u16)| table_of(after).contains_key(k) implies table_of(
            after,
        )[k] == expected[k] by {
            let j = choose|j: int| holds(after, k, j);
            assert(holds(after, k, j));
            lemma_table_at(after, j);
            if k != key {
                assert(holds(before, k, j));
                lemma_table_at(before, j);
            }
        }
        assert(table_of(after) =~= expected);
    }
}

/// A dispatch table held in memory.
pub struct SimpleEventStore<H: EventHandler> {
    handlers: Vec<Entry<H>>,
}

impl<H: EventHandler> SimpleEventStore<H> {
    #[verifier::type_invariant]
    spec fn keys_are_distinct(&self) -> bool {
        distinct(self.handlers@)
    }

    /// The table as a map from name and version to the handler registered
    /// for them.
    pub closed spec fn view(&self) -> Map<(Seq<char>, u16), H> {
        table_of(self.handlers@)
    }

    /// Makes an empty table.
    pub fn new() -> (r: Self)
        ensures
            r@ == Map::<(Seq<char>, u16), H>::empty(),
            forall|name: Seq<char>, version: u16| r.resolve(name, version) is None,
    {
        let r = SimpleEventStore { handlers: Vec::new() };
        proof {
            assert(r@ =~= Map::<(Seq<char>, u16), H>::empty());
        }
        r
    }

    /// Registers a handler for a name and version. A handler registered
    /// before for the same name and version is replaced; the handlers of all
    /// other names and versions stay. No name is refused.
    pub fn register(&mut self, name: &str, version: u16, handler: H)
        ensures
            final(self)@ == old(self)@.insert((name@, version), handler),
    {
        proof {
            use_type_invariant(&*self);
        }
        let mut entries: Vec<Entry<H>> = Vec::new();
        std::mem::swap(&mut entries, &mut self.handlers);
        put(&mut entries, name, version, handler);
        self.handlers = entries;
    }
}

impl<T: Fn(&RequestEvent) -> HandlerResult> SimpleEventStore<FnForwardHandler<T>> {
    /// Registers a function as the handler for a name and version, replacing
    /// the one registered before for them, if any. The function must accept
    /// every request.
    pub fn add(&mut self, name: &str, version: u16, handler: T)
        requires
            forall|event: &RequestEvent| call_requires(handler, (event,)),
        ensures
            final(self)@.dom() == old(self)@.dom().insert((name@, version)),
            final(self).resolve(name@, version) is Some,
            final(self).resolve(name@, version).unwrap().inner() == handler,
            forall|other: Seq<char>, v: u16|
                (other, v) != (name@, version) ==> final(self).resolve(other, v) == old(
                    self,
                ).resolve(other, v),
    {
        self.register(name, version, FnForwardHandler::new(handler));
    }
}

impl<H: EventHandler> EventStore for SimpleEventStore<H> {
    type Handler = H;

    open spec fn resolve(&self, name: Seq<char>, version: u16) -> Option<H> {
        if self@.contains_key((name, version)) {
            Some(self@[(name, version)])
        } else {
            None
        }
    }

    fn handler_for(&self, event_name: &str, version: u16) -> (r: Option<&H>) {
        proof {
            use_type_invariant(self);
        }
        match position(&self.handlers, event_name, version) {
            Some(i) => {
                proof {
                    lemma_table_at(self.handlers@, i as int);
                }
                Some(&self.handlers[i].handler)
            },
            None => None,
        }
    }
}

/// A boxed store answers as the store in the box does.
impl<S: EventStore + ?Sized> EventStore for Box<S> {
    type Handler = S::Handler;

    open spec fn resolve(&self, name: Seq<char>, version: u16) -> Option<S::Handler> {
        (**self).resolve(name, version)
    }

    fn handler_for(&self, event_name: &str, version: u16) -> (r: Option<&S::Handler>) {
        (**self).handler_for(event_name, version)
    }
}

impl<H: EventHandler> Default for SimpleEventStore<H> {
    fn default() -> (r: Self)
        ensures
            r@ == Map::<(Seq<char>, u16), H>::empty(),
            forall|name: Seq<char>, version: u16| r.resolve(name, version) is None,
    {
        Self::new()
    }
}

/// Re-registration law: registering twice for the same name and version
/// leaves the table as if only the second handler had been registered. The
/// key holds the second handler and every other key is untouched by either
/// registration.
pub proof fn lemma_second_registration_wins<H>(
    table: Map<(Seq<char>, u16), H>,
    name: Seq<char>,
    version: u16,
    first: H,
    second: H,
)
    ensures
        table.insert((name, version), first).insert((name, version), second) == table.insert(
            (name, version),
            second,
        ),
        table.insert((name, version), first).insert((name, version), second)[(name, version)]
            == second,
{
    assert(table.insert((name, version), first).insert((name, version), second) =~= table.insert(
        (name, version),
        second,
    ));
}

} // verus!
