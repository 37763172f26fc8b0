//! Closure-based event handling: events are routed to handlers by their key.

use vstd::prelude::*;

verus! {

/// Event which returns a string corresponding to the current event variant.
pub trait Event {
    /// The key of the event, as characters. An implementation states it; left unstated,
    /// nothing is known of it.
    open spec fn spec_key(&self) -> Seq<char> {
        arbitrary()
    }

    /// The key of the event.
    fn get_key(&self) -> (k: &'static str)
        ensures
            k@ == self.spec_key(),
    ;
}

/// Whether two string slices hold the same characters.
fn same_key(a: &str, b: &str) -> (r: bool)
    ensures
        r == (a@ == b@),
{
    let x = a.to_owned();
    let y = b.to_owned();
    x == y
}

/// Stores a list of event handlers, not bound to any event queue.
/// Each key has at most one handler; binding a key again replaces its handler.
pub struct UnboundTerminal<H> {
    keys: Vec<&'static str>,
    handlers: Vec<H>,
}

impl<H> UnboundTerminal<H> {
    /// The keys that have a handler, in the order they were first bound.
    pub closed spec fn spec_keys(&self) -> Seq<Seq<char>> {
        self.keys@.map_values(|k: &'static str| k@)
    }

    /// The handlers, in the order of `spec_keys`.
    pub closed spec fn spec_handlers(&self) -> Seq<H> {
        self.handlers@
    }

    /// One handler per key, and no key twice.
    pub closed spec fn wf(&self) -> bool {
        &&& self.keys.len() == self.handlers.len()
        &&& forall|i: int, j: int|
            0 <= i < j < self.keys.len() ==> #[trigger] self.keys@[i]@ != #[trigger] self.keys@[j]@
    }

    /// Where the handler of `key` stands, if `key` has one.
    pub open spec fn spec_index_of(&self, key: Seq<char>) -> Option<int> {
        if exists|i: int| 0 <= i < self.spec_keys().len() && self.spec_keys()[i] == key {
            Some(choose|i: int| 0 <= i < self.spec_keys().len() && self.spec_keys()[i] == key)
        } else {
            None
        }
    }

    /// The handler bound to `key`, if any.
    pub open spec fn spec_handler_for(&self, key: Seq<char>) -> Option<H> {
        match self.spec_index_of(key) {
            Some(i) => Some(self.spec_handlers()[i]),
            None => None,
        }
    }

    /// Creates an empty, unbound terminal.
    pub fn new() -> (r: Self)
        ensures
            r.wf(),
            r.spec_keys().len() == 0,
            r.spec_handlers().len() == 0,
    {
        UnboundTerminal { keys: Vec::new(), handlers: Vec::new() }
    }

    /// The number of keys that have a handler.
    pub fn len(&self) -> (r: usize)
        requires
            self.wf(),
        ensures
            r == self.spec_keys().len(),
            r == self.spec_handlers().len(),
    {
        self.handlers.len()
    }

    /// Where the handler of `key` stands, if `key` has one.
    pub fn handler_index(&self, key: &str) -> (r: Option<usize>)
        requires
            self.wf(),
        ensures
            r is None <==> !self.spec_keys().contains(key@),
            r matches Some(i) ==> i < self.spec_keys().len() && self.spec_keys()[i as int] == key@,
    {
        let mut i: usize = 0;
        while i < self.keys.len()
            invariant
                self.wf(),
                0 <= i <= self.keys.len(),
                forall|j: int| 0 <= j < i ==> self.spec_keys()[j] != key@,
            decreases self.keys.len() - i,
        {
            if same_key(self.keys[i], key) {
                assert(self.spec_keys()[i as int] == key@);
                return Some(i);
            }
            i += 1;
        }
        None
    }

    /// Binds an event key to a handler. A key bound before keeps its place and gets the new
    /// handler; a new key is added last.
    pub fn on(self, ev: &'static str, handler: H) -> (r: Self)
        requires
            self.wf(),
        ensures
            r.wf(),
            self.spec_keys().contains(ev@) ==> {
                &&& r.spec_keys() == self.spec_keys()
                &&& r.spec_handlers() == self.spec_handlers().update(
                    self.spec_keys().index_of(ev@),
                    handler,
                )
            },
            !self.spec_keys().contains(ev@) ==> {
                &&& r.spec_keys() == self.spec_keys().push(ev@)
                &&& r.spec_handlers() == self.spec_handlers().push(handler)
            },
            r.spec_handler_for(ev@) == Some(handler),
            forall|k: Seq<char>| k != ev@ ==> #[trigger] r.spec_handler_for(k) == self.spec_handler_for(k),
    {
        let mut t = self;
        match t.handler_index(ev) {
            Some(i) => {
                proof {
                    let j = self.spec_keys().index_of(ev@);
                    assert(self.keys@[j]@ == self.keys@[i as int]@);
                }
                t.handlers.set(i, handler);
                proof {
                    lemma_index_of_at(&t, ev@, i as int);
                    assert forall|k: Seq<char>| k != ev@ implies #[trigger] t.spec_handler_for(k)
                        == self.spec_handler_for(k) by {
                        if self.spec_keys().contains(k) {
                            let p = choose|p: int| 0 <= p < self.spec_keys().len() && self.spec_keys()[p] == k;
                            lemma_index_of_at(&self, k, p);
                            lemma_index_of_at(&t, k, p);
                        } else {
                            lemma_index_of_absent(&self, k);
                            lemma_index_of_absent(&t, k);
                        }
                    }
                }
            },
            None => {
                t.keys.push(ev);
                t.handlers.push(handler);
                proof {
                    assert(t.spec_keys() =~= self.spec_keys().push(ev@));
                    assert forall|i: int, j: int| 0 <= i < j < t.keys.len() implies #[trigger] t.keys@[i]@
                        != #[trigger] t.keys@[j]@ by {
                        if j == t.keys.len() - 1 {
                            assert(self.spec_keys()[i] == self.keys@[i]@);
                        }
                    }
                    let n = self.spec_keys().len() as int;
                    assert(t.spec_keys()[n] == ev@);
                    lemma_index_of_at(&t, ev@, n);
                    assert forall|k: Seq<char>| k != ev@ implies #[trigger] t.spec_handler_for(k)
                        == self.spec_handler_for(k) by {
                        if self.spec_keys().contains(k) {
                            let p = choose|p: int| 0 <= p < self.spec_keys().len() && self.spec_keys()[p] == k;
                            lemma_index_of_at(&self, k, p);
                            assert(t.spec_keys()[p] == k);
                            lemma_index_of_at(&t, k, p);
                        } else {
                            lemma_index_of_absent(&self, k);
                            assert(!t.spec_keys().contains(k)) by {
                                if t.spec_keys().contains(k) {
                                    let p = choose|p: int| 0 <= p < t.spec_keys().len() && t.spec_keys()[p] == k;
                                    assert(p < n);
                                    assert(self.spec_keys()[p] == k);
                                }
                            }
                            lemma_index_of_absent(&t, k);
                        }
                    }
                }
            },
        }
        t
    }

    /// The handler at a given place, for calling it.
    pub fn handler_mut(&mut self, i: usize) -> (r: &mut H)
        requires
            old(self).wf(),
            i < old(self).spec_handlers().len(),
        ensures
            *r == old(self).spec_handlers()[i as int],
            final(self).wf(),
            final(self).spec_keys() == old(self).spec_keys(),
            final(self).spec_handlers() == old(self).spec_handlers().update(i as int, *final(r)),
    {
        &mut self.handlers[i]
    }

    /// For each event in order whose key has a handler: the event's place and the handler's place.
    pub open spec fn spec_routes(&self, event_keys: Seq<Seq<char>>) -> Seq<(usize, usize)>
        decreases event_keys.len(),
    {
        if event_keys.len() == 0 {
            seq![]
        } else {
            let prev = self.spec_routes(event_keys.drop_last());
            match self.spec_index_of(event_keys.last()) {
                Some(h) => prev.push(((event_keys.len() - 1) as usize, h as usize)),
                None => prev,
            }
        }
    }

    /// Routes a batch of events: for each event, in order, whose key has a handler, the event's
    /// place and the place of the handler to invoke with it. Events whose key has no handler
    /// are skipped.
    pub fn dispatch<E: Event>(&self, events: &Vec<E>) -> (r: Vec<(usize, usize)>)
        requires
            self.wf(),
        ensures
            r@ == self.spec_routes(events@.map_values(|e: E| e.spec_key())),
    {
        let ghost ks = events@.map_values(|e: E| e.spec_key());
        let mut r: Vec<(usize, usize)> = Vec::new();
        let mut i: usize = 0;
        while i < events.len()
            invariant
                self.wf(),
                0 <= i <= events.len(),
                ks == events@.map_values(|e: E| e.spec_key()),
                r@ == self.spec_routes(ks.take(i as int)),
            decreases events.len() - i,
        {
            proof {
                assert(ks.take(i + 1).drop_last() =~= ks.take(i as int));
                assert(ks.take(i + 1).last() == events@[i as int].spec_key());
            }
            let key = events[i].get_key();
            match self.handler_index(key) {
                Some(h) => {
                    proof {
                        let j = choose|j: int|
                            0 <= j < self.spec_keys().len() && self.spec_keys()[j] == key@;
                        assert(self.keys@[j]@ == self.keys@[h as int]@);
                        assert(j == h);
                    }
                    r.push((i, h));
                },
                None => {},
            }
            i += 1;
        }
        proof {
            assert(ks.take(events.len() as int) =~= ks);
        }
        r
    }
}

/// The key at place `i` has its handler there: no other place holds the same key.
proof fn lemma_index_of_at<H>(t: &UnboundTerminal<H>, key: Seq<char>, i: int)
    requires
        t.wf(),
        0 <= i < t.spec_keys().len(),
        t.spec_keys()[i] == key,
    ensures
        t.spec_index_of(key) == Some(i),
{
    let j = choose|j: int| 0 <= j < t.spec_keys().len() && t.spec_keys()[j] == key;
    assert(t.spec_keys()[j] == t.keys@[j]@);
    assert(t.spec_keys()[i] == t.keys@[i]@);
    if j != i {
        if j < i {
            assert(t.keys@[j]@ != t.keys@[i]@);
        } else {
            assert(t.keys@[i]@ != t.keys@[j]@);
        }
    }
}

/// A key without a handler has no place.
proof fn lemma_index_of_absent<H>(t: &UnboundTerminal<H>, key: Seq<char>)
    requires
        !t.spec_keys().contains(key),
    ensures
        t.spec_index_of(key) is None,
{
}

/// Every routed event goes to the handler bound to its own key, events come in their order,
/// and every event whose key is bound is routed.
pub proof fn lemma_routes_match_keys<H>(t: &UnboundTerminal<H>, event_keys: Seq<Seq<char>>)
    requires
        t.wf(),
        event_keys.len() <= usize::MAX,
    ensures
        forall|r: int|
            0 <= r < t.spec_routes(event_keys).len() ==> {
                let (e, h) = #[trigger] t.spec_routes(event_keys)[r];
                &&& e < event_keys.len()
                &&& h < t.spec_keys().len()
                &&& t.spec_keys()[h as int] == event_keys[e as int]
            },
        forall|r: int, q: int|
            0 <= r < q < t.spec_routes(event_keys).len() ==> (#[trigger] t.spec_routes(
                event_keys,
            )[r]).0 < (#[trigger] t.spec_routes(event_keys)[q]).0,
        forall|e: int|
            0 <= e < event_keys.len() && t.spec_keys().contains(#[trigger] event_keys[e])
                ==> exists|r: int|
                0 <= r < t.spec_routes(event_keys).len() && t.spec_routes(event_keys)[r].0 == e,
    decreases event_keys.len(),
{
    if event_keys.len() > 0 {
        let prev_keys = event_keys.drop_last();
        lemma_routes_match_keys(t, prev_keys);
        let prev = t.spec_routes(prev_keys);
        let cur = t.spec_routes(event_keys);
        let last = (event_keys.len() - 1) as int;
        assert forall|e: int|
            0 <= e < event_keys.len() && t.spec_keys().contains(#[trigger] event_keys[e]) implies exists|r: int|
            0 <= r < cur.len() && cur[r].0 == e by {
            if e < last {
                assert(prev_keys[e] == event_keys[e]);
                let r = choose|r: int| 0 <= r < prev.len() && prev[r].0 == e;
                assert(cur[r] == prev[r]);
            } else {
                let i = choose|i: int|
                    0 <= i < t.spec_keys().len() && t.spec_keys()[i] == event_keys[e];
                assert(event_keys.last() == event_keys[e]);
                assert(t.spec_keys()[i] == event_keys.last());
                assert(t.spec_index_of(event_keys.last()) is Some);
                assert(cur[prev.len() as int].0 == e);
            }
        }
    }
}

/// Dispatching reaches, for each event in order, exactly the handler bound to the event's key
/// (so after `on(k, h)` every later event with key `k` reaches `h` alone, and events with other
/// keys reach what they reached before), each event at most once, and every event whose key is
/// bound is dispatched.
pub proof fn lemma_dispatch_reaches_bound_handler<H>(t: &UnboundTerminal<H>, event_keys: Seq<Seq<char>>)
    requires
        t.wf(),
        event_keys.len() <= usize::MAX,
    ensures
        forall|r: int|
            0 <= r < t.spec_routes(event_keys).len() ==> {
                let (e, h) = #[trigger] t.spec_routes(event_keys)[r];
                &&& e < event_keys.len()
                &&& h < t.spec_handlers().len()
                &&& t.spec_handler_for(event_keys[e as int]) == Some(t.spec_handlers()[h as int])
            },
        forall|r: int, q: int|
            0 <= r < q < t.spec_routes(event_keys).len() ==> (#[trigger] t.spec_routes(
                event_keys,
            )[r]).0 < (#[trigger] t.spec_routes(event_keys)[q]).0,
        forall|e: int|
            0 <= e < event_keys.len() && (#[trigger] t.spec_handler_for(event_keys[e])) is Some
                ==> exists|r: int|
                0 <= r < t.spec_routes(event_keys).len() && t.spec_routes(event_keys)[r].0 == e,
{
    lemma_routes_match_keys(t, event_keys);
    let routes = t.spec_routes(event_keys);
    assert forall|r: int| 0 <= r < routes.len() implies {
        let (e, h) = #[trigger] routes[r];
        &&& e < event_keys.len()
        &&& h < t.spec_handlers().len()
        &&& t.spec_handler_for(event_keys[e as int]) == Some(t.spec_handlers()[h as int])
    } by {
        let (e, h) = routes[r];
        lemma_index_of_at(t, event_keys[e as int], h as int);
    }
    assert forall|e: int|
        0 <= e < event_keys.len() && (#[trigger] t.spec_handler_for(event_keys[e])) is Some
        implies t.spec_keys().contains(event_keys[e]) by {
        let i = choose|i: int| 0 <= i < t.spec_keys().len() && t.spec_keys()[i] == event_keys[e];
        assert(t.spec_keys()[i] == event_keys[e]);
    }
}

} // verus!
