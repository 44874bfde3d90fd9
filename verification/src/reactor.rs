//! The readiness reactor's decision core: a completion table keyed by
//! (descriptor, direction), and the dispatch of OS readiness events to the
//! wake handles stored in it. The OS multiplexer itself (registration
//! syscalls and the blocking wait) is driven by the embedding, which hands
//! each batch of observed events to [`Reactor::dispatch`].

use vstd::prelude::*;
use std::collections::HashMap;

verus! {

broadcast use vstd::std_specs::hash::group_hash_axioms;

/// A wake handle: the id of the task to reinsert into the ready queue when
/// the awaited readiness event arrives. The embedding maps ids to its own
/// suspended computations.
pub type WakeId = u64;

/// A reactor-held record pairing an interest key with the wake handle
/// waiting on it. Completing it consumes the handle exactly once; after
/// that, completing again yields nothing until a new handle is stored.
pub struct Completion {
    waker: Option<WakeId>,
}

impl Completion {
    /// The wake handle still pending in this record, if any.
    pub closed spec fn pending(self) -> Option<WakeId> {
        self.waker
    }

    /// How one `complete` call relates the record before (`pre`) and after
    /// (`post`), and the handle it delivered (`woken`).
    pub open spec fn complete_spec(pre: Self, post: Self, woken: Option<WakeId>) -> bool {
        &&& woken == pre.pending()
        &&& post.pending() is None
    }

    pub fn new(waker: WakeId) -> (c: Self)
        ensures
            c.pending() == Some(waker),
    {
        Self { waker: Some(waker) }
    }

    /// Consume the stored wake handle, if one is still pending, and hand it
    /// to the caller for delivery.
    pub fn complete(&mut self) -> (woken: Option<WakeId>)
        ensures
            Self::complete_spec(*old(self), *final(self), woken),
            woken == old(self).pending(),
            final(self).pending() is None,
    {
        let woken = self.waker;
        self.waker = None;
        woken
    }
}

/// Exactly-once wake delivery per registration: a completion completed once
/// delivers no wake handle on a second completion. Only an intervening
/// registration, which stores a fresh record with a pending handle, can make
/// a later completion deliver again.
pub proof fn lemma_complete_exactly_once(
    c0: Completion,
    c1: Completion,
    c2: Completion,
    w1: Option<WakeId>,
    w2: Option<WakeId>,
)
    requires
        Completion::complete_spec(c0, c1, w1),
        Completion::complete_spec(c1, c2, w2),
    ensures
        w2 is None,
{
}

/// A descriptor whose two direction keys both fit in `usize`.
pub open spec fn fd_in_range(fd: usize) -> bool {
    2 * fd + 1 <= usize::MAX
}

/// The interest key for the read direction of a descriptor.
pub open spec fn read_key(fd: usize) -> usize
    recommends
        fd_in_range(fd),
{
    (2 * fd) as usize
}

/// The interest key for the write direction of a descriptor.
pub open spec fn write_key(fd: usize) -> usize
    recommends
        fd_in_range(fd),
{
    (2 * fd + 1) as usize
}

/// The key encoding never collides: keys of distinct descriptors differ,
/// and the two directions of one descriptor differ from each other.
pub proof fn lemma_keys_distinct(a: usize, b: usize)
    requires
        fd_in_range(a),
        fd_in_range(b),
    ensures
        read_key(a) != write_key(b),
        a != b ==> read_key(a) != read_key(b),
        a != b ==> write_key(a) != write_key(b),
{
}

/// One OS readiness event, as reported by the multiplexer: the token (the
/// descriptor the event belongs to) and the directions that became ready.
#[derive(Clone, Copy)]
pub struct IoEvent {
    pub token: usize,
    pub readable: bool,
    pub writable: bool,
}

pub open spec fn event_in_range(e: IoEvent) -> bool {
    fd_in_range(e.token)
}

pub open spec fn events_in_range(evs: Seq<IoEvent>) -> bool {
    forall|i: int| 0 <= i < evs.len() ==> event_in_range(#[trigger] evs[i])
}

/// The completion table after the read half of one event.
pub open spec fn read_step_table(
    t: Map<usize, Option<WakeId>>,
    e: IoEvent,
) -> Map<usize, Option<WakeId>> {
    if e.readable {
        t.remove(read_key(e.token))
    } else {
        t
    }
}

/// The completion table after one whole event: each ready direction's key is
/// removed from the table.
pub open spec fn step_table(
    t: Map<usize, Option<WakeId>>,
    e: IoEvent,
) -> Map<usize, Option<WakeId>> {
    let t1 = read_step_table(t, e);
    if e.writable {
        t1.remove(write_key(e.token))
    } else {
        t1
    }
}

/// The wake handle delivered when key `k` of table `t` is completed: the
/// pending handle of the record stored there, if any.
pub open spec fn woken_at(t: Map<usize, Option<WakeId>>, k: usize) -> Seq<WakeId> {
    if t.contains_key(k) {
        match t[k] {
            Some(w) => seq![w],
            None => seq![],
        }
    } else {
        seq![]
    }
}

/// The wake handles delivered by one event, read direction first.
pub open spec fn step_woken(t: Map<usize, Option<WakeId>>, e: IoEvent) -> Seq<WakeId> {
    let from_read = if e.readable {
        woken_at(t, read_key(e.token))
    } else {
        seq![]
    };
    let from_write = if e.writable {
        woken_at(read_step_table(t, e), write_key(e.token))
    } else {
        seq![]
    };
    from_read + from_write
}

/// The completion table after a whole batch of events, in order.
pub open spec fn table_after(
    t: Map<usize, Option<WakeId>>,
    evs: Seq<IoEvent>,
) -> Map<usize, Option<WakeId>>
    decreases evs.len(),
{
    if evs.len() == 0 {
        t
    } else {
        table_after(step_table(t, evs[0]), evs.skip(1))
    }
}

/// The wake handles delivered by a whole batch of events, in event order.
pub open spec fn woken_after(t: Map<usize, Option<WakeId>>, evs: Seq<IoEvent>) -> Seq<WakeId>
    decreases evs.len(),
{
    if evs.len() == 0 {
        seq![]
    } else {
        step_woken(t, evs[0]) + woken_after(step_table(t, evs[0]), evs.skip(1))
    }
}

proof fn lemma_table_after_snoc(t: Map<usize, Option<WakeId>>, evs: Seq<IoEvent>, e: IoEvent)
    ensures
        table_after(t, evs.push(e)) == step_table(table_after(t, evs), e),
    decreases evs.len(),
{
    let s = evs.push(e);
    if evs.len() == 0 {
        assert(s[0] == e);
        assert(s.skip(1) =~= Seq::<IoEvent>::empty());
        assert(table_after(t, s) == table_after(step_table(t, s[0]), s.skip(1)));
        assert(table_after(step_table(t, e), Seq::<IoEvent>::empty()) == step_table(t, e));
        assert(table_after(t, evs) == t);
    } else {
        assert(s[0] == evs[0]);
        assert(s.skip(1) =~= evs.skip(1).push(e));
        lemma_table_after_snoc(step_table(t, evs[0]), evs.skip(1), e);
        assert(table_after(t, s) == table_after(step_table(t, s[0]), s.skip(1)));
        assert(table_after(t, evs) == table_after(step_table(t, evs[0]), evs.skip(1)));
    }
}

proof fn lemma_woken_after_snoc(t: Map<usize, Option<WakeId>>, evs: Seq<IoEvent>, e: IoEvent)
    ensures
        woken_after(t, evs.push(e)) == woken_after(t, evs) + step_woken(table_after(t, evs), e),
    decreases evs.len(),
{
    let s = evs.push(e);
    if evs.len() == 0 {
        assert(s[0] == e);
        assert(s.skip(1) =~= Seq::<IoEvent>::empty());
        assert(woken_after(t, s) =~= woken_after(t, evs) + step_woken(table_after(t, evs), e));
    } else {
        assert(s[0] == evs[0]);
        assert(s.skip(1) =~= evs.skip(1).push(e));
        lemma_woken_after_snoc(step_table(t, evs[0]), evs.skip(1), e);
        assert(woken_after(t, s) == step_woken(t, s[0]) + woken_after(
            step_table(t, s[0]),
            s.skip(1),
        ));
        assert(woken_after(t, s) =~= woken_after(t, evs) + step_woken(table_after(t, evs), e));
    }
}

/// The reactor's state: the completion table, a map from interest key to the
/// completion waiting on it, and the (ghost) set of descriptors currently
/// registered with the OS multiplexer.
pub struct Reactor {
    completion: HashMap<usize, Completion>,
    regs: Ghost<Set<usize>>,
}

impl Reactor {
    /// The completion table: for each registered interest key, the wake
    /// handle pending on it (or nothing, for a completion already consumed).
    pub closed spec fn table(self) -> Map<usize, Option<WakeId>> {
        self.completion@.map_values(|c: Completion| c.pending())
    }

    /// The descriptors currently registered with the OS multiplexer.
    pub closed spec fn registered(self) -> Set<usize> {
        self.regs@
    }

    pub fn new() -> (r: Self)
        ensures
            r.table() == Map::<usize, Option<WakeId>>::empty(),
            r.registered() == Set::<usize>::empty(),
    {
        let r = Reactor { completion: HashMap::new(), regs: Ghost(Set::empty()) };
        proof {
            assert(r.table() =~= Map::<usize, Option<WakeId>>::empty());
        }
        r
    }

    /// Register a descriptor for both directions of readiness. The OS-level
    /// work (setting the socket non-blocking and registering it with the
    /// multiplexer) is performed by the embedding around this call; here the
    /// descriptor is recorded as registered. Registration never touches the
    /// completion table, so registering a descriptor twice cannot corrupt
    /// pending completions.
    pub fn add(&mut self, fd: usize)
        ensures
            final(self).table() == old(self).table(),
            final(self).registered() == old(self).registered().insert(fd),
    {
        proof {
            self.regs@ = self.regs@.insert(fd);
        }
    }

    /// Store (or overwrite) the completion for one interest key.
    fn push_completion(&mut self, key: usize, waker: WakeId)
        ensures
            final(self).table() == old(self).table().insert(key, Some(waker)),
            final(self).registered() == old(self).registered(),
    {
        self.completion.insert(key, Completion::new(waker));
        proof {
            assert(self.table() =~= old(self).table().insert(key, Some(waker)));
        }
    }

    /// Record that the task identified by `waker` waits for the read
    /// direction of `fd`: called exactly when a non-blocking OS call on that
    /// descriptor reported would-block for reading. Overwrites (and thereby
    /// forgets) any completion already stored for that key.
    pub fn modify_readable(&mut self, fd: usize, waker: WakeId)
        requires
            fd_in_range(fd),
        ensures
            final(self).table() == old(self).table().insert(read_key(fd), Some(waker)),
            final(self).registered() == old(self).registered(),
    {
        let key: usize = 2 * fd;
        self.push_completion(key, waker);
    }

    /// Record that the task identified by `waker` waits for the write
    /// direction of `fd`. Overwrites any completion already stored there.
    pub fn modify_writable(&mut self, fd: usize, waker: WakeId)
        requires
            fd_in_range(fd),
        ensures
            final(self).table() == old(self).table().insert(write_key(fd), Some(waker)),
            final(self).registered() == old(self).registered(),
    {
        let key: usize = 2 * fd + 1;
        self.push_completion(key, waker);
    }

    /// Drop any pending completions for both directions of a descriptor and
    /// record it as deregistered: called exactly once, when the socket
    /// wrapper owning the descriptor is destroyed, so that no dangling wake
    /// registration survives the descriptor.
    pub fn delete(&mut self, fd: usize)
        requires
            fd_in_range(fd),
        ensures
            final(self).table() == old(self).table().remove(read_key(fd)).remove(write_key(fd)),
            final(self).registered() == old(self).registered().remove(fd),
    {
        let rk: usize = 2 * fd;
        self.completion.remove(&rk);
        let wk: usize = 2 * fd + 1;
        self.completion.remove(&wk);
        proof {
            self.regs@ = self.regs@.remove(fd);
            assert(self.table() =~= old(self).table().remove(read_key(fd)).remove(write_key(fd)));
        }
    }

    /// Remove the completion stored for `key`, if any, and complete it,
    /// returning the wake handle it delivered.
    fn complete_key(&mut self, key: usize) -> (woken: Option<WakeId>)
        ensures
            final(self).table() == old(self).table().remove(key),
            final(self).registered() == old(self).registered(),
            woken_at(old(self).table(), key) == match woken {
                Some(w) => seq![w],
                None => Seq::<WakeId>::empty(),
            },
    {
        let woken = match self.completion.remove(&key) {
            Some(mut c) => c.complete(),
            None => None,
        };
        proof {
            assert(self.table() =~= old(self).table().remove(key));
            assert(seq![] =~= Seq::<WakeId>::empty());
        }
        woken
    }

    /// Dispatch one batch of readiness events, in order: for each event,
    /// resolve the read key and/or the write key it reports ready, remove
    /// any completion stored there and complete it. The wake handles
    /// delivered are returned in order, for the embedding to requeue; each
    /// handle is delivered at most once per registration, since its
    /// completion leaves the table here. The blocking OS wait that produced
    /// the events is the embedding's, as is the handling of a wait that
    /// failed (treated as an empty batch and retried).
    pub fn dispatch(&mut self, events: &Vec<IoEvent>) -> (woken: Vec<WakeId>)
        requires
            events_in_range(events@),
        ensures
            final(self).table() == table_after(old(self).table(), events@),
            woken@ == woken_after(old(self).table(), events@),
            final(self).registered() == old(self).registered(),
    {
        let mut woken: Vec<WakeId> = Vec::new();
        let ghost t0 = self.table();
        let ghost r0 = self.registered();
        let mut i: usize = 0;
        while i < events.len()
            invariant
                i <= events@.len(),
                events_in_range(events@),
                self.table() == table_after(t0, events@.take(i as int)),
                woken@ == woken_after(t0, events@.take(i as int)),
                self.registered() == r0,
            decreases events@.len() - i,
        {
            let e = events[i];
            let ghost t_pre = self.table();
            let ghost w_pre = woken@;
            if e.readable {
                let key: usize = 2 * e.token;
                match self.complete_key(key) {
                    Some(w) => woken.push(w),
                    None => {},
                }
            }
            if e.writable {
                let key: usize = 2 * e.token + 1;
                match self.complete_key(key) {
                    Some(w) => woken.push(w),
                    None => {},
                }
            }
            proof {
                assert(self.table() =~= step_table(t_pre, e));
                assert(woken@ =~= w_pre + step_woken(t_pre, e));
                lemma_table_after_snoc(t0, events@.take(i as int), e);
                lemma_woken_after_snoc(t0, events@.take(i as int), e);
                assert(events@.take(i + 1 as int) =~= events@.take(i as int).push(e));
            }
            i = i + 1;
        }
        proof {
            assert(events@.take(events@.len() as int) =~= events@);
        }
        woken
    }
}

impl Default for Reactor {
    fn default() -> (r: Reactor)
        ensures
            r.table() == Map::<usize, Option<WakeId>>::empty(),
            r.registered() == Set::<usize>::empty(),
    {
        Reactor::new()
    }
}

/// Exactly-once wake delivery per registration, at the table level: once an
/// event has been dispatched, its completions have left the table, so
/// dispatching the same event again delivers no wake handle — only an
/// intervening registration can make one pending again.
pub proof fn lemma_event_delivers_once(t: Map<usize, Option<WakeId>>, e: IoEvent)
    requires
        event_in_range(e),
    ensures
        step_woken(step_table(t, e), e) == Seq::<WakeId>::empty(),
{
    assert(step_woken(step_table(t, e), e) =~= Seq::<WakeId>::empty());
}

/// Isolation across descriptors: a readiness event for one descriptor never
/// consumes or alters a completion registered for a different descriptor —
/// no cross-task wake leakage through the shared table.
pub proof fn lemma_event_isolation(t: Map<usize, Option<WakeId>>, e: IoEvent, fd: usize)
    requires
        event_in_range(e),
        fd_in_range(fd),
        fd != e.token,
    ensures
        step_table(t, e).contains_key(read_key(fd)) == t.contains_key(read_key(fd)),
        step_table(t, e).contains_key(write_key(fd)) == t.contains_key(write_key(fd)),
        t.contains_key(read_key(fd)) ==> step_table(t, e)[read_key(fd)] == t[read_key(fd)],
        t.contains_key(write_key(fd)) ==> step_table(t, e)[write_key(fd)] == t[write_key(fd)],
{
    lemma_keys_distinct(fd, e.token);
}

/// Whether one event resolves (and so removes) the completion key `k`.
pub open spec fn event_resolves(e: IoEvent, k: usize) -> bool {
    ||| e.readable && k == read_key(e.token)
    ||| e.writable && k == write_key(e.token)
}

proof fn lemma_step_keeps_absent(t: Map<usize, Option<WakeId>>, e: IoEvent, k: usize)
    requires
        !t.contains_key(k),
    ensures
        !step_table(t, e).contains_key(k),
{
}

proof fn lemma_batch_keeps_absent(t: Map<usize, Option<WakeId>>, evs: Seq<IoEvent>, k: usize)
    requires
        !t.contains_key(k),
    ensures
        !table_after(t, evs).contains_key(k),
    decreases evs.len(),
{
    if evs.len() > 0 {
        lemma_step_keeps_absent(t, evs[0], k);
        lemma_batch_keeps_absent(step_table(t, evs[0]), evs.skip(1), k);
    }
}

proof fn lemma_step_resolves(t: Map<usize, Option<WakeId>>, e: IoEvent, k: usize)
    requires
        event_resolves(e, k),
    ensures
        !step_table(t, e).contains_key(k),
{
}

/// Exactly-once wake delivery per registration, for a whole batch: after a
/// batch of events has been dispatched, every completion it resolved has
/// left the table, so dispatching the same batch again — without any new
/// registration in between — delivers no wake handle at all.
pub proof fn lemma_batch_delivers_once(t: Map<usize, Option<WakeId>>, evs: Seq<IoEvent>)
    ensures
        woken_after(table_after(t, evs), evs) == Seq::<WakeId>::empty(),
    decreases evs.len(),
{
    if evs.len() == 0 {
    } else {
        let e = evs[0];
        let t1 = step_table(t, e);
        let tn = table_after(t, evs);
        assert(tn == table_after(t1, evs.skip(1)));
        if e.readable {
            lemma_step_resolves(t, e, read_key(e.token));
            lemma_batch_keeps_absent(t1, evs.skip(1), read_key(e.token));
        }
        if e.writable {
            lemma_step_resolves(t, e, write_key(e.token));
            lemma_batch_keeps_absent(t1, evs.skip(1), write_key(e.token));
        }
        assert(step_woken(tn, e) =~= Seq::<WakeId>::empty());
        assert(step_table(tn, e) =~= tn);
        lemma_batch_delivers_once(t1, evs.skip(1));
        assert(woken_after(tn, evs) =~= Seq::<WakeId>::empty());
    }
}

/// Isolation across descriptors, for a whole batch: a batch of readiness
/// events none of which belongs to descriptor `fd` leaves both of that
/// descriptor's completions exactly as they were.
pub proof fn lemma_batch_isolation(t: Map<usize, Option<WakeId>>, evs: Seq<IoEvent>, fd: usize)
    requires
        events_in_range(evs),
        fd_in_range(fd),
        forall|i: int| 0 <= i < evs.len() ==> (#[trigger] evs[i]).token != fd,
    ensures
        table_after(t, evs).contains_key(read_key(fd)) == t.contains_key(read_key(fd)),
        table_after(t, evs).contains_key(write_key(fd)) == t.contains_key(write_key(fd)),
        t.contains_key(read_key(fd)) ==> table_after(t, evs)[read_key(fd)] == t[read_key(fd)],
        t.contains_key(write_key(fd)) ==> table_after(t, evs)[write_key(fd)] == t[write_key(fd)],
    decreases evs.len(),
{
    if evs.len() > 0 {
        lemma_event_isolation(t, evs[0], fd);
        lemma_batch_isolation(step_table(t, evs[0]), evs.skip(1), fd);
    }
}

/// Registering a descriptor a second time leaves the reactor exactly as one
/// registration left it: the completion table is untouched either way, and
/// the registered set absorbs the repeated insertion.
pub proof fn lemma_add_twice_harmless(s: Set<usize>, fd: usize)
    ensures
        s.insert(fd).insert(fd) == s.insert(fd),
{
    assert(s.insert(fd).insert(fd) =~= s.insert(fd));
}

/// Deregistering a descriptor a second time leaves the completion table
/// exactly as one deregistration left it, and the registered set likewise:
/// a repeated `delete` cannot corrupt the table.
pub proof fn lemma_delete_twice_harmless(
    t: Map<usize, Option<WakeId>>,
    s: Set<usize>,
    fd: usize,
)
    requires
        fd_in_range(fd),
    ensures
        t.remove(read_key(fd)).remove(write_key(fd)).remove(read_key(fd)).remove(write_key(fd))
            == t.remove(read_key(fd)).remove(write_key(fd)),
        s.remove(fd).remove(fd) == s.remove(fd),
{
    assert(t.remove(read_key(fd)).remove(write_key(fd)).remove(read_key(fd)).remove(
        write_key(fd),
    ) =~= t.remove(read_key(fd)).remove(write_key(fd)));
    assert(s.remove(fd).remove(fd) =~= s.remove(fd));
}

} // verus!
