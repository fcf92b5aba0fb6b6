//! Scheduler: which keys are being reconciled and which wait their turn.
//!
//! Triggers arrive at any time and in any number. The scheduler admits at
//! most one run per key and at most `limit` runs in all. A trigger for a key
//! that cannot start is remembered once and started when a run ends.

use crate::resources::{ObjectKey, ObjectKeyView};
use vstd::prelude::*;

verus! {

/// The books of a scheduler.
pub struct SchedulerView {
    /// Keys whose run is in flight.
    pub running: Seq<ObjectKeyView>,
    /// Keys that were triggered and wait for a run, oldest first.
    pub pending: Seq<ObjectKeyView>,
    /// Most runs that may be in flight together.
    pub limit: nat,
    /// Whether the scheduler has stopped taking triggers.
    pub draining: bool,
}

/// What became of a trigger.
#[derive(Debug, Clone, Copy, PartialEq, Eq, Structural)]
pub enum Admission {
    /// The key's run starts now.
    Start,
    /// The key waits: its run is in flight, or all workers are busy.
    Queued,
    /// The key was waiting already; the trigger adds nothing.
    Coalesced,
    /// The scheduler is shutting down.
    Refused,
}

/// The books are in order: no key runs twice or waits twice, no more runs
/// are in flight than the limit allows, nothing waits once shutdown has
/// begun, and no key waits for a worker while one is idle.
pub open spec fn well_formed(s: SchedulerView) -> bool {
    &&& s.running.no_duplicates()
    &&& s.pending.no_duplicates()
    &&& s.running.len() <= s.limit
    &&& s.draining ==> s.pending.len() == 0
    &&& s.running.len() < s.limit ==> forall|i: int|
        0 <= i < s.pending.len() ==> s.running.contains(#[trigger] s.pending[i])
}

/// A scheduler with no key on its books.
pub open spec fn idle(limit: nat) -> SchedulerView {
    SchedulerView { running: Seq::empty(), pending: Seq::empty(), limit, draining: false }
}

/// The books after a trigger for `key`, and what became of the trigger.
pub open spec fn triggered(s: SchedulerView, key: ObjectKeyView) -> (SchedulerView, Admission) {
    if s.draining {
        (s, Admission::Refused)
    } else if s.pending.contains(key) {
        (s, Admission::Coalesced)
    } else if s.running.contains(key) || s.running.len() >= s.limit {
        (SchedulerView { pending: s.pending.push(key), ..s }, Admission::Queued)
    } else {
        (SchedulerView { running: s.running.push(key), ..s }, Admission::Start)
    }
}

/// `keys` with `key` taken out.
pub open spec fn without(keys: Seq<ObjectKeyView>, key: ObjectKeyView) -> Seq<ObjectKeyView> {
    if keys.contains(key) {
        keys.remove(keys.index_of(key))
    } else {
        keys
    }
}

/// Index of the first key of `pending`, at or after `from`, whose run is not
/// in flight.
pub open spec fn first_ready(
    pending: Seq<ObjectKeyView>,
    running: Seq<ObjectKeyView>,
    from: int,
) -> Option<int>
    decreases pending.len() - from,
{
    if from < 0 || from >= pending.len() {
        None
    } else if !running.contains(pending[from]) {
        Some(from)
    } else {
        first_ready(pending, running, from + 1)
    }
}

/// The books after the run of `key` has ended, and the key whose run starts
/// in its place, if one is ready.
pub open spec fn release(s: SchedulerView, key: ObjectKeyView) -> (
    SchedulerView,
    Option<ObjectKeyView>,
) {
    let running = without(s.running, key);
    if s.draining || running.len() >= s.limit {
        (SchedulerView { running, ..s }, None)
    } else {
        match first_ready(s.pending, running, 0) {
            Some(i) => (
                SchedulerView {
                    running: running.push(s.pending[i]),
                    pending: s.pending.remove(i),
                    ..s
                },
                Some(s.pending[i]),
            ),
            None => (SchedulerView { running, ..s }, None),
        }
    }
}

/// The books after shutdown has begun: what waits is dropped, what runs may
/// finish.
pub open spec fn drain(s: SchedulerView) -> SchedulerView {
    SchedulerView { pending: Seq::empty(), draining: true, ..s }
}

/// What `first_ready` finds is ready, and nothing before it is.
pub proof fn lemma_first_ready(pending: Seq<ObjectKeyView>, running: Seq<ObjectKeyView>, from: int)
    requires
        0 <= from,
    ensures
        match first_ready(pending, running, from) {
            Some(i) => {
                &&& from <= i < pending.len()
                &&& !running.contains(pending[i])
                &&& forall|j: int| from <= j < i ==> running.contains(#[trigger] pending[j])
            },
            None => forall|j: int|
                from <= j < pending.len() ==> running.contains(#[trigger] pending[j]),
        },
    decreases pending.len() - from,
{
    if from < pending.len() && running.contains(pending[from]) {
        lemma_first_ready(pending, running, from + 1);
    }
}

/// Taking a key out of a list without duplicates leaves the other keys,
/// each once, and not the key.
pub proof fn lemma_without(keys: Seq<ObjectKeyView>, key: ObjectKeyView)
    requires
        keys.no_duplicates(),
    ensures
        without(keys, key).no_duplicates(),
        !without(keys, key).contains(key),
        forall|k: ObjectKeyView| k != key ==> (without(keys, key).contains(k) <==> keys.contains(k)),
        without(keys, key).len() == if keys.contains(key) {
            keys.len() - 1
        } else {
            keys.len() as int
        },
{
    if keys.contains(key) {
        let at = keys.index_of(key);
        let rest = keys.remove(at);
        assert forall|i: int, j: int| 0 <= i < rest.len() && 0 <= j < rest.len() && i != j implies rest[i]
            != rest[j] by {
            let a = if i < at { i } else { i + 1 };
            let b = if j < at { j } else { j + 1 };
            assert(rest[i] == keys[a] && rest[j] == keys[b]);
        }
        assert(!rest.contains(key)) by {
            if rest.contains(key) {
                let i = choose|i: int| 0 <= i < rest.len() && rest[i] == key;
                let a = if i < at { i } else { i + 1 };
                assert(keys[a] == key && a != at);
            }
        }
        assert forall|k: ObjectKeyView| k != key implies (rest.contains(k) <==> keys.contains(k)) by {
            if rest.contains(k) {
                let i = choose|i: int| 0 <= i < rest.len() && rest[i] == k;
                let a = if i < at { i } else { i + 1 };
                assert(keys[a] == k);
            }
            if keys.contains(k) {
                let a = choose|a: int| 0 <= a < keys.len() && keys[a] == k;
                let i = if a < at { a } else { a - 1 };
                assert(rest[i] == k);
            }
        }
    }
}

/// Adding a key that is not there keeps a list free of duplicates.
pub proof fn lemma_push_fresh(keys: Seq<ObjectKeyView>, key: ObjectKeyView)
    requires
        keys.no_duplicates(),
        !keys.contains(key),
    ensures
        keys.push(key).no_duplicates(),
        forall|k: ObjectKeyView| keys.push(key).contains(k) <==> (k == key || keys.contains(k)),
{
    let more = keys.push(key);
    assert forall|i: int, j: int| 0 <= i < more.len() && 0 <= j < more.len() && i != j implies more[i]
        != more[j] by {
        if i < keys.len() {
            assert(keys.contains(more[i]));
        }
        if j < keys.len() {
            assert(keys.contains(more[j]));
        }
    }
    assert forall|k: ObjectKeyView| more.contains(k) <==> (k == key || keys.contains(k)) by {
        if more.contains(k) {
            let i = choose|i: int| 0 <= i < more.len() && more[i] == k;
            if i < keys.len() {
                assert(keys[i] == k);
            }
        }
        if keys.contains(k) {
            let i = choose|i: int| 0 <= i < keys.len() && keys[i] == k;
            assert(more[i] == k);
        }
        assert(more[keys.len() as int] == key);
    }
}

/// A trigger leaves the books in order.
pub proof fn lemma_trigger_well_formed(s: SchedulerView, key: ObjectKeyView)
    requires
        well_formed(s),
    ensures
        well_formed(triggered(s, key).0),
{
    let next = triggered(s, key).0;
    if s.draining || s.pending.contains(key) {
    } else if s.running.contains(key) || s.running.len() >= s.limit {
        lemma_push_fresh(s.pending, key);
        assert forall|i: int| 0 <= i < next.pending.len() && next.running.len() < next.limit implies next.running.contains(
            #[trigger] next.pending[i],
        ) by {
            if i < s.pending.len() {
                assert(next.pending[i] == s.pending[i]);
            }
        }
    } else {
        lemma_push_fresh(s.running, key);
        assert forall|i: int| 0 <= i < next.pending.len() implies next.running.contains(
            #[trigger] next.pending[i],
        ) by {
            assert(s.running.contains(s.pending[i]));
        }
    }
}

/// The end of a run leaves the books in order, and the key that starts in
/// its place was waiting and had no run in flight.
pub proof fn lemma_release_well_formed(s: SchedulerView, key: ObjectKeyView)
    requires
        well_formed(s),
    ensures
        well_formed(release(s, key).0),
        !release(s, key).0.running.contains(key) || release(s, key).1 == Some(key),
        match release(s, key).1 {
            Some(next) => s.pending.contains(next) && !without(s.running, key).contains(next),
            None => true,
        },
{
    let running = without(s.running, key);
    lemma_without(s.running, key);
    lemma_first_ready(s.pending, running, 0);
    let after = release(s, key).0;
    if s.draining || running.len() >= s.limit {
    } else {
        match first_ready(s.pending, running, 0) {
            Some(i) => {
                let next = s.pending[i];
                lemma_push_fresh(running, next);
                assert(after.pending.no_duplicates()) by {
                    let rest = s.pending.remove(i);
                    assert forall|a: int, b: int|
                        0 <= a < rest.len() && 0 <= b < rest.len() && a != b implies rest[a]
                        != rest[b] by {
                        let x = if a < i { a } else { a + 1 };
                        let y = if b < i { b } else { b + 1 };
                        assert(rest[a] == s.pending[x] && rest[b] == s.pending[y]);
                    }
                }
                assert forall|j: int|
                    0 <= j < after.pending.len() && after.running.len() < after.limit implies after.running.contains(
                    #[trigger] after.pending[j],
                ) by {
                    let x = if j < i { j } else { j + 1 };
                    let waiting = s.pending[x];
                    assert(after.pending[j] == waiting);
                    assert(s.running.len() < s.limit);
                    assert(s.running.contains(s.pending[x]));
                    assert(s.running.contains(s.pending[i]));
                    assert(next == key);
                    assert(waiting != key);
                    assert(running.contains(waiting));
                }
                assert(s.pending.contains(next));
            },
            None => {
                assert forall|j: int| 0 <= j < after.pending.len() implies after.running.contains(
                    #[trigger] after.pending[j],
                ) by {}
            },
        }
    }
}

/// At most one run per key. A key whose run is in flight is never started
/// by a trigger, two triggers in a row start at most one run, and the list
/// of runs in flight never holds a key twice.
pub proof fn lemma_single_flight(s: SchedulerView, key: ObjectKeyView)
    requires
        well_formed(s),
    ensures
        s.running.contains(key) ==> triggered(s, key).1 != Admission::Start,
        triggered(triggered(s, key).0, key).1 != Admission::Start,
        triggered(s, key).0.running.no_duplicates(),
        release(s, key).0.running.no_duplicates(),
{
    lemma_trigger_well_formed(s, key);
    lemma_release_well_formed(s, key);
    let once = triggered(s, key).0;
    if triggered(s, key).1 == Admission::Start {
        assert(once.running[s.running.len() as int] == key);
    } else if triggered(s, key).1 == Admission::Queued {
        assert(once.pending[s.pending.len() as int] == key);
    }
}

/// What can happen to a scheduler.
pub enum SchedulerEvent {
    /// A trigger arrives for a key.
    Trigger(ObjectKeyView),
    /// The run of a key ends.
    Complete(ObjectKeyView),
    /// Shutdown begins.
    Shutdown,
}

/// The books after `event`.
pub open spec fn after_event(s: SchedulerView, event: SchedulerEvent) -> SchedulerView {
    match event {
        SchedulerEvent::Trigger(key) => triggered(s, key).0,
        SchedulerEvent::Complete(key) => release(s, key).0,
        SchedulerEvent::Shutdown => drain(s),
    }
}

/// The books after `events`, taken in order.
pub open spec fn after_events(s: SchedulerView, events: Seq<SchedulerEvent>) -> SchedulerView
    decreases events.len(),
{
    if events.len() == 0 {
        s
    } else {
        after_event(after_events(s, events.drop_last()), events.last())
    }
}

/// Whatever happens to a scheduler, and in whatever order, its books stay
/// in order. At no time does a key have two runs in flight, and at no time
/// are more runs in flight than the limit allows.
pub proof fn lemma_books_stay_in_order(limit: nat, events: Seq<SchedulerEvent>)
    ensures
        well_formed(after_events(idle(limit), events)),
        after_events(idle(limit), events).running.no_duplicates(),
        after_events(idle(limit), events).running.len() <= limit,
    decreases events.len(),
{
    if events.len() > 0 {
        let before = after_events(idle(limit), events.drop_last());
        lemma_books_stay_in_order(limit, events.drop_last());
        lemma_limit_is_kept(limit, events.drop_last());
        match events.last() {
            SchedulerEvent::Trigger(key) => lemma_trigger_well_formed(before, key),
            SchedulerEvent::Complete(key) => lemma_release_well_formed(before, key),
            SchedulerEvent::Shutdown => {},
        }
    }
    lemma_limit_is_kept(limit, events);
}

/// Nothing that happens to a scheduler changes its limit.
pub proof fn lemma_limit_is_kept(limit: nat, events: Seq<SchedulerEvent>)
    ensures
        after_events(idle(limit), events).limit == limit,
    decreases events.len(),
{
    if events.len() > 0 {
        lemma_limit_is_kept(limit, events.drop_last());
    }
}

/// Keeps the books of the runs in flight.
#[derive(Debug)]
pub struct Scheduler {
    running: Vec<ObjectKey>,
    pending: Vec<ObjectKey>,
    limit: usize,
    draining: bool,
}

impl View for Scheduler {
    type V = SchedulerView;

    open spec fn view(&self) -> SchedulerView {
        self.books()
    }
}

/// Index of `key` in `keys`.
fn find(keys: &Vec<ObjectKey>, key: &ObjectKey) -> (at: Option<usize>)
    ensures
        match at {
            Some(i) => i < keys.len() && keys.deep_view()[i as int] == key@,
            None => !keys.deep_view().contains(key@),
        },
{
    let mut i: usize = 0;
    while i < keys.len()
        invariant
            i <= keys.len(),
            forall|j: int| 0 <= j < i ==> keys.deep_view()[j] != key@,
        decreases keys.len() - i,
    {
        if keys[i].same(key) {
            return Some(i);
        }
        i += 1;
    }
    None
}

/// Index of the first key of `pending` whose run is not in flight.
fn find_ready(pending: &Vec<ObjectKey>, running: &Vec<ObjectKey>) -> (at: Option<usize>)
    ensures
        match at {
            Some(i) => i < pending.len() && first_ready(
                pending.deep_view(),
                running.deep_view(),
                0,
            ) == Some(i as int),
            None => first_ready(pending.deep_view(), running.deep_view(), 0) is None,
        },
{
    let mut j: usize = 0;
    while j < pending.len()
        invariant
            j <= pending.len(),
            first_ready(pending.deep_view(), running.deep_view(), 0) == first_ready(
                pending.deep_view(),
                running.deep_view(),
                j as int,
            ),
        decreases pending.len() - j,
    {
        assert(pending.deep_view()[j as int] == pending[j as int]@);
        if find(running, &pending[j]).is_none() {
            return Some(j);
        }
        j += 1;
    }
    None
}

impl Scheduler {
    #[verifier::type_invariant]
    spec fn in_order(&self) -> bool {
        well_formed(self.books())
    }

    /// The books of this scheduler.
    pub closed spec fn books(&self) -> SchedulerView {
        SchedulerView {
            running: self.running.deep_view(),
            pending: self.pending.deep_view(),
            limit: self.limit as nat,
            draining: self.draining,
        }
    }

    /// A scheduler that lets at most `limit` runs be in flight together.
    pub fn new(limit: usize) -> (s: Scheduler)
        ensures
            s@ == idle(limit as nat),
            well_formed(s@),
    {
        let running: Vec<ObjectKey> = Vec::new();
        let pending: Vec<ObjectKey> = Vec::new();
        assert(running.deep_view() =~= Seq::<ObjectKeyView>::empty());
        assert(pending.deep_view() =~= Seq::<ObjectKeyView>::empty());
        Scheduler { running, pending, limit, draining: false }
    }

    /// Takes a trigger for `key`.
    ///
    /// The run starts at once if the key neither runs nor waits and a worker
    /// is idle. A key whose run is in flight, or for which no worker is idle,
    /// waits. A key that waits already is not noted again. After shutdown
    /// has begun every trigger is refused.
    pub fn trigger(&mut self, key: ObjectKey) -> (admission: Admission)
        ensures
            (final(self)@, admission) == triggered(old(self)@, key@),
            well_formed(final(self)@),
    {
        proof {
            use_type_invariant(&*self);
            lemma_trigger_well_formed(self@, key@);
        }
        if self.draining {
            return Admission::Refused;
        }
        if find(&self.pending, &key).is_some() {
            return Admission::Coalesced;
        }
        let busy = find(&self.running, &key).is_some();
        let ghost before = self@;
        let mut books = Scheduler::new(self.limit);
        core::mem::swap(self, &mut books);
        let Scheduler { mut running, mut pending, limit, draining } = books;
        if busy || running.len() >= limit {
            pending.push(key);
            assert(pending.deep_view() =~= before.pending.push(key@));
            *self = Scheduler { running, pending, limit, draining };
            Admission::Queued
        } else {
            running.push(key);
            assert(running.deep_view() =~= before.running.push(key@));
            *self = Scheduler { running, pending, limit, draining };
            Admission::Start
        }
    }

    /// Notes that the run of `key` has ended and starts the run of the key
    /// that has waited longest among those that are ready, if there is one.
    pub fn complete(&mut self, key: &ObjectKey) -> (next: Option<ObjectKey>)
        ensures
            final(self)@ == release(old(self)@, key@).0,
            match next {
                Some(started) => release(old(self)@, key@).1 == Some(started@),
                None => release(old(self)@, key@).1 is None,
            },
            well_formed(final(self)@),
    {
        proof {
            use_type_invariant(&*self);
            lemma_release_well_formed(self@, key@);
        }
        let ghost before = self@;
        let at = find(&self.running, key);
        let mut books = Scheduler::new(self.limit);
        core::mem::swap(self, &mut books);
        let Scheduler { mut running, mut pending, limit, draining } = books;
        match at {
            Some(i) => {
                proof {
                    assert(before.running.contains(key@));
                    let chosen = before.running.index_of(key@);
                    assert(before.running[chosen] == key@);
                    assert(chosen == i);
                }
                running.remove(i);
                assert(running.deep_view() =~= before.running.remove(i as int));
            },
            None => {},
        }
        assert(running.deep_view() == without(before.running, key@));
        let mut started: Option<ObjectKey> = None;
        if !draining && running.len() < limit {
            match find_ready(&pending, &running) {
                Some(j) => {
                    let ready = pending.remove(j);
                    assert(pending.deep_view() =~= before.pending.remove(j as int));
                    let ghost idle_now = running.deep_view();
                    running.push(ready.clone());
                    assert(running.deep_view() =~= idle_now.push(ready@));
                    started = Some(ready);
                },
                None => {},
            }
        }
        *self = Scheduler { running, pending, limit, draining };
        started
    }

    /// Begins shutdown: keys that wait are dropped and further triggers are
    /// refused. Runs in flight go on to their end.
    pub fn shutdown(&mut self)
        ensures
            final(self)@ == drain(old(self)@),
            well_formed(final(self)@),
    {
        proof {
            use_type_invariant(&*self);
        }
        let mut books = Scheduler::new(self.limit);
        core::mem::swap(self, &mut books);
        let Scheduler { running, pending, limit, draining } = books;
        let pending: Vec<ObjectKey> = Vec::new();
        assert(pending.deep_view() =~= Seq::<ObjectKeyView>::empty());
        *self = Scheduler { running, pending, limit, draining: true };
    }

    /// Whether the run of `key` is in flight.
    pub fn is_running(&self, key: &ObjectKey) -> (r: bool)
        ensures
            r == self@.running.contains(key@),
    {
        find(&self.running, key).is_some()
    }

    /// Number of runs in flight.
    pub fn in_flight(&self) -> (n: usize)
        ensures
            n == self@.running.len(),
    {
        self.running.len()
    }

    /// Number of keys that wait for a run.
    pub fn waiting(&self) -> (n: usize)
        ensures
            n == self@.pending.len(),
    {
        self.pending.len()
    }

    /// Whether shutdown has begun and the last run has ended.
    pub fn is_drained(&self) -> (r: bool)
        ensures
            r == (self@.draining && self@.running.len() == 0),
    {
        self.draining && self.running.len() == 0
    }
}

} // verus!
