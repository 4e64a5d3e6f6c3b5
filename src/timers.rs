use vstd::prelude::*;

use crate::runtime::{CallbackId, SchedulerMessage};

verus! {

/// Whether a registered callback runs once or every period.
#[derive(PartialEq, Eq, Structural, Clone, Copy, Debug)]
pub enum TimerKind {
    Timeout,
    Interval,
}

/// A callback registered by `setTimeout` or `setInterval`.
pub struct TimerEntry<C> {
    pub id: CallbackId,
    pub kind: TimerKind,
    pub callback: C,
}

/// A script-level timer call, for stating what a series of them does.
pub enum TimerOp<C> {
    SetTimeout(C),
    SetInterval(C),
    Clear(CallbackId),
    /// The callback for the id has run.
    Finish(CallbackId),
}

/// The registered callbacks and the next id after `op`, as `set_timeout`,
/// `set_interval`, `clear` and `finish` state it. An allocation that would
/// pass the largest id is not made.
pub open spec fn apply_op<C>(
    registered: Map<CallbackId, TimerEntry<C>>,
    next_id: CallbackId,
    op: TimerOp<C>,
) -> (Map<CallbackId, TimerEntry<C>>, CallbackId) {
    match op {
        TimerOp::SetTimeout(callback) => if next_id < CallbackId::MAX {
            (
                registered.insert(next_id, TimerEntry { id: next_id, kind: TimerKind::Timeout, callback }),
                (next_id + 1) as CallbackId,
            )
        } else {
            (registered, next_id)
        },
        TimerOp::SetInterval(callback) => if next_id < CallbackId::MAX {
            (
                registered.insert(next_id, TimerEntry { id: next_id, kind: TimerKind::Interval, callback }),
                (next_id + 1) as CallbackId,
            )
        } else {
            (registered, next_id)
        },
        TimerOp::Clear(id) => (registered.remove(id), next_id),
        TimerOp::Finish(id) => if registered.contains_key(id) && registered[id].kind
            == TimerKind::Timeout {
            (registered.remove(id), next_id)
        } else {
            (registered, next_id)
        },
    }
}

/// The registered callbacks and the next id after the calls of `ops`, in order.
pub open spec fn apply_ops<C>(
    registered: Map<CallbackId, TimerEntry<C>>,
    next_id: CallbackId,
    ops: Seq<TimerOp<C>>,
) -> (Map<CallbackId, TimerEntry<C>>, CallbackId)
    decreases ops.len(),
{
    if ops.len() == 0 {
        (registered, next_id)
    } else {
        let (r, n) = apply_op(registered, next_id, ops[0]);
        apply_ops(r, n, ops.subrange(1, ops.len() as int))
    }
}

/// A timeout cleared before it fires never runs: `setTimeout` gives it the
/// next id, `clearTimeout` with that id unregisters it, and whatever timer
/// calls follow, the id is not registered again, since ids only grow. A
/// completion for it then finds no callback.
pub proof fn lemma_cleared_timeout_never_runs<C>(
    registered: Map<CallbackId, TimerEntry<C>>,
    next_id: CallbackId,
    callback: C,
    later: Seq<TimerOp<C>>,
)
    requires
        next_id < CallbackId::MAX,
        forall|k: CallbackId| #[trigger] registered.contains_key(k) ==> k < next_id,
    ensures
        ({
            let (set, n1) = apply_op(registered, next_id, TimerOp::SetTimeout(callback));
            let (cleared, n2) = apply_op(set, n1, TimerOp::Clear(next_id));
            &&& set.contains_key(next_id)
            &&& !apply_ops(cleared, n2, later).0.contains_key(next_id)
        }),
{
    let (set, n1) = apply_op(registered, next_id, TimerOp::SetTimeout(callback));
    let (cleared, n2) = apply_op(set, n1, TimerOp::Clear(next_id));
    lemma_ids_stay_below(cleared, n2, next_id, later);
}

/// An id below `next_id` that is not registered stays unregistered through
/// any timer calls: allocation only hands out ids at or above `next_id`.
proof fn lemma_ids_stay_below<C>(
    registered: Map<CallbackId, TimerEntry<C>>,
    next_id: CallbackId,
    id: CallbackId,
    ops: Seq<TimerOp<C>>,
)
    requires
        id < next_id,
        !registered.contains_key(id),
    ensures
        !apply_ops(registered, next_id, ops).0.contains_key(id),
        id < apply_ops(registered, next_id, ops).1,
    decreases ops.len(),
{
    if ops.len() > 0 {
        let (r, n) = apply_op(registered, next_id, ops[0]);
        lemma_ids_stay_below(r, n, id, ops.subrange(1, ops.len() as int));
    }
}

/// Script-side timer bookkeeping: allocates ids from 1 upwards and holds
/// each registered callback until it is cleared or, for a timeout, has run.
/// A completion for an id that is no longer registered runs nothing.
pub struct TimerRegistry<C> {
    entries: Vec<TimerEntry<C>>,
    next_id: CallbackId,
    view: Ghost<Map<CallbackId, TimerEntry<C>>>,
}

impl<C> TimerRegistry<C> {
    /// The registered callbacks, by id.
    pub closed spec fn registered(&self) -> Map<CallbackId, TimerEntry<C>> {
        self.view@
    }

    /// The id that the next `setTimeout` or `setInterval` gets.
    pub closed spec fn next_id(&self) -> CallbackId {
        self.next_id
    }

    pub closed spec fn wf(&self) -> bool {
        &&& 1 <= self.next_id
        &&& forall|i: int| 0 <= i < self.entries@.len() ==> {
            &&& #[trigger] self.view@.contains_key(self.entries@[i].id)
            &&& self.view@[self.entries@[i].id] == self.entries@[i]
        }
        &&& forall|id: CallbackId| #[trigger] self.view@.contains_key(id) ==> exists|i: int|
            0 <= i < self.entries@.len() && #[trigger] self.entries@[i].id == id
        &&& forall|i: int, j: int|
            0 <= i < self.entries@.len() && 0 <= j < self.entries@.len() && i != j
                ==> self.entries@[i].id != self.entries@[j].id
        &&& forall|id: CallbackId| #[trigger] self.view@.contains_key(id) ==> 1 <= id < self.next_id
        &&& forall|id: CallbackId| #[trigger] self.view@.contains_key(id) ==> self.view@[id].id == id
    }

    pub fn new() -> (r: TimerRegistry<C>)
        ensures
            r.wf(),
            r.registered() == Map::<CallbackId, TimerEntry<C>>::empty(),
            r.next_id() == 1,
    {
        TimerRegistry { entries: Vec::new(), next_id: 1, view: Ghost(Map::empty()) }
    }

    /// Whether another id can be allocated.
    pub fn can_allocate(&self) -> (r: bool)
        ensures
            r == (self.next_id() < CallbackId::MAX),
    {
        self.next_id < CallbackId::MAX
    }

    fn find(&self, id: CallbackId) -> (r: Option<usize>)
        requires
            self.wf(),
        ensures
            match r {
                Some(i) => i < self.entries@.len() && self.entries@[i as int].id == id,
                None => !self.registered().contains_key(id),
            },
    {
        let mut i: usize = 0;
        while i < self.entries.len()
            invariant
                i <= self.entries@.len(),
                forall|j: int| 0 <= j < i ==> self.entries@[j].id != id,
            decreases self.entries@.len() - i,
        {
            if self.entries[i].id == id {
                return Some(i);
            }
            i += 1;
        }
        None
    }

    fn register(&mut self, kind: TimerKind, callback: C) -> (id: CallbackId)
        requires
            old(self).wf(),
            old(self).next_id() < CallbackId::MAX,
        ensures
            final(self).wf(),
            id == old(self).next_id(),
            final(self).next_id() == id + 1,
            final(self).registered() == old(self).registered().insert(
                id,
                TimerEntry { id, kind, callback },
            ),
    {
        let id = self.next_id;
        let ghost before = self.entries@;
        let ghost entry = TimerEntry { id, kind, callback };
        self.entries.push(TimerEntry { id, kind, callback });
        self.next_id = id + 1;
        self.view = Ghost(self.view@.insert(id, entry));
        proof {
            assert(self.entries@ == before.push(entry));
            assert forall|i: int| 0 <= i < before.len() implies before[i].id != id by {
                assert(old(self).view@.contains_key(before[i].id));
            }
            assert forall|k: CallbackId| #[trigger] self.view@.contains_key(k) implies exists|i: int|
                0 <= i < self.entries@.len() && #[trigger] self.entries@[i].id == k by {
                if k == id {
                    assert(self.entries@[before.len() as int].id == k);
                } else {
                    let i = choose|i: int| 0 <= i < before.len() && #[trigger] before[i].id == k;
                    assert(self.entries@[i].id == k);
                }
            }
        }
        id
    }

    /// `setTimeout`: registers `callback` to run once and returns its id with
    /// the request to send to the scheduler.
    pub fn set_timeout(&mut self, callback: C, delay_ms: u64) -> (r: (CallbackId, SchedulerMessage))
        requires
            old(self).wf(),
            old(self).next_id() < CallbackId::MAX,
        ensures
            final(self).wf(),
            (final(self).registered(), final(self).next_id()) == apply_op(
                old(self).registered(),
                old(self).next_id(),
                TimerOp::SetTimeout(callback),
            ),
            r.0 == old(self).next_id(),
            r.1 == SchedulerMessage::ScheduleTimeout(r.0, delay_ms),
            final(self).next_id() == r.0 + 1,
            final(self).registered() == old(self).registered().insert(
                r.0,
                TimerEntry { id: r.0, kind: TimerKind::Timeout, callback },
            ),
    {
        let id = self.register(TimerKind::Timeout, callback);
        (id, SchedulerMessage::ScheduleTimeout(id, delay_ms))
    }

    /// `setInterval`: registers `callback` to run every period and returns its
    /// id with the request to send to the scheduler.
    pub fn set_interval(&mut self, callback: C, period_ms: u64) -> (r: (CallbackId, SchedulerMessage))
        requires
            old(self).wf(),
            old(self).next_id() < CallbackId::MAX,
        ensures
            final(self).wf(),
            (final(self).registered(), final(self).next_id()) == apply_op(
                old(self).registered(),
                old(self).next_id(),
                TimerOp::SetInterval(callback),
            ),
            r.0 == old(self).next_id(),
            r.1 == SchedulerMessage::ScheduleInterval(r.0, period_ms),
            final(self).next_id() == r.0 + 1,
            final(self).registered() == old(self).registered().insert(
                r.0,
                TimerEntry { id: r.0, kind: TimerKind::Interval, callback },
            ),
    {
        let id = self.register(TimerKind::Interval, callback);
        (id, SchedulerMessage::ScheduleInterval(id, period_ms))
    }

    fn unregister(&mut self, id: CallbackId)
        requires
            old(self).wf(),
        ensures
            final(self).wf(),
            final(self).next_id() == old(self).next_id(),
            final(self).registered() == old(self).registered().remove(id),
    {
        match self.find(id) {
            Some(i) => {
                let ghost before = self.entries@;
                let _ = self.entries.remove(i);
                self.view = Ghost(self.view@.remove(id));
                proof {
                    let after = self.entries@;
                    assert(after == before.remove(i as int));
                    assert forall|a: int| 0 <= a < after.len() implies {
                        &&& #[trigger] self.view@.contains_key(after[a].id)
                        &&& self.view@[after[a].id] == after[a]
                    } by {
                        let a2 = if a < i { a } else { a + 1 };
                        assert(after[a] == before[a2] && a2 != i);
                        assert(old(self).view@.contains_key(before[a2].id));
                    }
                    assert forall|k: CallbackId| #[trigger] self.view@.contains_key(k) implies exists|a: int|
                        0 <= a < after.len() && #[trigger] after[a].id == k by {
                        let j = choose|j: int| 0 <= j < before.len() && #[trigger] before[j].id == k;
                        assert(j != i);
                        let j2 = if j < i { j } else { j - 1 };
                        assert(after[j2].id == k);
                    }
                    assert forall|a: int, b: int|
                        0 <= a < after.len() && 0 <= b < after.len() && a != b implies after[a].id != after[b].id by {
                        let a2 = if a < i { a } else { a + 1 };
                        let b2 = if b < i { b } else { b + 1 };
                        assert(after[a] == before[a2] && after[b] == before[b2]);
                    }
                }
            },
            None => {
                proof {
                    assert(self.view@ =~= self.view@.remove(id));
                }
            },
        }
    }

    /// `clearTimeout` / `clearInterval`: forgets the callback registered under
    /// `id`, if any, and returns the cancel request to send to the scheduler.
    pub fn clear(&mut self, id: CallbackId) -> (r: SchedulerMessage)
        requires
            old(self).wf(),
        ensures
            final(self).wf(),
            (final(self).registered(), final(self).next_id()) == apply_op(
                old(self).registered(),
                old(self).next_id(),
                TimerOp::Clear(id),
            ),
            final(self).next_id() == old(self).next_id(),
            final(self).registered() == old(self).registered().remove(id),
            r == SchedulerMessage::ClearTimer(id),
    {
        self.unregister(id);
        SchedulerMessage::ClearTimer(id)
    }

    /// The callback to run when a completion for `id` arrives: none if the id
    /// is no longer registered.
    pub fn callback(&self, id: CallbackId) -> (r: Option<&C>)
        requires
            self.wf(),
        ensures
            match r {
                Some(c) => self.registered().contains_key(id) && *c == self.registered()[id].callback,
                None => !self.registered().contains_key(id),
            },
    {
        match self.find(id) {
            Some(i) => {
                proof {
                    assert(self.view@.contains_key(self.entries@[i as int].id));
                }
                Some(&self.entries[i].callback)
            },
            None => None,
        }
    }

    /// Called once the callback for `id` has run: a timeout is forgotten, an
    /// interval stays registered.
    pub fn finish(&mut self, id: CallbackId)
        requires
            old(self).wf(),
        ensures
            final(self).wf(),
            (final(self).registered(), final(self).next_id()) == apply_op(
                old(self).registered(),
                old(self).next_id(),
                TimerOp::Finish(id),
            ),
            final(self).next_id() == old(self).next_id(),
            final(self).registered() == if old(self).registered().contains_key(id)
                && old(self).registered()[id].kind == TimerKind::Timeout {
                old(self).registered().remove(id)
            } else {
                old(self).registered()
            },
    {
        match self.find(id) {
            Some(i) => {
                proof {
                    assert(self.view@.contains_key(self.entries@[i as int].id));
                }
                if self.entries[i].kind == TimerKind::Timeout {
                    self.unregister(id);
                }
            },
            None => {},
        }
    }
}

} // verus!
