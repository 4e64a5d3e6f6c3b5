use vstd::prelude::*;

use crate::runtime::{CallbackId, SchedulerMessage};

verus! {

#[verifier::external_type_specification]
#[verifier::external_body]
#[verifier::reject_recursive_types(T)]
pub struct ExJoinHandle<T>(tokio::task::JoinHandle<T>);

#[verifier::external_type_specification]
#[verifier::external_body]
pub struct ExJoinError(tokio::task::JoinError);

/// Relies on tokio's `JoinHandle::abort`: it asks the runtime to cancel the
/// task and returns without panicking, whatever state the task is in.
pub assume_specification<T>[ tokio::task::JoinHandle::<T>::abort ](h: &tokio::task::JoinHandle<T>);

/// A running timer or interval task, cancellable through its handle.
pub struct TrackedTask {
    pub id: CallbackId,
    pub handle: tokio::task::JoinHandle<()>,
}

/// What the executor side must do after the scheduler has taken a request.
#[derive(Debug, Clone, PartialEq, Eq)]
pub enum SchedulerAction {
    /// Spawn a task that sleeps `delay_ms` and then reports the timeout.
    SpawnTimeout { id: CallbackId, delay_ms: u64 },
    /// Spawn a task that skips its first period and then reports every period.
    SpawnInterval { id: CallbackId, period_ms: u64 },
    /// Spawn a task that fetches `url`; it is not held for cancellation.
    SpawnFetch { id: CallbackId, url: String },
    /// Stop taking requests: the scheduler has shut down.
    Stop,
    /// Nothing to start.
    Idle,
}

/// The abstract state of a scheduler.
pub struct SchedulerModel {
    /// Ids whose task is still running and can be cancelled.
    pub running: Set<CallbackId>,
    /// Whether `Shutdown` has been taken.
    pub stopped: bool,
    /// Ids whose task this scheduler has aborted.
    pub aborted: Set<CallbackId>,
}

/// The state after `msg` is taken in state `m`.
pub open spec fn step(m: SchedulerModel, msg: SchedulerMessage) -> SchedulerModel {
    if m.stopped {
        m
    } else {
        match msg {
            SchedulerMessage::ClearTimer(id) => if m.running.contains(id) {
                SchedulerModel {
                    running: m.running.remove(id),
                    stopped: false,
                    aborted: m.aborted.insert(id),
                }
            } else {
                m
            },
            SchedulerMessage::Shutdown => SchedulerModel {
                running: Set::empty(),
                stopped: true,
                aborted: m.aborted.union(m.running),
            },
            _ => m,
        }
    }
}

/// What the executor side is asked to do when `msg` is taken in state `m`.
pub open spec fn action(m: SchedulerModel, msg: SchedulerMessage) -> SchedulerAction {
    if m.stopped {
        SchedulerAction::Idle
    } else {
        match msg {
            SchedulerMessage::ScheduleTimeout(id, delay_ms) => SchedulerAction::SpawnTimeout {
                id,
                delay_ms,
            },
            SchedulerMessage::ScheduleInterval(id, period_ms) => SchedulerAction::SpawnInterval {
                id,
                period_ms,
            },
            SchedulerMessage::ClearTimer(_) => SchedulerAction::Idle,
            SchedulerMessage::Fetch(id, url) => SchedulerAction::SpawnFetch { id, url },
            SchedulerMessage::Shutdown => SchedulerAction::Stop,
        }
    }
}

/// The state after the task spawned for `id` is handed back to be held.
/// A scheduler that has stopped aborts it at once.
pub open spec fn track_step(m: SchedulerModel, id: CallbackId) -> SchedulerModel {
    if m.stopped {
        SchedulerModel { aborted: m.aborted.insert(id), ..m }
    } else {
        SchedulerModel { running: m.running.insert(id), ..m }
    }
}

/// The state after the requests of `msgs` are taken in order from state `m`.
pub open spec fn steps(m: SchedulerModel, msgs: Seq<SchedulerMessage>) -> SchedulerModel
    decreases msgs.len(),
{
    if msgs.len() == 0 {
        m
    } else {
        steps(step(m, msgs[0]), msgs.subrange(1, msgs.len() as int))
    }
}

/// Shutdown aborts every task running when it is taken and leaves none
/// running. It is terminal: no later request starts a task or changes the
/// state, and a task handed over afterwards is aborted at once, so no timeout
/// or interval fires after shutdown.
pub proof fn lemma_shutdown_is_terminal(m: SchedulerModel, later: Seq<SchedulerMessage>, id: CallbackId)
    requires
        !m.stopped,
    ensures
        m.running.subset_of(step(m, SchedulerMessage::Shutdown).aborted),
        step(m, SchedulerMessage::Shutdown).running == Set::<CallbackId>::empty(),
        step(m, SchedulerMessage::Shutdown).stopped,
        action(m, SchedulerMessage::Shutdown) == SchedulerAction::Stop,
        steps(step(m, SchedulerMessage::Shutdown), later) == step(m, SchedulerMessage::Shutdown),
        forall|i: int| 0 <= i < later.len()
            ==> action(steps(step(m, SchedulerMessage::Shutdown), later.take(i)), #[trigger] later[i])
                == SchedulerAction::Idle,
        track_step(step(m, SchedulerMessage::Shutdown), id).running == Set::<CallbackId>::empty(),
        track_step(step(m, SchedulerMessage::Shutdown), id).aborted.contains(id),
{
    let s = step(m, SchedulerMessage::Shutdown);
    lemma_stopped_is_fixed(s, later);
    assert forall|i: int| 0 <= i < later.len() implies
        action(steps(s, later.take(i)), #[trigger] later[i]) == SchedulerAction::Idle by {
        lemma_stopped_is_fixed(s, later.take(i));
    }
}

/// A stopped scheduler takes every request without changing.
pub proof fn lemma_stopped_is_fixed(m: SchedulerModel, msgs: Seq<SchedulerMessage>)
    requires
        m.stopped,
    ensures
        steps(m, msgs) == m,
    decreases msgs.len(),
{
    if msgs.len() > 0 {
        lemma_stopped_is_fixed(step(m, msgs[0]), msgs.subrange(1, msgs.len() as int));
    }
}

/// A timeout cleared before it fires is aborted: once its task is held,
/// `ClearTimer(id)` aborts that task and no longer holds it.
pub proof fn lemma_cleared_timeout_is_aborted(m: SchedulerModel, id: CallbackId, delay_ms: u64)
    requires
        !m.stopped,
    ensures
        action(m, SchedulerMessage::ScheduleTimeout(id, delay_ms)) == (SchedulerAction::SpawnTimeout {
            id,
            delay_ms,
        }),
        ({
            let held = track_step(step(m, SchedulerMessage::ScheduleTimeout(id, delay_ms)), id);
            let cleared = step(held, SchedulerMessage::ClearTimer(id));
            &&& held.running.contains(id)
            &&& !cleared.running.contains(id)
            &&& cleared.aborted.contains(id)
        }),
{
}

/// The table of running timer and interval tasks, and whether the scheduler
/// has shut down. Requests are taken one at a time, in the order they were sent.
pub struct Scheduler {
    tasks: Vec<TrackedTask>,
    stopped: bool,
    aborted: Ghost<Set<CallbackId>>,
}

impl Scheduler {
    pub closed spec fn task_ids(&self) -> Seq<CallbackId> {
        self.tasks@.map_values(|t: TrackedTask| t.id)
    }

    pub closed spec fn model(&self) -> SchedulerModel {
        SchedulerModel {
            running: self.task_ids().to_set(),
            stopped: self.stopped,
            aborted: self.aborted@,
        }
    }

    /// No two held tasks share an id.
    pub closed spec fn wf(&self) -> bool {
        self.task_ids().no_duplicates()
    }

    pub fn new() -> (s: Scheduler)
        ensures
            s.wf(),
            s.model().running == Set::<CallbackId>::empty(),
            !s.model().stopped,
            s.model().aborted == Set::<CallbackId>::empty(),
    {
        let s = Scheduler { tasks: Vec::new(), stopped: false, aborted: Ghost(Set::empty()) };
        assert(s.task_ids().to_set() =~= Set::empty());
        s
    }

    pub fn is_stopped(&self) -> (r: bool)
        ensures
            r == self.model().stopped,
    {
        self.stopped
    }

    fn find(&self, id: CallbackId) -> (r: Option<usize>)
        ensures
            match r {
                Some(i) => i < self.tasks@.len() && self.tasks@[i as int].id == id,
                None => !self.task_ids().contains(id),
            },
    {
        let mut i: usize = 0;
        while i < self.tasks.len()
            invariant
                i <= self.tasks@.len(),
                forall|j: int| 0 <= j < i ==> self.tasks@[j].id != id,
            decreases self.tasks@.len() - i,
        {
            if self.tasks[i].id == id {
                return Some(i);
            }
            i += 1;
        }
        None
    }

    pub fn is_tracked(&self, id: CallbackId) -> (r: bool)
        ensures
            r == self.model().running.contains(id),
    {
        match self.find(id) {
            Some(i) => {
                assert(self.task_ids()[i as int] == id);
                true
            },
            None => false,
        }
    }

    /// Takes one request and says what the executor side must start.
    pub fn handle(&mut self, msg: SchedulerMessage) -> (r: SchedulerAction)
        requires
            old(self).wf(),
        ensures
            final(self).wf(),
            final(self).model() == step(old(self).model(), msg),
            r == action(old(self).model(), msg),
    {
        if self.stopped {
            return SchedulerAction::Idle;
        }
        match msg {
            SchedulerMessage::ScheduleTimeout(id, delay_ms) => SchedulerAction::SpawnTimeout {
                id,
                delay_ms,
            },
            SchedulerMessage::ScheduleInterval(id, period_ms) => SchedulerAction::SpawnInterval {
                id,
                period_ms,
            },
            SchedulerMessage::ClearTimer(id) => {
                self.cancel(id);
                SchedulerAction::Idle
            },
            SchedulerMessage::Fetch(id, url) => SchedulerAction::SpawnFetch { id, url },
            SchedulerMessage::Shutdown => {
                self.abort_all();
                SchedulerAction::Stop
            },
        }
    }

    /// Aborts the task held under `id`, if there is one, and forgets it.
    fn cancel(&mut self, id: CallbackId)
        requires
            old(self).wf(),
            !old(self).stopped,
        ensures
            final(self).wf(),
            final(self).model() == step(old(self).model(), SchedulerMessage::ClearTimer(id)),
    {
        match self.find(id) {
            Some(i) => {
                let ghost before = self.task_ids();
                let task = self.tasks.remove(i);
                task.handle.abort();
                self.aborted = Ghost(self.aborted@.insert(id));
                proof {
                    let after = self.task_ids();
                    assert(after =~= before.remove(i as int));
                    assert(before[i as int] == id);
                    assert forall|a: int, b: int|
                        0 <= a < after.len() && 0 <= b < after.len() && a != b implies after[a] != after[b] by {
                        let a2 = if a < i { a } else { a + 1 };
                        let b2 = if b < i { b } else { b + 1 };
                        assert(after[a] == before[a2] && after[b] == before[b2]);
                    }
                    assert forall|x: CallbackId|
                        after.to_set().contains(x) <==> before.to_set().remove(id).contains(x) by {
                        if after.contains(x) {
                            let k = choose|k: int| 0 <= k < after.len() && after[k] == x;
                            let k2 = if k < i { k } else { k + 1 };
                            assert(before[k2] == x && k2 != i);
                        }
                        if before.contains(x) && x != id {
                            let k = choose|k: int| 0 <= k < before.len() && before[k] == x;
                            let k2 = if k < i { k } else { k - 1 };
                            assert(after[k2] == x);
                        }
                    }
                    assert(after.to_set() =~= before.to_set().remove(id));
                }
            },
            None => {},
        }
    }

    /// Aborts every held task, forgets them all, and stops.
    fn abort_all(&mut self)
        requires
            old(self).wf(),
            !old(self).stopped,
        ensures
            final(self).wf(),
            final(self).model() == step(old(self).model(), SchedulerMessage::Shutdown),
    {
        let ghost start = self.model();
        assert(self.aborted@ =~= start.aborted.union(start.running.difference(self.task_ids().to_set())));
        while self.tasks.len() > 0
            invariant
                self.wf(),
                !self.stopped,
                self.task_ids().to_set().subset_of(start.running),
                self.aborted@ == start.aborted.union(start.running.difference(self.task_ids().to_set())),
            decreases self.tasks@.len(),
        {
            let ghost before = self.task_ids();
            let task = self.tasks.pop().unwrap();
            task.handle.abort();
            self.aborted = Ghost(self.aborted@.insert(task.id));
            proof {
                let after = self.task_ids();
                assert(before =~= after.push(task.id));
                assert(before[after.len() as int] == task.id);
                assert forall|a: int, b: int|
                    0 <= a < after.len() && 0 <= b < after.len() && a != b implies after[a] != after[b] by {
                    assert(after[a] == before[a] && after[b] == before[b]);
                }
                assert forall|x: CallbackId| after.to_set().contains(x) <==> before.to_set().remove(task.id).contains(x) by {
                    if after.contains(x) {
                        let k = choose|k: int| 0 <= k < after.len() && after[k] == x;
                        assert(before[k] == x && k != after.len());
                    }
                    if before.contains(x) && x != task.id {
                        let k = choose|k: int| 0 <= k < before.len() && before[k] == x;
                        assert(after[k] == x);
                    }
                }
                assert(after.to_set() =~= before.to_set().remove(task.id));
                assert(before.contains(task.id));
                assert(self.aborted@ =~= start.aborted.union(start.running.difference(after.to_set())));
            }
        }
        self.stopped = true;
        proof {
            assert(self.task_ids().to_set() =~= Set::empty());
            assert(self.aborted@ =~= start.aborted.union(start.running));
        }
    }

    /// Takes the handle of the task that was spawned for `id`. A later
    /// `ClearTimer(id)` or `Shutdown` aborts it. A handle already held under
    /// `id` is replaced, and its task left to run. A handle that comes after
    /// shutdown is aborted at once.
    pub fn track(&mut self, id: CallbackId, handle: tokio::task::JoinHandle<()>)
        requires
            old(self).wf(),
        ensures
            final(self).wf(),
            final(self).model() == track_step(old(self).model(), id),
    {
        if self.stopped {
            handle.abort();
            self.aborted = Ghost(self.aborted@.insert(id));
            return;
        }
        match self.find(id) {
            Some(i) => {
                let ghost before = self.task_ids();
                self.tasks.set(i, TrackedTask { id, handle });
                proof {
                    assert(self.task_ids() =~= before);
                    assert(before[i as int] == id);
                    assert(before.contains(id));
                    assert(before.to_set().insert(id) =~= before.to_set());
                }
            },
            None => {
                let ghost before = self.task_ids();
                self.tasks.push(TrackedTask { id, handle });
                proof {
                    let after = self.task_ids();
                    assert(after =~= before.push(id));
                    assert(after[before.len() as int] == id);
                    assert forall|a: int, b: int|
                        0 <= a < after.len() && 0 <= b < after.len() && a != b implies after[a] != after[b] by {
                        if a < before.len() && b < before.len() {
                            assert(after[a] == before[a] && after[b] == before[b]);
                        } else if a < before.len() {
                            assert(before.contains(after[a]));
                        } else {
                            assert(before.contains(after[b]));
                        }
                    }
                    before.lemma_push_to_set_commute(id);
                    assert(after.to_set() =~= before.to_set().insert(id));
                }
            },
        }
    }
}

} // verus!
