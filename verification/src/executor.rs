//! The cooperative executor's decision core: the FIFO ready queue and the
//! scheduling state machine that drives the top-level computation, drains
//! ready tasks, and blocks on the reactor when nothing is runnable. The
//! polling of the actual suspended computations is the embedding's; it
//! drives this machine and reports each poll's outcome.

use vstd::prelude::*;
use std::collections::VecDeque;
use std::rc::Rc;
use crate::reactor::{events_in_range, table_after, woken_after, IoEvent, Reactor, WakeId};

verus! {

/// The default capacity reserved for the ready queue.
pub const DEFAULT_TASK_QUEUE_SIZE: usize = 2048;

/// A capability that, invoked, marks its owning task runnable again, by
/// shared reference or by consuming one shared-ownership handle. Invoking it
/// is the sole bridge from "a readiness event occurred" to "the task is on
/// the ready queue again". Implemented by the embedding's task type.
pub trait RcWake {
    /// Requeue the owning task, consuming this handle.
    fn wake(self: Rc<Self>);

    /// Requeue the owning task without consuming the handle.
    fn wake_by_ref(rc_self: &Rc<Self>);
}

/// The FIFO ready queue of task ids: insertion order is scheduling order,
/// with no deduplication — a task already queued can be queued again.
pub struct TaskQueue {
    queue: VecDeque<WakeId>,
}

impl View for TaskQueue {
    type V = Seq<WakeId>;

    closed spec fn view(&self) -> Seq<WakeId> {
        self.queue@
    }
}

impl TaskQueue {
    pub fn new() -> (q: TaskQueue)
        ensures
            q@ == Seq::<WakeId>::empty(),
    {
        Self::new_with_capacity(DEFAULT_TASK_QUEUE_SIZE)
    }

    pub fn new_with_capacity(capacity: usize) -> (q: TaskQueue)
        ensures
            q@ == Seq::<WakeId>::empty(),
    {
        TaskQueue { queue: VecDeque::with_capacity(capacity) }
    }

    /// Append a task at the back.
    pub fn push(&mut self, task: WakeId)
        ensures
            final(self)@ == old(self)@.push(task),
    {
        self.queue.push_back(task)
    }

    /// Remove and return the front task, or report the queue empty.
    pub fn pop(&mut self) -> (t: Option<WakeId>)
        ensures
            match t {
                Some(x) => old(self)@.len() > 0 && x == old(self)@[0] && final(self)@ == old(
                    self,
                )@.skip(1),
                None => old(self)@.len() == 0 && final(self)@ == old(self)@,
            },
    {
        self.queue.pop_front()
    }

    /// The number of queued tasks.
    pub fn len(&self) -> (n: usize)
        ensures
            n == self@.len(),
    {
        self.queue.len()
    }
}

impl Default for TaskQueue {
    fn default() -> (q: TaskQueue)
        ensures
            q@ == Seq::<WakeId>::empty(),
    {
        TaskQueue::new()
    }
}

/// The phases of the executor's run loop. Each pass polls the top-level
/// computation, drains the ready queue, polls the top-level computation
/// again (it may have become ready purely from task side effects, making a
/// block unnecessary), and only then blocks on the reactor.
#[derive(Clone, Copy, Debug)]
pub enum ExecPhase {
    /// Poll the top-level computation.
    PollOuter,
    /// Pop and poll every task that was ready at the start of the drain.
    DrainReady,
    /// Poll the top-level computation once more before blocking.
    PollOuterAgain,
    /// Block on the reactor until at least one readiness event arrives.
    Block,
    /// The top-level computation is complete.
    Done,
}

/// The executor: one reactor, one FIFO ready queue, and the phase the run
/// loop is in. The embedding owns the suspended computations; it asks this
/// machine what to do next, performs the poll or the blocking wait, and
/// reports the outcome back.
pub struct Executor {
    task_queue: TaskQueue,
    reactor: Reactor,
    phase: ExecPhase,
}

impl Executor {
    /// The ready queue's contents, front first.
    pub closed spec fn queue(self) -> Seq<WakeId> {
        self.task_queue@
    }

    /// The reactor's completion table.
    pub closed spec fn table(self) -> Map<usize, Option<WakeId>> {
        self.reactor.table()
    }

    /// The reactor's registered descriptors.
    pub closed spec fn registered(self) -> Set<usize> {
        self.reactor.registered()
    }

    /// The run loop's phase.
    pub closed spec fn state(self) -> ExecPhase {
        self.phase
    }

    pub fn new() -> (ex: Executor)
        ensures
            ex.queue() == Seq::<WakeId>::empty(),
            ex.table() == Map::<usize, Option<WakeId>>::empty(),
            ex.registered() == Set::<usize>::empty(),
            ex.state() is PollOuter,
    {
        Executor {
            task_queue: TaskQueue::new(),
            reactor: Reactor::new(),
            phase: ExecPhase::PollOuter,
        }
    }

    /// The current phase, for the embedding's run loop to branch on.
    pub fn current_phase(&self) -> (p: ExecPhase)
        ensures
            p == self.state(),
    {
        self.phase
    }

    /// Whether the top-level computation has completed.
    pub fn is_done(&self) -> (b: bool)
        ensures
            b == (self.state() is Done),
    {
        matches!(self.phase, ExecPhase::Done)
    }

    /// Add a newly spawned task at the back of the ready queue. Must be
    /// called only while the run loop is active (the embedding enforces
    /// this: outside a run, no executor exists to spawn onto).
    pub fn spawn(&mut self, task: WakeId)
        ensures
            final(self).queue() == old(self).queue().push(task),
            final(self).table() == old(self).table(),
            final(self).registered() == old(self).registered(),
            final(self).state() == old(self).state(),
    {
        self.task_queue.push(task)
    }

    /// Requeue a task whose wake handle was invoked. A task woken during a
    /// drain pass lands behind the batch already taken, so it is deferred
    /// to the next pass rather than polled twice within one pass.
    pub fn wake(&mut self, task: WakeId)
        ensures
            final(self).queue() == old(self).queue().push(task),
            final(self).table() == old(self).table(),
            final(self).registered() == old(self).registered(),
            final(self).state() == old(self).state(),
    {
        self.task_queue.push(task)
    }

    /// Report the outcome of polling the top-level computation. If it is
    /// ready the run is done; otherwise the first poll of a pass leads into
    /// the drain, and the second leads into the blocking wait.
    pub fn outer_polled(&mut self, ready: bool)
        requires
            old(self).state() is PollOuter || old(self).state() is PollOuterAgain,
        ensures
            final(self).queue() == old(self).queue(),
            final(self).table() == old(self).table(),
            final(self).registered() == old(self).registered(),
            ready ==> final(self).state() is Done,
            !ready && old(self).state() is PollOuter ==> final(self).state() is DrainReady,
            !ready && old(self).state() is PollOuterAgain ==> final(self).state() is Block,
    {
        if ready {
            self.phase = ExecPhase::Done;
        } else {
            match self.phase {
                ExecPhase::PollOuter => {
                    self.phase = ExecPhase::DrainReady;
                },
                _ => {
                    self.phase = ExecPhase::Block;
                },
            }
        }
    }

    /// Take the whole ready queue, in FIFO order, as the batch of tasks to
    /// poll in this drain pass. The queue is left empty: the drain completes
    /// before the executor may block, and every task queued when the drain
    /// began is polled exactly once in this pass. Tasks woken while the
    /// batch is being polled are pushed behind it and kept for the next
    /// pass.
    pub fn drain_ready(&mut self) -> (batch: Vec<WakeId>)
        requires
            old(self).state() is DrainReady,
        ensures
            batch@ == old(self).queue(),
            final(self).queue() == Seq::<WakeId>::empty(),
            final(self).state() is PollOuterAgain,
            final(self).table() == old(self).table(),
            final(self).registered() == old(self).registered(),
    {
        let mut batch: Vec<WakeId> = Vec::new();
        while self.task_queue.len() > 0
            invariant
                self.state() is DrainReady,
                batch@ + self.queue() == old(self).queue(),
                self.table() == old(self).table(),
                self.registered() == old(self).registered(),
            decreases self.queue().len(),
        {
            match self.task_queue.pop() {
                Some(t) => {
                    batch.push(t);
                    proof {
                        assert(batch@ + self.queue() =~= old(self).queue());
                    }
                },
                None => {},
            }
        }
        self.phase = ExecPhase::PollOuterAgain;
        proof {
            assert(batch@ =~= old(self).queue());
            assert(self.queue() =~= Seq::<WakeId>::empty());
        }
        batch
    }

    /// Report the batch of readiness events the reactor's blocking wait
    /// observed. Every completion they resolve is removed and its wake
    /// handle requeued, all before any task is polled again; then the next
    /// pass begins. A wait that failed at the OS level is reported as an
    /// empty batch: the pass simply retries.
    pub fn react(&mut self, events: &Vec<IoEvent>)
        requires
            old(self).state() is Block,
            events_in_range(events@),
        ensures
            final(self).state() is PollOuter,
            final(self).table() == table_after(old(self).table(), events@),
            final(self).queue() == old(self).queue() + woken_after(old(self).table(), events@),
            final(self).registered() == old(self).registered(),
    {
        let woken = self.reactor.dispatch(events);
        let ghost q0 = self.queue();
        let mut i: usize = 0;
        while i < woken.len()
            invariant
                i <= woken@.len(),
                self.queue() == q0 + woken@.take(i as int),
                self.table() == table_after(old(self).table(), events@),
                self.registered() == old(self).registered(),
                self.state() == old(self).state(),
                woken@ == woken_after(old(self).table(), events@),
            decreases woken@.len() - i,
        {
            self.task_queue.push(woken[i]);
            proof {
                assert(q0 + woken@.take(i + 1 as int) =~= (q0 + woken@.take(i as int)).push(
                    woken@[i as int],
                ));
            }
            i = i + 1;
        }
        self.phase = ExecPhase::PollOuter;
        proof {
            assert(woken@.take(woken@.len() as int) =~= woken@);
        }
    }

    /// Record that the task identified by `waker` waits for the read
    /// direction of `fd`, exactly as [`Reactor::modify_readable`] does.
    pub fn modify_readable(&mut self, fd: usize, waker: WakeId)
        requires
            crate::reactor::fd_in_range(fd),
        ensures
            final(self).table() == old(self).table().insert(
                crate::reactor::read_key(fd),
                Some(waker),
            ),
            final(self).queue() == old(self).queue(),
            final(self).registered() == old(self).registered(),
            final(self).state() == old(self).state(),
    {
        self.reactor.modify_readable(fd, waker)
    }

    /// Record that the task identified by `waker` waits for the write
    /// direction of `fd`.
    pub fn modify_writable(&mut self, fd: usize, waker: WakeId)
        requires
            crate::reactor::fd_in_range(fd),
        ensures
            final(self).table() == old(self).table().insert(
                crate::reactor::write_key(fd),
                Some(waker),
            ),
            final(self).queue() == old(self).queue(),
            final(self).registered() == old(self).registered(),
            final(self).state() == old(self).state(),
    {
        self.reactor.modify_writable(fd, waker)
    }

    /// Register a descriptor with the reactor.
    pub fn add_source(&mut self, fd: usize)
        ensures
            final(self).table() == old(self).table(),
            final(self).registered() == old(self).registered().insert(fd),
            final(self).queue() == old(self).queue(),
            final(self).state() == old(self).state(),
    {
        self.reactor.add(fd)
    }

    /// Deregister a descriptor, dropping any pending completions for it.
    pub fn delete_source(&mut self, fd: usize)
        requires
            crate::reactor::fd_in_range(fd),
        ensures
            final(self).table() == old(self).table().remove(crate::reactor::read_key(fd)).remove(
                crate::reactor::write_key(fd),
            ),
            final(self).registered() == old(self).registered().remove(fd),
            final(self).queue() == old(self).queue(),
            final(self).state() == old(self).state(),
    {
        self.reactor.delete(fd)
    }
}

impl Default for Executor {
    fn default() -> (ex: Executor)
        ensures
            ex.queue() == Seq::<WakeId>::empty(),
            ex.table() == Map::<usize, Option<WakeId>>::empty(),
            ex.registered() == Set::<usize>::empty(),
            ex.state() is PollOuter,
    {
        Executor::new()
    }
}

} // verus!
