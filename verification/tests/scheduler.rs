use mio_runtime::executor::{ExecPhase, Executor, TaskQueue};
use mio_runtime::reactor::{Completion, IoEvent, Reactor};

#[test]
fn default_constructions_are_empty() {
    let mut q = TaskQueue::default();
    assert_eq!(q.pop(), None);
    let mut r = Reactor::default();
    let no_events: Vec<IoEvent> = Vec::new();
    assert!(r.dispatch(&no_events).is_empty());
    let ex = Executor::default();
    assert!(matches!(ex.current_phase(), ExecPhase::PollOuter));
}

#[test]
fn completion_delivers_then_exhausts() {
    let mut c = Completion::new(7);
    assert_eq!(c.complete(), Some(7));
    // A second completion without an intervening registration delivers nothing.
    assert_eq!(c.complete(), None);
    assert_eq!(c.complete(), None);
}

#[test]
fn queue_is_fifo() {
    let mut q = TaskQueue::new();
    assert_eq!(q.pop(), None);
    q.push(1);
    q.push(2);
    q.push(3);
    assert_eq!(q.pop(), Some(1));
    assert_eq!(q.pop(), Some(2));
    assert_eq!(q.pop(), Some(3));
    assert_eq!(q.pop(), None);
}

#[test]
fn queue_keeps_duplicates() {
    let mut q = TaskQueue::new_with_capacity(4);
    q.push(9);
    q.push(9);
    assert_eq!(q.len(), 2);
    assert_eq!(q.pop(), Some(9));
    assert_eq!(q.pop(), Some(9));
    assert_eq!(q.pop(), None);
}

#[test]
fn outer_ready_finishes_immediately() {
    let mut ex = Executor::new();
    assert!(matches!(ex.current_phase(), ExecPhase::PollOuter));
    ex.outer_polled(true);
    assert!(ex.is_done());
}

#[test]
fn drain_empties_queue_and_defers_wakes() {
    let mut ex = Executor::new();
    ex.spawn(1);
    ex.spawn(2);
    ex.outer_polled(false);
    assert!(matches!(ex.current_phase(), ExecPhase::DrainReady));

    // The drain takes exactly the tasks that were ready when it began,
    // in FIFO order, and leaves the queue empty.
    let batch = ex.drain_ready();
    assert_eq!(batch, vec![1, 2]);
    assert!(matches!(ex.current_phase(), ExecPhase::PollOuterAgain));

    // A task woken while the batch is being polled lands behind the batch:
    // it is kept for the next pass, never polled twice within this one.
    ex.wake(2);
    ex.outer_polled(false);
    assert!(matches!(ex.current_phase(), ExecPhase::Block));
    let no_events: Vec<IoEvent> = Vec::new();
    ex.react(&no_events);
    assert!(matches!(ex.current_phase(), ExecPhase::PollOuter));
    ex.outer_polled(false);
    let next_batch = ex.drain_ready();
    assert_eq!(next_batch, vec![2]);
}

#[test]
fn react_queues_all_woken_before_any_poll() {
    let mut ex = Executor::new();
    ex.outer_polled(false);
    let batch = ex.drain_ready();
    assert!(batch.is_empty());
    ex.modify_readable(3, 30);
    ex.modify_writable(4, 41);
    ex.outer_polled(false);
    let events = vec![
        IoEvent { token: 3, readable: true, writable: false },
        IoEvent { token: 4, readable: false, writable: true },
    ];
    ex.react(&events);
    // Both wakes were queued during the single reactor pass; the next drain
    // polls them in event order.
    ex.outer_polled(false);
    assert_eq!(ex.drain_ready(), vec![30, 41]);
}

#[test]
fn spawned_tasks_run_in_spawn_order() {
    let mut ex = Executor::new();
    for id in 10..20 {
        ex.spawn(id);
    }
    ex.outer_polled(false);
    let batch = ex.drain_ready();
    let expect: Vec<u64> = (10..20).collect();
    assert_eq!(batch, expect);
}
