use mio_runtime::executor::{ExecPhase, Executor};
use mio_runtime::reactor::{IoEvent, Reactor};
use mio_runtime::tcp::{AcceptPoll, IoOutcome, IoPoll, TcpListener, TcpStream};

fn read_event(fd: usize) -> IoEvent {
    IoEvent { token: fd, readable: true, writable: false }
}

fn write_event(fd: usize) -> IoEvent {
    IoEvent { token: fd, readable: false, writable: true }
}

#[test]
fn reactor_wakes_read_waiter_once() {
    let mut r = Reactor::new();
    r.modify_readable(5, 42);
    let woken = r.dispatch(&vec![read_event(5)]);
    assert_eq!(woken, vec![42]);
    // The completion left the table with its first delivery: the same event
    // again wakes nothing until a new registration is made.
    let again = r.dispatch(&vec![read_event(5)]);
    assert!(again.is_empty());
    r.modify_readable(5, 43);
    assert_eq!(r.dispatch(&vec![read_event(5)]), vec![43]);
}

#[test]
fn reactor_read_then_write_order() {
    let mut r = Reactor::new();
    r.modify_readable(5, 1);
    r.modify_writable(5, 2);
    let both = IoEvent { token: 5, readable: true, writable: true };
    assert_eq!(r.dispatch(&vec![both]), vec![1, 2]);
}

#[test]
fn reactor_isolates_descriptors() {
    let mut r = Reactor::new();
    r.modify_readable(3, 33);
    r.modify_readable(4, 44);
    // An event for one descriptor never touches another's completion.
    assert_eq!(r.dispatch(&vec![read_event(3)]), vec![33]);
    assert_eq!(r.dispatch(&vec![read_event(4)]), vec![44]);
}

#[test]
fn reactor_single_slot_overwrites() {
    let mut r = Reactor::new();
    r.modify_readable(6, 10);
    // Registering again for the same (descriptor, direction) silently
    // replaces the stored handle: only the newest waiter is woken.
    r.modify_readable(6, 11);
    assert_eq!(r.dispatch(&vec![read_event(6)]), vec![11]);
}

#[test]
fn delete_drops_both_directions() {
    let mut r = Reactor::new();
    r.modify_readable(7, 70);
    r.modify_writable(7, 71);
    r.delete(7);
    let both = IoEvent { token: 7, readable: true, writable: true };
    assert!(r.dispatch(&vec![both]).is_empty());
    // Deleting twice is harmless.
    r.delete(7);
    assert!(r.dispatch(&vec![both]).is_empty());
}

#[test]
fn add_never_corrupts_pending_completions() {
    let mut r = Reactor::new();
    r.add(5);
    r.add(5);
    r.modify_readable(5, 9);
    r.add(5);
    assert_eq!(r.dispatch(&vec![read_event(5)]), vec![9]);
}

#[test]
fn replaying_a_batch_delivers_nothing() {
    let mut r = Reactor::new();
    r.modify_readable(3, 30);
    r.modify_writable(4, 41);
    let batch = vec![read_event(3), write_event(4)];
    assert_eq!(r.dispatch(&batch), vec![30, 41]);
    // Every completion the batch resolved left the table with it: the same
    // batch again, with no registration in between, wakes nobody.
    assert!(r.dispatch(&batch).is_empty());
}

#[test]
fn stream_poll_read_outcomes() {
    let mut ex = Executor::new();
    let s = TcpStream::from(&mut ex, 5);
    assert_eq!(s.fd(), 5);
    assert_eq!(s.poll_read(&mut ex, IoOutcome::Done(4), 1), IoPoll::Ready(4));
    // A read of zero bytes signals orderly peer shutdown and is a ready
    // result, not an error: the task sees 0 and can finish without writing.
    assert_eq!(s.poll_read(&mut ex, IoOutcome::Done(0), 1), IoPoll::Ready(0));
    assert_eq!(s.poll_read(&mut ex, IoOutcome::Fail, 1), IoPoll::Error);
}

#[test]
fn stream_would_block_registers_and_reactor_wakes() {
    let mut ex = Executor::new();
    let s = TcpStream::from(&mut ex, 5);
    ex.outer_polled(false);
    let batch = ex.drain_ready();
    assert!(batch.is_empty());
    assert_eq!(s.poll_read(&mut ex, IoOutcome::WouldBlock, 77), IoPoll::Pending);
    ex.outer_polled(false);
    assert!(matches!(ex.current_phase(), ExecPhase::Block));
    ex.react(&vec![read_event(5)]);
    ex.outer_polled(false);
    assert_eq!(ex.drain_ready(), vec![77]);
}

#[test]
fn stream_write_would_block_uses_write_key() {
    let mut ex = Executor::new();
    let s = TcpStream::from(&mut ex, 5);
    assert_eq!(s.poll_write(&mut ex, IoOutcome::WouldBlock, 8), IoPoll::Pending);
    ex.outer_polled(false);
    ex.drain_ready();
    ex.outer_polled(false);
    // A read-only event must not wake a write waiter.
    ex.react(&vec![read_event(5)]);
    ex.outer_polled(false);
    assert!(ex.drain_ready().is_empty());
    ex.outer_polled(false);
    ex.react(&vec![write_event(5)]);
    ex.outer_polled(false);
    assert_eq!(ex.drain_ready(), vec![8]);
}

#[test]
fn stream_write_success_and_noops() {
    let mut ex = Executor::new();
    let s = TcpStream::from(&mut ex, 9);
    assert_eq!(s.poll_write(&mut ex, IoOutcome::Done(12), 1), IoPoll::Ready(12));
    assert_eq!(s.poll_write(&mut ex, IoOutcome::Fail, 1), IoPoll::Error);
    assert_eq!(s.poll_flush(), IoPoll::Ready(0));
    assert_eq!(s.poll_shutdown(), IoPoll::Ready(0));
}

#[test]
fn stream_close_drops_pending_wake() {
    let mut ex = Executor::new();
    let s = TcpStream::from(&mut ex, 5);
    assert_eq!(s.poll_read(&mut ex, IoOutcome::WouldBlock, 3), IoPoll::Pending);
    s.close(&mut ex);
    ex.outer_polled(false);
    ex.drain_ready();
    ex.outer_polled(false);
    ex.react(&vec![read_event(5)]);
    ex.outer_polled(false);
    // The dropped wrapper left no dangling wake registration behind.
    assert!(ex.drain_ready().is_empty());
}

#[test]
fn listener_accept_outcomes() {
    let mut ex = Executor::new();
    let l = TcpListener::bind(&mut ex, 4);
    assert_eq!(l.fd(), 4);
    match l.poll_next(&mut ex, IoOutcome::Done(7), 2) {
        AcceptPoll::Ready(s) => assert_eq!(s.fd(), 7),
        _ => panic!("accept success must yield a stream"),
    }
    // A connection-level error ends that item only: the sequence goes on.
    assert!(matches!(l.poll_next(&mut ex, IoOutcome::Fail, 2), AcceptPoll::Error));
    assert!(matches!(l.poll_next(&mut ex, IoOutcome::WouldBlock, 2), AcceptPoll::Pending));
    ex.outer_polled(false);
    ex.drain_ready();
    ex.outer_polled(false);
    ex.react(&vec![read_event(4)]);
    ex.outer_polled(false);
    assert_eq!(ex.drain_ready(), vec![2]);
}

#[test]
fn two_streams_echo_their_own_payloads() {
    // Two connections handled by two tasks: each waits on its own
    // descriptor, is woken by its own readiness event, and echoes only the
    // bytes it read — no cross-task leakage through the shared queue and
    // table.
    let mut ex = Executor::new();
    let a = TcpStream::from(&mut ex, 4);
    let b = TcpStream::from(&mut ex, 5);
    let payload_a = b"ping";
    let payload_b = b"pong";

    ex.outer_polled(false);
    assert!(ex.drain_ready().is_empty());
    assert_eq!(a.poll_read(&mut ex, IoOutcome::WouldBlock, 1), IoPoll::Pending);
    assert_eq!(b.poll_read(&mut ex, IoOutcome::WouldBlock, 2), IoPoll::Pending);
    ex.outer_polled(false);
    ex.react(&vec![read_event(4), read_event(5)]);
    ex.outer_polled(false);
    let ready = ex.drain_ready();
    assert_eq!(ready, vec![1, 2]);

    let mut echoed: Vec<(u64, Vec<u8>)> = Vec::new();
    for task in ready {
        let (stream, payload): (&TcpStream, &[u8]) = if task == 1 {
            (&a, payload_a)
        } else {
            (&b, payload_b)
        };
        match stream.poll_read(&mut ex, IoOutcome::Done(payload.len()), task) {
            IoPoll::Ready(n) => {
                let got = &payload[..n];
                match stream.poll_write(&mut ex, IoOutcome::Done(got.len()), task) {
                    IoPoll::Ready(written) => echoed.push((task, got[..written].to_vec())),
                    _ => panic!("write must succeed"),
                }
            }
            _ => panic!("read must succeed"),
        }
    }
    assert_eq!(echoed, vec![(1, payload_a.to_vec()), (2, payload_b.to_vec())]);
}
