//! Non-blocking TCP wrappers' decision core: what one poll of an accept,
//! read or write does with the outcome of the non-blocking OS call — yield
//! the result, or register the polling task's wake handle with the reactor
//! for the relevant direction and report "not ready". The OS calls
//! themselves are the embedding's.

use vstd::prelude::*;
use crate::executor::Executor;
use crate::reactor::{fd_in_range, read_key, write_key, WakeId};

verus! {

/// The outcome of one non-blocking OS call, as classified by the embedding:
/// it succeeded with a count (bytes moved, or the accepted descriptor),
/// it would block, or it failed with some other error.
#[derive(Clone, Copy)]
pub enum IoOutcome {
    Done(usize),
    WouldBlock,
    Fail,
}

/// The result of one poll of an asynchronous byte operation: ready with a
/// count, not ready yet (a wake handle is now registered), or failed — the
/// error itself stays with the embedding that observed it.
#[derive(Clone, Copy, Debug, PartialEq, Eq, Structural)]
pub enum IoPoll {
    Ready(usize),
    Pending,
    Error,
}

/// The result of one poll of the listener's lazy sequence of accepted
/// connections: a new stream wrapper (already registered with the reactor),
/// not ready yet, or a connection-level error that ends this item only —
/// the sequence itself continues.
pub enum AcceptPoll {
    Ready(TcpStream),
    Pending,
    Error,
}

/// A non-blocking TCP stream wrapper's core: the descriptor it owns. The
/// descriptor is registered with the reactor exactly once, at construction,
/// and deregistered exactly once, at [`TcpStream::close`]; no poll
/// registers or deregisters it.
pub struct TcpStream {
    fd: usize,
}

impl TcpStream {
    /// The wrapped OS socket descriptor.
    pub closed spec fn descriptor(self) -> usize {
        self.fd
    }

    /// Both direction keys of the descriptor fit in `usize`.
    pub open spec fn wf(self) -> bool {
        fd_in_range(self.descriptor())
    }

    /// The descriptor, for the embedding's OS calls.
    pub fn fd(&self) -> (fd: usize)
        ensures
            fd == self.descriptor(),
    {
        self.fd
    }

    /// Wrap an accepted or connected socket. Registers the descriptor with
    /// the reactor — the single registration of this wrapper's lifetime.
    /// The completion table is untouched and no task is queued or woken.
    pub fn from(ex: &mut Executor, fd: usize) -> (s: TcpStream)
        requires
            fd_in_range(fd),
        ensures
            s.descriptor() == fd,
            s.wf(),
            final(ex).table() == old(ex).table(),
            final(ex).registered() == old(ex).registered().insert(fd),
            final(ex).queue() == old(ex).queue(),
            final(ex).state() == old(ex).state(),
    {
        ex.add_source(fd);
        TcpStream { fd }
    }

    /// Decide one poll of an asynchronous read, given the outcome of the
    /// non-blocking OS read the embedding attempted. A count of 0 signals
    /// orderly peer shutdown; would-block registers the read-direction wake
    /// handle and yields "not ready"; any other error propagates as the
    /// poll's result.
    pub fn poll_read(&self, ex: &mut Executor, outcome: IoOutcome, waker: WakeId) -> (r: IoPoll)
        requires
            self.wf(),
        ensures
            match outcome {
                IoOutcome::Done(n) => r == IoPoll::Ready(n) && final(ex).table() == old(
                    ex,
                ).table(),
                IoOutcome::WouldBlock => r == IoPoll::Pending && final(ex).table() == old(
                    ex,
                ).table().insert(read_key(self.descriptor()), Some(waker)),
                IoOutcome::Fail => r == IoPoll::Error && final(ex).table() == old(ex).table(),
            },
            final(ex).queue() == old(ex).queue(),
            final(ex).registered() == old(ex).registered(),
            final(ex).state() == old(ex).state(),
    {
        match outcome {
            IoOutcome::Done(n) => IoPoll::Ready(n),
            IoOutcome::WouldBlock => {
                ex.modify_readable(self.fd, waker);
                IoPoll::Pending
            },
            IoOutcome::Fail => IoPoll::Error,
        }
    }

    /// Decide one poll of an asynchronous write, given the outcome of the
    /// non-blocking OS write the embedding attempted. Would-block registers
    /// the write-direction wake handle; any other error propagates.
    pub fn poll_write(&self, ex: &mut Executor, outcome: IoOutcome, waker: WakeId) -> (r: IoPoll)
        requires
            self.wf(),
        ensures
            match outcome {
                IoOutcome::Done(n) => r == IoPoll::Ready(n) && final(ex).table() == old(
                    ex,
                ).table(),
                IoOutcome::WouldBlock => r == IoPoll::Pending && final(ex).table() == old(
                    ex,
                ).table().insert(write_key(self.descriptor()), Some(waker)),
                IoOutcome::Fail => r == IoPoll::Error && final(ex).table() == old(ex).table(),
            },
            final(ex).queue() == old(ex).queue(),
            final(ex).registered() == old(ex).registered(),
            final(ex).state() == old(ex).state(),
    {
        match outcome {
            IoOutcome::Done(n) => IoPoll::Ready(n),
            IoOutcome::WouldBlock => {
                ex.modify_writable(self.fd, waker);
                IoPoll::Pending
            },
            IoOutcome::Fail => IoPoll::Error,
        }
    }

    /// Flushing is a no-op that reports immediate success: the design
    /// defers OS-level flush semantics entirely.
    pub fn poll_flush(&self) -> (r: IoPoll)
        ensures
            r == IoPoll::Ready(0),
    {
        IoPoll::Ready(0)
    }

    /// Shutdown is likewise a no-op reporting immediate success: half-close
    /// semantics are deferred entirely.
    pub fn poll_shutdown(&self) -> (r: IoPoll)
        ensures
            r == IoPoll::Ready(0),
    {
        IoPoll::Ready(0)
    }

    /// Deregister the descriptor, dropping any pending completion for
    /// either direction — the single deregistration of this wrapper's
    /// lifetime, performed when the embedding destroys it, so no dangling
    /// wake registration survives the descriptor.
    pub fn close(&self, ex: &mut Executor)
        requires
            self.wf(),
        ensures
            final(ex).table() == old(ex).table().remove(read_key(self.descriptor())).remove(
                write_key(self.descriptor()),
            ),
            final(ex).registered() == old(ex).registered().remove(self.descriptor()),
            final(ex).queue() == old(ex).queue(),
            final(ex).state() == old(ex).state(),
    {
        ex.delete_source(self.fd);
    }
}

/// A non-blocking TCP listener wrapper's core: the listening descriptor.
pub struct TcpListener {
    fd: usize,
}

impl TcpListener {
    /// The listening socket's descriptor.
    pub closed spec fn descriptor(self) -> usize {
        self.fd
    }

    /// Both direction keys of the descriptor fit in `usize`.
    pub open spec fn wf(self) -> bool {
        fd_in_range(self.descriptor())
    }

    /// The descriptor, for the embedding's OS calls.
    pub fn fd(&self) -> (fd: usize)
        ensures
            fd == self.descriptor(),
    {
        self.fd
    }

    /// Complete a bind: the embedding has resolved the address, created a
    /// stream socket of the matching family, enabled address reuse, bound
    /// and listened — all fallibly, surfacing any error to its caller
    /// before anything is registered. Only then is the descriptor
    /// registered with the reactor, here; a failed bind therefore leaves no
    /// half-registered listener behind.
    pub fn bind(ex: &mut Executor, fd: usize) -> (l: TcpListener)
        requires
            fd_in_range(fd),
        ensures
            l.descriptor() == fd,
            l.wf(),
            final(ex).table() == old(ex).table(),
            final(ex).registered() == old(ex).registered().insert(fd),
            final(ex).queue() == old(ex).queue(),
            final(ex).state() == old(ex).state(),
    {
        ex.add_source(fd);
        TcpListener { fd }
    }

    /// Decide one poll of the accept sequence, given the outcome of the
    /// non-blocking accept the embedding attempted. A success yields a new
    /// stream wrapper, registered with the reactor at its construction
    /// here; would-block registers the listener's read-direction wake
    /// handle; any other error is yielded for this item only.
    pub fn poll_next(&self, ex: &mut Executor, outcome: IoOutcome, waker: WakeId) -> (r:
        AcceptPoll)
        requires
            self.wf(),
            outcome matches IoOutcome::Done(nfd) ==> fd_in_range(nfd),
        ensures
            match outcome {
                IoOutcome::Done(nfd) => {
                    &&& r matches AcceptPoll::Ready(s) && s.descriptor() == nfd && s.wf()
                    &&& final(ex).table() == old(ex).table()
                    &&& final(ex).registered() == old(ex).registered().insert(nfd)
                },
                IoOutcome::WouldBlock => {
                    &&& r is Pending
                    &&& final(ex).table() == old(ex).table().insert(
                        read_key(self.descriptor()),
                        Some(waker),
                    )
                    &&& final(ex).registered() == old(ex).registered()
                },
                IoOutcome::Fail => {
                    &&& r is Error
                    &&& final(ex).table() == old(ex).table()
                    &&& final(ex).registered() == old(ex).registered()
                },
            },
            final(ex).queue() == old(ex).queue(),
            final(ex).state() == old(ex).state(),
    {
        match outcome {
            IoOutcome::Done(nfd) => AcceptPoll::Ready(TcpStream::from(ex, nfd)),
            IoOutcome::WouldBlock => {
                ex.modify_readable(self.fd, waker);
                AcceptPoll::Pending
            },
            IoOutcome::Fail => AcceptPoll::Error,
        }
    }
}

} // verus!
