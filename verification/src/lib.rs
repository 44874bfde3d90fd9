//! A minimal single-threaded cooperative task runtime with an I/O readiness
//! reactor.
//!
//! The crate holds the runtime's decision core: the FIFO ready queue, the
//! reactor's completion table keyed by (descriptor, direction), the
//! executor's scheduling state machine, and the poll logic of the
//! non-blocking TCP wrappers. Tasks are identified by integer ids; the
//! embedding that owns the actual suspended computations, sockets and the OS
//! readiness multiplexer drives these functions and performs the I/O they
//! decide on.

pub mod executor;
pub mod reactor;
pub mod tcp;
