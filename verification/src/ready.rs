//! The readiness-gated registration record shared between one socket and the
//! event loop.
//!
//! The loop sets the readiness bits asynchronously when it observes an edge;
//! the socket queries them with `poll_read`/`poll_write` and consumes them
//! with `need_read`/`need_write`, which reset the bit to "unknown, must
//! re-check" and declare renewed interest.  Re-arming after every observed
//! would-block is what prevents a missed wakeup under edge-triggered
//! notification; under level-triggered notification the same calls are
//! harmless, so callers stay notification-model-agnostic.

use vstd::prelude::*;

verus! {

/// The result of a non-blocking readiness query: can the direction proceed
/// now, or must the caller suspend until the next readiness edge?
#[derive(Clone, Copy, Debug, PartialEq, Eq, Structural)]
pub enum Async {
    /// The direction is believed ready; a syscall attempt is worthwhile.
    Ready,
    /// Not ready: suspend until the loop delivers the next edge.
    NotReady,
}

impl Async {
    /// Is this the ready outcome?
    pub fn is_ready(&self) -> (b: bool)
        ensures
            b == (*self == Async::Ready),
    {
        match self {
            Async::Ready => true,
            Async::NotReady => false,
        }
    }

    /// Is this the not-ready outcome?
    pub fn is_not_ready(&self) -> (b: bool)
        ensures
            b == (*self == Async::NotReady),
    {
        match self {
            Async::Ready => false,
            Async::NotReady => true,
        }
    }
}

/// One socket's registration record with the event loop: a readiness bit per
/// direction.
///
/// Invariant maintained by construction: at most one registration exists per
/// raw handle; the loop sets the bits, the owning socket consumes them.
/// Registration starts optimistically ready in both directions, so the first
/// attempt always reaches the real operation and the operation's own
/// would-block outcome becomes the source of truth.
#[derive(Clone, Copy, Debug, PartialEq, Eq, Structural)]
pub struct Registration {
    /// Has the loop signalled read interest satisfied since the last re-arm?
    pub read_ready: bool,
    /// Has the loop signalled write interest satisfied since the last re-arm?
    pub write_ready: bool,
}

impl Registration {
    /// A fresh registration, optimistically ready in both directions.
    pub fn new() -> (r: Registration)
        ensures
            r == (Registration { read_ready: true, write_ready: true }),
    {
        Registration { read_ready: true, write_ready: true }
    }

    /// Never blocks and performs no syscall: reports whether the loop has
    /// signalled read readiness since the last re-arm.
    pub fn poll_read(&self) -> (r: Async)
        ensures
            r == (if self.read_ready {
                Async::Ready
            } else {
                Async::NotReady
            }),
    {
        if self.read_ready {
            Async::Ready
        } else {
            Async::NotReady
        }
    }

    /// Never blocks and performs no syscall: reports whether the loop has
    /// signalled write readiness since the last re-arm.
    pub fn poll_write(&self) -> (r: Async)
        ensures
            r == (if self.write_ready {
                Async::Ready
            } else {
                Async::NotReady
            }),
    {
        if self.write_ready {
            Async::Ready
        } else {
            Async::NotReady
        }
    }

    /// Consume read readiness and declare renewed interest: the bit returns
    /// to "unknown, must re-check" until the loop's next read edge.
    /// Idempotent: a redundant call leaves the record as it was.
    pub fn need_read(&mut self)
        ensures
            *final(self) == (Registration {
                read_ready: false,
                write_ready: old(self).write_ready,
            }),
    {
        self.read_ready = false;
    }

    /// Consume write readiness and declare renewed interest, symmetrically.
    /// Idempotent: a redundant call leaves the record as it was.
    pub fn need_write(&mut self)
        ensures
            *final(self) == (Registration {
                read_ready: old(self).read_ready,
                write_ready: false,
            }),
    {
        self.write_ready = false;
    }

    /// The event loop's side: deliver a read-readiness edge.
    pub fn on_read_edge(&mut self)
        ensures
            *final(self) == (Registration {
                read_ready: true,
                write_ready: old(self).write_ready,
            }),
    {
        self.read_ready = true;
    }

    /// The event loop's side: deliver a write-readiness edge.
    pub fn on_write_edge(&mut self)
        ensures
            *final(self) == (Registration {
                read_ready: old(self).read_ready,
                write_ready: true,
            }),
    {
        self.write_ready = true;
    }
}

} // verus!
