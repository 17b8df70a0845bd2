//! The error classes a socket operation can report.
//!
//! Would-block is distinguished from every genuine error: it is a suspension
//! and re-arm signal, never a terminal failure.

use vstd::prelude::*;

verus! {

/// The outcome classes of a failed socket operation.
///
/// `WouldBlock` means "not ready yet": the caller should re-arm interest and
/// suspend, not treat the operation as failed.  Every other variant is a
/// genuine error, propagated unchanged to the caller.
#[derive(Clone, Copy, Debug, PartialEq, Eq, Structural)]
pub enum SockError {
    /// The operation cannot complete immediately; suspend and retry after the
    /// next readiness edge.
    WouldBlock,
    /// A send or receive needed a fixed peer, and none is associated.
    NotConnected,
    /// Binding found the address already in use.
    AddrInUse,
    /// No socket is bound at the named path.
    NotFound,
    /// The destination exists but refuses this connection or datagram.
    ConnectionRefused,
    /// The local end was shut down for writing, or its peer is gone.
    BrokenPipe,
    /// The socket object was destroyed; a suspended operation on it must fail
    /// rather than hang.
    Closed,
    /// The event loop cannot track another handle; fatal to the constructing
    /// call.
    RegistrationFailed,
    /// Any other asynchronously recorded socket error, by OS error number.
    Os(u32),
}

/// Does this result carry the distinguished would-block condition?
///
/// Genuine errors and successes both answer `false`: only the "suspend and
/// re-arm" signal answers `true`.
pub fn is_wouldblock<T>(r: &Result<T, SockError>) -> (b: bool)
    ensures
        b == (r is Err && r->Err_0 == SockError::WouldBlock),
{
    match *r {
        Ok(_) => false,
        Err(ref e) => *e == SockError::WouldBlock,
    }
}

} // verus!
