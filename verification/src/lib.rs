//! A readiness-driven model of local (same-host) stream, listening, and
//! datagram sockets.
//!
//! The heart of the library is the protocol that bridges edge-triggered
//! readiness notifications to cooperative task suspension: for every
//! read/write/accept/send/receive attempt it decides whether to perform the
//! operation now, report "not ready yet", or re-arm interest after a spurious
//! wakeup.  All socket state lives in an explicit [`net::Net`] value, so the
//! whole protocol — including the subtle missed-wakeup and spurious-readiness
//! cases — is verified, and an event loop can drive it by delivering readiness
//! edges.

pub mod addr;
pub mod datagram;
pub mod error;
pub mod laws;
pub mod listener;
pub mod net;
pub mod ready;
pub mod stream;

pub use addr::SocketAddr;
pub use datagram::UnixDatagram;
pub use error::{is_wouldblock, SockError};
pub use listener::{AcceptOutcome, Incoming, UnixListener};
pub use net::{Net, Shutdown, SockKind};
pub use ready::{Async, Registration};
pub use stream::UnixStream;
