//! A listening socket bound to a filesystem path, and the lazy sequence of
//! connections it accepts.
//!
//! Producing the next accepted connection is the most intricate part of the
//! readiness protocol: a not-ready poll must suspend without touching
//! anything; a readiness signal with no connection actually available (the
//! well-known spurious-wakeup race) must re-arm read interest and keep the
//! sequence alive; only a genuine OS error ends the sequence.  The sequence
//! itself never terminates on its own.  An accepted endpoint is registered
//! with the event loop before it is yielded — registration here is performed
//! synchronously when the connection is created, so a yielded endpoint can
//! always report readiness.

use vstd::prelude::*;

use crate::addr::{AddrView, SocketAddr};
use crate::error::SockError;
use crate::net::{matches_path, Net, SockKind, SockState, SockView};
use crate::ready::{Async, Registration};
use crate::stream::{fresh_stream_view, UnixStream};

verus! {

/// A Unix socket which can accept connections from other unix sockets.
#[derive(Debug)]
pub struct UnixListener {
    /// The slot index in the owning [`Net`].
    pub id: usize,
}

/// The view of a freshly bound listener slot.
pub open spec fn fresh_listener_view(local: AddrView) -> SockView {
    SockView {
        kind: SockKind::Listener,
        open: true,
        local,
        peer: None,
        rx: Seq::<u8>::empty(),
        dgrams: Seq::<crate::net::DgramView>::empty(),
        backlog: Seq::<usize>::empty(),
        reg: Registration { read_ready: true, write_ready: true },
        pending_error: None,
        shut_read: false,
        shut_write: false,
    }
}

/// The peer address yielded with an accepted connection: the local address
/// of the connecting endpoint.
pub open spec fn accepted_addr(net: Seq<SockView>, s: int) -> AddrView {
    match net[s].peer {
        Some(p) => net[p as int].local,
        None => AddrView::Unnamed,
    }
}

impl UnixListener {
    /// The handle points at a listener slot of this net.
    pub open spec fn valid(self, net: Seq<SockView>) -> bool {
        &&& (self.id as int) < net.len()
        &&& net[self.id as int].kind == SockKind::Listener
    }

    /// Creates a new listener bound to the specified path and registers it
    /// with the event loop.
    ///
    /// Fails with `AddrInUse` exactly when an open socket already occupies
    /// `path` in the namespace, and with `RegistrationFailed` exactly when
    /// the path is free but the loop cannot track another handle; nothing
    /// changes in either case.
    pub fn bind(net: &mut Net, path: &Vec<u8>) -> (r: Result<UnixListener, SockError>)
        requires
            old(net).wf(),
        ensures
            final(net).capacity == old(net).capacity,
            final(net).queue_cap == old(net).queue_cap,
            final(net).wf(),
            match r {
                Ok(lst) => {
                    &&& (forall|i: int|
                        0 <= i < old(net)@.len() ==> !matches_path(
                            #[trigger] old(net)@[i],
                            path@,
                        ))
                    &&& old(net)@.len() < old(net).capacity
                    &&& lst.id == old(net)@.len()
                    &&& final(net)@ == old(net)@.push(
                        fresh_listener_view(AddrView::Pathname(path@)),
                    )
                },
                Err(e) => {
                    &&& final(net)@ == old(net)@
                    &&& (e == SockError::AddrInUse <==> exists|i: int|
                        0 <= i < old(net)@.len() && matches_path(#[trigger] old(net)@[i], path@))
                    &&& (e == SockError::RegistrationFailed ==> old(net)@.len() >= old(
                        net,
                    ).capacity)
                    &&& (e == SockError::AddrInUse || e == SockError::RegistrationFailed)
                },
            },
    {
        match bind_at(net, path, SockKind::Listener) {
            Ok(id) => Ok(UnixListener { id }),
            Err(e) => Err(e),
        }
    }

    /// Returns the local socket address of this listener.
    pub fn local_addr(&self, net: &Net) -> (r: Result<SocketAddr, SockError>)
        requires
            self.valid(net@),
        ensures
            match r {
                Ok(a) => net@[self.id as int].open && a@ == net@[self.id as int].local,
                Err(e) => e == SockError::Closed && !net@[self.id as int].open,
            },
    {
        net.sock_local_addr(self.id)
    }

    /// Test whether this socket is ready to be read or not; no syscall, no
    /// state change.
    pub fn poll_read(&self, net: &Net) -> (r: Async)
        requires
            self.valid(net@),
        ensures
            r == (if net@[self.id as int].reg.read_ready {
                Async::Ready
            } else {
                Async::NotReady
            }),
    {
        net.sock_poll_read(self.id)
    }

    /// Returns the value of the pending asynchronous socket error, clearing
    /// it.
    pub fn take_error(&self, net: &mut Net) -> (r: Result<Option<SockError>, SockError>)
        requires
            old(net).wf(),
            self.valid(old(net)@),
        ensures
            final(net).wf(),
            final(net).capacity == old(net).capacity,
            final(net).queue_cap == old(net).queue_cap,
            match r {
                Ok(e) => {
                    &&& old(net)@[self.id as int].open
                    &&& e == old(net)@[self.id as int].pending_error
                    &&& final(net)@ == old(net)@.update(
                        self.id as int,
                        SockView { pending_error: None, ..old(net)@[self.id as int] },
                    )
                },
                Err(e) => {
                    &&& e == SockError::Closed
                    &&& !old(net)@[self.id as int].open
                    &&& final(net)@ == old(net)@
                },
            },
    {
        net.sock_take_error(self.id)
    }

    /// Destroy this listener: any accept still suspended on it fails with
    /// `Closed` instead of hanging.
    pub fn close(&self, net: &mut Net)
        requires
            old(net).wf(),
            self.valid(old(net)@),
        ensures
            final(net).wf(),
            final(net).capacity == old(net).capacity,
            final(net).queue_cap == old(net).queue_cap,
            final(net)@ == old(net)@.update(
                self.id as int,
                SockView { open: false, ..old(net)@[self.id as int] },
            ),
    {
        net.close(self.id)
    }

    /// Consumes this listener, returning the lazy, unbounded sequence of the
    /// sockets it accepts.  The sequence is not restartable once consumed.
    pub fn incoming(self) -> (r: Incoming)
        ensures
            r.listener.id == self.id,
    {
        Incoming { listener: self }
    }
}

/// One produced element of the accept sequence, or the suspension signal.
#[derive(Debug)]
pub enum AcceptOutcome {
    /// Suspend until the next read-readiness edge; the sequence stays alive.
    NotReady,
    /// An accepted connection and the peer address it connected from.
    Ready(UnixStream, SocketAddr),
}

/// The lazy, unbounded sequence of connections a listener accepts.  It never
/// ends on its own: only a genuine OS error terminates it.
#[derive(Debug)]
pub struct Incoming {
    /// The consumed listener driving the sequence.
    pub listener: UnixListener,
}

impl Incoming {
    /// Produce the next element of the accept sequence, without blocking.
    ///
    /// - Not read-ready: suspend (`NotReady`) touching nothing — no
    ///   operation is attempted while the loop has signalled nothing.
    /// - Read-ready with a recorded OS error: surface it, ending the
    ///   sequence; the error is consumed.
    /// - Read-ready with a connection available: pop the oldest, yield it
    ///   with the connecting endpoint's address.  The endpoint was
    ///   registered with the loop when it was created, so it can report
    ///   readiness immediately.
    /// - Read-ready but no connection actually available (spurious wakeup):
    ///   re-arm read interest and suspend; not an error, not the end of the
    ///   sequence.
    pub fn poll(&self, net: &mut Net) -> (r: Result<AcceptOutcome, SockError>)
        requires
            old(net).wf(),
            self.listener.valid(old(net)@),
        ensures
            final(net).capacity == old(net).capacity,
            final(net).queue_cap == old(net).queue_cap,
            final(net).wf(),
            ({
                let st = old(net)@[self.listener.id as int];
                match r {
                    Err(e) => {
                        &&& if !st.open {
                            e == SockError::Closed && final(net)@ == old(net)@
                        } else {
                            &&& st.reg.read_ready
                            &&& st.pending_error == Some(e)
                            &&& final(net)@ == old(net)@.update(
                                self.listener.id as int,
                                SockView { pending_error: None, ..st },
                            )
                        }
                    },
                    Ok(AcceptOutcome::NotReady) => {
                        &&& st.open
                        &&& if !st.reg.read_ready {
                            final(net)@ == old(net)@
                        } else {
                            &&& st.pending_error is None
                            &&& st.backlog.len() == 0
                            &&& final(net)@ == old(net)@.update(
                                self.listener.id as int,
                                SockView {
                                    reg: Registration {
                                        read_ready: false,
                                        write_ready: st.reg.write_ready,
                                    },
                                    ..st
                                },
                            )
                        }
                    },
                    Ok(AcceptOutcome::Ready(sock, addr)) => {
                        &&& st.open
                        &&& st.reg.read_ready
                        &&& st.pending_error is None
                        &&& st.backlog.len() > 0
                        &&& sock.id == st.backlog[0]
                        &&& addr@ == accepted_addr(old(net)@, st.backlog[0] as int)
                        &&& final(net)@ == old(net)@.update(
                            self.listener.id as int,
                            SockView { backlog: st.backlog.skip(1), ..st },
                        )
                    },
                }
            }),
    {
        let id = self.listener.id;
        if !net.socks[id].open {
            return Err(SockError::Closed);
        }
        if !net.socks[id].reg.read_ready {
            return Ok(AcceptOutcome::NotReady);
        }
        match net.socks[id].pending_error {
            Some(e) => {
                let _cleared = net.sock_take_error(id);
                return Err(e);
            },
            None => {},
        }
        if net.socks[id].backlog.len() == 0 {
            net.sock_need_read(id);
            return Ok(AcceptOutcome::NotReady);
        }
        let s = net.socks[id].backlog[0];
        proof {
            assert(Net::sock_wf(net@[id as int], net@.len() as int));
        }
        let addr = match net.socks[s].peer {
            Some(p) => net.socks[p].local.clone(),
            None => SocketAddr::Unnamed,
        };
        let _popped = net.pop_backlog(id);
        Ok(AcceptOutcome::Ready(UnixStream { id: s }, addr))
    }
}

/// Shared bind step: check the namespace, then register a fresh socket of
/// the given kind bound at `path`.
pub(crate) fn bind_at(net: &mut Net, path: &Vec<u8>, kind: SockKind) -> (r: Result<
    usize,
    SockError,
>)
    requires
        old(net).wf(),
    ensures
        final(net).capacity == old(net).capacity,
        final(net).queue_cap == old(net).queue_cap,
        final(net).wf(),
        match r {
            Ok(id) => {
                &&& (forall|i: int|
                    0 <= i < old(net)@.len() ==> !matches_path(#[trigger] old(net)@[i], path@))
                &&& old(net)@.len() < old(net).capacity
                &&& id == old(net)@.len()
                &&& final(net)@ == old(net)@.push(
                    SockView { kind, ..fresh_listener_view(AddrView::Pathname(path@)) },
                )
            },
            Err(e) => {
                &&& final(net)@ == old(net)@
                &&& (e == SockError::AddrInUse <==> exists|i: int|
                    0 <= i < old(net)@.len() && matches_path(#[trigger] old(net)@[i], path@))
                &&& (e == SockError::RegistrationFailed ==> old(net)@.len() >= old(net).capacity)
                &&& (e == SockError::AddrInUse || e == SockError::RegistrationFailed)
            },
        },
{
    match net.lookup_path(path) {
        Some(i) => {
            proof {
                assert(matches_path(net@[i as int], path@));
            }
            return Err(SockError::AddrInUse);
        },
        None => {},
    }
    let st = SockState::fresh(kind, SocketAddr::Pathname(crate::addr::clone_bytes(path)), None);
    let id = match net.register(st) {
        Ok(id) => id,
        Err(e) => {
            return Err(e);
        },
    };
    proof {
        assert(net@ =~~= old(net)@.push(
            SockView { kind, ..fresh_listener_view(AddrView::Pathname(path@)) },
        ));
        assert forall|i: int| 0 <= i < net@.len() implies Net::sock_wf(
            #[trigger] net@[i],
            net@.len() as int,
        ) by {
            if i < old(net)@.len() {
                assert(net@[i] == old(net)@[i]);
            }
        }
    }
    Ok(id)
}

} // verus!
