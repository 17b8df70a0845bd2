//! A connectionless datagram socket, optionally pre-connected to a fixed
//! peer.
//!
//! Every send and receive follows the same two-layer discipline: first the
//! readiness gate (not ready means fail immediately with would-block —
//! suspension is the caller's responsibility), then the operation itself,
//! and if the operation observes a would-block although readiness was
//! signalled (stale readiness), interest is re-armed before the would-block
//! is returned.  Re-arming on every observed mismatch is what prevents a
//! missed-wakeup stall under edge-triggered notification.

use vstd::prelude::*;

use crate::addr::{clone_bytes, AddrView, SocketAddr};
use crate::error::SockError;
use crate::listener::bind_at;
use crate::net::{first_match_at, matches_path, Datagram, Net, Shutdown, SockKind, SockState,
    SockView};
use crate::ready::{Async, Registration};

verus! {

/// A handle to a datagram socket slot.
#[derive(Debug)]
pub struct UnixDatagram {
    /// The slot index in the owning [`Net`].
    pub id: usize,
}

/// The view of a freshly created datagram slot.
pub open spec fn fresh_dgram_view(local: AddrView, peer: Option<usize>) -> SockView {
    SockView {
        kind: SockKind::Datagram,
        open: true,
        local,
        peer,
        rx: Seq::<u8>::empty(),
        dgrams: Seq::<crate::net::DgramView>::empty(),
        backlog: Seq::<usize>::empty(),
        reg: Registration { read_ready: true, write_ready: true },
        pending_error: None,
        shut_read: false,
        shut_write: false,
    }
}

/// Why delivery of a datagram from `from` to slot `p` fails, if it does:
/// the destination is connected to some other endpoint, or its queue is
/// full (a stale-readiness would-block).
pub open spec fn deliver_err(net: Seq<SockView>, from: int, p: int, queue_cap: int) -> Option<
    SockError,
> {
    if net[p].peer matches Some(q) && q != from {
        Some(SockError::ConnectionRefused)
    } else if net[p].dgrams.len() >= queue_cap {
        Some(SockError::WouldBlock)
    } else {
        None
    }
}

impl UnixDatagram {
    /// The handle points at a datagram slot of this net.
    pub open spec fn valid(self, net: Seq<SockView>) -> bool {
        &&& (self.id as int) < net.len()
        &&& net[self.id as int].kind == SockKind::Datagram
    }

    /// Creates a new datagram socket bound to the specified path and
    /// registers it with the event loop.  `AddrInUse` exactly when the path
    /// is occupied; `RegistrationFailed` exactly when the path is free but
    /// the loop is out of capacity; nothing changes on failure.
    pub fn bind(net: &mut Net, path: &Vec<u8>) -> (r: Result<UnixDatagram, SockError>)
        requires
            old(net).wf(),
        ensures
            final(net).capacity == old(net).capacity,
            final(net).queue_cap == old(net).queue_cap,
            final(net).wf(),
            match r {
                Ok(sock) => {
                    &&& (forall|i: int|
                        0 <= i < old(net)@.len() ==> !matches_path(
                            #[trigger] old(net)@[i],
                            path@,
                        ))
                    &&& old(net)@.len() < old(net).capacity
                    &&& sock.id == old(net)@.len()
                    &&& final(net)@ == old(net)@.push(
                        fresh_dgram_view(AddrView::Pathname(path@), None),
                    )
                },
                Err(e) => {
                    &&& final(net)@ == old(net)@
                    &&& (e == SockError::AddrInUse <==> exists|i: int|
                        0 <= i < old(net)@.len() && matches_path(#[trigger] old(net)@[i], path@))
                    &&& (e == SockError::RegistrationFailed ==> old(net)@.len() >= old(
                        net,
                    ).capacity)
                    &&& (e == SockError::AddrInUse || e == SockError::RegistrationFailed)
                },
            },
    {
        match bind_at(net, path, SockKind::Datagram) {
            Ok(id) => {
                proof {
                    assert(SockView {
                        kind: SockKind::Datagram,
                        ..crate::listener::fresh_listener_view(AddrView::Pathname(path@))
                    } =~~= fresh_dgram_view(AddrView::Pathname(path@), None));
                }
                Ok(UnixDatagram { id })
            },
            Err(e) => Err(e),
        }
    }

    /// Creates an unnamed pair of connected datagram sockets: anonymous
    /// local addresses, each the other's fixed peer, empty queues,
    /// optimistic readiness.  Fails exactly when the loop cannot track two
    /// more handles, changing nothing.
    pub fn pair(net: &mut Net) -> (r: Result<(UnixDatagram, UnixDatagram), SockError>)
        requires
            old(net).wf(),
        ensures
            final(net).capacity == old(net).capacity,
            final(net).queue_cap == old(net).queue_cap,
            final(net).wf(),
            match r {
                Ok((a, b)) => {
                    &&& a.id == old(net)@.len()
                    &&& b.id == old(net)@.len() + 1
                    &&& old(net)@.len() + 2 <= old(net).capacity
                    &&& final(net)@ == old(net)@.push(
                        fresh_dgram_view(AddrView::Unnamed, Some((old(net)@.len() + 1) as usize)),
                    ).push(fresh_dgram_view(AddrView::Unnamed, Some(old(net)@.len() as usize)))
                },
                Err(e) => {
                    &&& e == SockError::RegistrationFailed
                    &&& old(net)@.len() + 2 > old(net).capacity
                    &&& final(net)@ == old(net)@
                },
            },
    {
        proof {
            assert(net@.len() <= net.capacity);
        }
        if net.capacity - net.socks.len() < 2 {
            return Err(SockError::RegistrationFailed);
        }
        let ghost onv = net@;
        let a_st = SockState::fresh(SockKind::Datagram, SocketAddr::Unnamed, None);
        let a = match net.register(a_st) {
            Ok(a) => a,
            Err(e) => {
                proof {
                    assert(false);
                }
                return Err(e);
            },
        };
        let b_st = SockState::fresh(SockKind::Datagram, SocketAddr::Unnamed, Some(a));
        let b = match net.register(b_st) {
            Ok(b) => b,
            Err(e) => {
                proof {
                    assert(false);
                }
                return Err(e);
            },
        };
        net.set_peer(a, b);
        proof {
            assert(net@ =~~= onv.push(
                fresh_dgram_view(AddrView::Unnamed, Some((onv.len() + 1) as usize)),
            ).push(fresh_dgram_view(AddrView::Unnamed, Some(onv.len() as usize))));
            assert forall|i: int| 0 <= i < net@.len() implies Net::sock_wf(
                #[trigger] net@[i],
                net@.len() as int,
            ) by {
                if i < onv.len() {
                    assert(net@[i] == onv[i]);
                }
            }
        }
        Ok((UnixDatagram { id: a }, UnixDatagram { id: b }))
    }

    /// Connects the socket to the specified address: `send` then sends to
    /// it, and it alone, without establishing a stream.  `NotFound` exactly
    /// when no open socket occupies `path`; `ConnectionRefused` when the
    /// occupant is not a datagram socket; nothing changes on failure.
    pub fn connect(&self, net: &mut Net, path: &Vec<u8>) -> (r: Result<(), SockError>)
        requires
            old(net).wf(),
            self.valid(old(net)@),
        ensures
            final(net).capacity == old(net).capacity,
            final(net).queue_cap == old(net).queue_cap,
            final(net).wf(),
            match r {
                Ok(_) => {
                    &&& old(net)@[self.id as int].open
                    &&& exists|l: int|
                        {
                            &&& #[trigger] first_match_at(old(net)@, path@, l)
                            &&& old(net)@[l].kind == SockKind::Datagram
                            &&& final(net)@ == old(net)@.update(
                                self.id as int,
                                SockView {
                                    peer: Some(l as usize),
                                    ..old(net)@[self.id as int]
                                },
                            )
                        }
                },
                Err(e) => {
                    &&& final(net)@ == old(net)@
                    &&& if !old(net)@[self.id as int].open {
                        e == SockError::Closed
                    } else {
                        &&& (e == SockError::NotFound <==> (forall|i: int|
                            0 <= i < old(net)@.len() ==> !matches_path(
                                #[trigger] old(net)@[i],
                                path@,
                            )))
                        &&& (e == SockError::ConnectionRefused ==> exists|l: int|
                            #[trigger] first_match_at(old(net)@, path@, l) && old(net)@[l].kind
                                != SockKind::Datagram)
                        &&& (e == SockError::NotFound || e == SockError::ConnectionRefused)
                    }
                },
            },
    {
        if !net.socks[self.id].open {
            return Err(SockError::Closed);
        }
        let l = match net.lookup_path(path) {
            None => {
                return Err(SockError::NotFound);
            },
            Some(l) => l,
        };
        if net.socks[l].kind != SockKind::Datagram {
            return Err(SockError::ConnectionRefused);
        }
        net.set_peer(self.id, l);
        Ok(())
    }

    /// Sends data on the socket to the socket's fixed peer, which must have
    /// been associated by `connect` (or by `pair`): without one the send
    /// fails with the not-connected error, not with would-block.
    ///
    /// Gate, operation, re-arm: not write-ready fails immediately with
    /// would-block; a full destination queue (stale readiness) re-arms write
    /// interest before returning would-block; otherwise the whole message is
    /// queued on the peer and its length returned.
    pub fn send(&self, net: &mut Net, buf: &Vec<u8>) -> (r: Result<usize, SockError>)
        requires
            old(net).wf(),
            self.valid(old(net)@),
        ensures
            final(net).capacity == old(net).capacity,
            final(net).queue_cap == old(net).queue_cap,
            final(net).wf(),
            ({
                let st = old(net)@[self.id as int];
                match r {
                    Ok(n) => {
                        &&& st.open && st.reg.write_ready && !st.shut_write
                        &&& st.peer matches Some(p) && old(net)@[p as int].open && deliver_err(
                            old(net)@,
                            self.id as int,
                            p as int,
                            old(net).queue_cap as int,
                        ) is None
                        &&& n == buf@.len()
                        &&& final(net)@ == old(net)@.update(
                            st.peer->Some_0 as int,
                            SockView {
                                dgrams: old(net)@[st.peer->Some_0 as int].dgrams.push(
                                    crate::net::DgramView { from: self.id, data: buf@ },
                                ),
                                ..old(net)@[st.peer->Some_0 as int]
                            },
                        )
                    },
                    Err(e) => {
                        &&& if !st.open {
                            e == SockError::Closed && final(net)@ == old(net)@
                        } else if !st.reg.write_ready {
                            e == SockError::WouldBlock && final(net)@ == old(net)@
                        } else if st.shut_write {
                            e == SockError::BrokenPipe && final(net)@ == old(net)@
                        } else if st.peer is None {
                            e == SockError::NotConnected && final(net)@ == old(net)@
                        } else if !old(net)@[st.peer->Some_0 as int].open {
                            e == SockError::ConnectionRefused && final(net)@ == old(net)@
                        } else if deliver_err(
                            old(net)@,
                            self.id as int,
                            st.peer->Some_0 as int,
                            old(net).queue_cap as int,
                        ) == Some(SockError::ConnectionRefused) {
                            e == SockError::ConnectionRefused && final(net)@ == old(net)@
                        } else {
                            &&& e == SockError::WouldBlock
                            &&& old(net)@[st.peer->Some_0 as int].dgrams.len() >= old(
                                net,
                            ).queue_cap
                            &&& final(net)@ == old(net)@.update(
                                self.id as int,
                                SockView {
                                    reg: Registration {
                                        read_ready: st.reg.read_ready,
                                        write_ready: false,
                                    },
                                    ..st
                                },
                            )
                        }
                    },
                }
            }),
    {
        if !net.socks[self.id].open {
            return Err(SockError::Closed);
        }
        if !net.socks[self.id].reg.write_ready {
            return Err(SockError::WouldBlock);
        }
        if net.socks[self.id].shut_write {
            return Err(SockError::BrokenPipe);
        }
        let p = match net.socks[self.id].peer {
            None => {
                return Err(SockError::NotConnected);
            },
            Some(p) => p,
        };
        if !net.socks[p].open {
            return Err(SockError::ConnectionRefused);
        }
        self.deliver(net, p, buf)
    }

    /// Sends data on the socket to the socket bound at `path`.  The same
    /// gate-operation-re-arm discipline as `send`; additionally `NotFound`
    /// when nothing occupies the path, and `ConnectionRefused` when the
    /// occupant is not a datagram socket or is connected to some other
    /// endpoint.
    pub fn send_to(&self, net: &mut Net, buf: &Vec<u8>, path: &Vec<u8>) -> (r: Result<
        usize,
        SockError,
    >)
        requires
            old(net).wf(),
            self.valid(old(net)@),
        ensures
            final(net).capacity == old(net).capacity,
            final(net).queue_cap == old(net).queue_cap,
            final(net).wf(),
            ({
                let st = old(net)@[self.id as int];
                match r {
                    Ok(n) => {
                        &&& st.open && st.reg.write_ready && !st.shut_write
                        &&& n == buf@.len()
                        &&& exists|l: int|
                            {
                                &&& #[trigger] first_match_at(old(net)@, path@, l)
                                &&& old(net)@[l].kind == SockKind::Datagram
                                &&& deliver_err(
                                    old(net)@,
                                    self.id as int,
                                    l,
                                    old(net).queue_cap as int,
                                ) is None
                                &&& final(net)@ == old(net)@.update(
                                    l,
                                    SockView {
                                        dgrams: old(net)@[l].dgrams.push(
                                            crate::net::DgramView { from: self.id, data: buf@ },
                                        ),
                                        ..old(net)@[l]
                                    },
                                )
                            }
                    },
                    Err(e) => {
                        &&& if !st.open {
                            e == SockError::Closed && final(net)@ == old(net)@
                        } else if !st.reg.write_ready {
                            e == SockError::WouldBlock && final(net)@ == old(net)@
                        } else if st.shut_write {
                            e == SockError::BrokenPipe && final(net)@ == old(net)@
                        } else {
                            &&& if e == SockError::NotFound {
                                forall|i: int|
                                    0 <= i < old(net)@.len() ==> !matches_path(
                                        #[trigger] old(net)@[i],
                                        path@,
                                    )
                            } else if e == SockError::WouldBlock {
                                &&& final(net)@ == old(net)@.update(
                                    self.id as int,
                                    SockView {
                                        reg: Registration {
                                            read_ready: st.reg.read_ready,
                                            write_ready: false,
                                        },
                                        ..st
                                    },
                                )
                                &&& exists|l: int|
                                    #[trigger] first_match_at(old(net)@, path@, l) && old(
                                        net,
                                    )@[l].dgrams.len() >= old(net).queue_cap
                            } else {
                                &&& e == SockError::ConnectionRefused
                                &&& exists|l: int|
                                    #[trigger] first_match_at(old(net)@, path@, l) && (old(
                                        net,
                                    )@[l].kind != SockKind::Datagram || (old(net)@[l].peer
                                        matches Some(q) && q != self.id))
                            }
                            &&& (e != SockError::WouldBlock ==> final(net)@ == old(net)@)
                            &&& (e == SockError::NotFound || e == SockError::ConnectionRefused
                                || e == SockError::WouldBlock)
                        }
                    },
                }
            }),
    {
        if !net.socks[self.id].open {
            return Err(SockError::Closed);
        }
        if !net.socks[self.id].reg.write_ready {
            return Err(SockError::WouldBlock);
        }
        if net.socks[self.id].shut_write {
            return Err(SockError::BrokenPipe);
        }
        let l = match net.lookup_path(path) {
            None => {
                return Err(SockError::NotFound);
            },
            Some(l) => l,
        };
        if net.socks[l].kind != SockKind::Datagram {
            return Err(SockError::ConnectionRefused);
        }
        self.deliver(net, l, buf)
    }

    /// The operation layer shared by `send` and `send_to`: queue the
    /// message on the resolved destination, re-arming write interest if the
    /// queue is full although readiness was signalled.
    fn deliver(&self, net: &mut Net, p: usize, buf: &Vec<u8>) -> (r: Result<usize, SockError>)
        requires
            old(net).wf(),
            self.valid(old(net)@),
            (p as int) < old(net)@.len(),
        ensures
            final(net).capacity == old(net).capacity,
            final(net).queue_cap == old(net).queue_cap,
            final(net).wf(),
            match r {
                Ok(n) => {
                    &&& deliver_err(old(net)@, self.id as int, p as int, old(net).queue_cap as int)
                        is None
                    &&& n == buf@.len()
                    &&& final(net)@ == old(net)@.update(
                        p as int,
                        SockView {
                            dgrams: old(net)@[p as int].dgrams.push(
                                crate::net::DgramView { from: self.id, data: buf@ },
                            ),
                            ..old(net)@[p as int]
                        },
                    )
                },
                Err(e) => {
                    &&& Some(e) == deliver_err(
                        old(net)@,
                        self.id as int,
                        p as int,
                        old(net).queue_cap as int,
                    )
                    &&& if e == SockError::WouldBlock {
                        final(net)@ == old(net)@.update(
                            self.id as int,
                            SockView {
                                reg: Registration {
                                    read_ready: old(net)@[self.id as int].reg.read_ready,
                                    write_ready: false,
                                },
                                ..old(net)@[self.id as int]
                            },
                        )
                    } else {
                        final(net)@ == old(net)@
                    }
                },
            },
    {
        match net.socks[p].peer {
            Some(q) => {
                if q != self.id {
                    return Err(SockError::ConnectionRefused);
                }
            },
            None => {},
        }
        if net.socks[p].dgrams.len() >= net.queue_cap {
            net.sock_need_write(self.id);
            return Err(SockError::WouldBlock);
        }
        let d = Datagram { from: self.id, data: clone_bytes(buf) };
        net.push_dgram(p, d);
        Ok(buf.len())
    }

    /// Receives one datagram, returning at most `max` of its bytes and the
    /// address it came from; the remainder of a longer message is
    /// discarded, as datagram semantics demand.
    ///
    /// Gate, operation, re-arm: not read-ready fails immediately with
    /// would-block; an empty queue under a (stale) readiness signal re-arms
    /// read interest before returning would-block.
    pub fn recv_from(&self, net: &mut Net, max: usize) -> (r: Result<
        (Vec<u8>, SocketAddr),
        SockError,
    >)
        requires
            old(net).wf(),
            self.valid(old(net)@),
        ensures
            final(net).capacity == old(net).capacity,
            final(net).queue_cap == old(net).queue_cap,
            final(net).wf(),
            ({
                let st = old(net)@[self.id as int];
                match r {
                    Ok((data, addr)) => {
                        &&& st.open && st.reg.read_ready
                        &&& if st.shut_read {
                            &&& data@ == Seq::<u8>::empty()
                            &&& addr@ == AddrView::Unnamed
                            &&& final(net)@ == old(net)@
                        } else {
                            let d0 = st.dgrams[0];
                            let k = if (max as int) < d0.data.len() {
                                max as int
                            } else {
                                d0.data.len() as int
                            };
                            &&& st.dgrams.len() > 0
                            &&& data@ == d0.data.take(k)
                            &&& addr@ == old(net)@[d0.from as int].local
                            &&& final(net)@ == old(net)@.update(
                                self.id as int,
                                SockView { dgrams: st.dgrams.skip(1), ..st },
                            )
                        }
                    },
                    Err(e) => {
                        &&& if !st.open {
                            e == SockError::Closed && final(net)@ == old(net)@
                        } else if !st.reg.read_ready {
                            e == SockError::WouldBlock && final(net)@ == old(net)@
                        } else {
                            &&& e == SockError::WouldBlock
                            &&& !st.shut_read
                            &&& st.dgrams.len() == 0
                            &&& final(net)@ == old(net)@.update(
                                self.id as int,
                                SockView {
                                    reg: Registration {
                                        read_ready: false,
                                        write_ready: st.reg.write_ready,
                                    },
                                    ..st
                                },
                            )
                        }
                    },
                }
            }),
    {
        if !net.socks[self.id].open {
            return Err(SockError::Closed);
        }
        if !net.socks[self.id].reg.read_ready {
            return Err(SockError::WouldBlock);
        }
        if net.socks[self.id].shut_read {
            return Ok((Vec::new(), SocketAddr::Unnamed));
        }
        if net.socks[self.id].dgrams.len() == 0 {
            net.sock_need_read(self.id);
            return Err(SockError::WouldBlock);
        }
        proof {
            assert(Net::sock_wf(net@[self.id as int], net@.len() as int));
        }
        let from = net.socks[self.id].dgrams[0].from;
        let addr = net.socks[from].local.clone();
        let d = net.pop_dgram(self.id);
        let data = take_prefix(&d.data, max);
        Ok((data, addr))
    }

    /// Receives one datagram from the socket's fixed peer, returning at
    /// most `max` of its bytes; without an associated peer the receive
    /// fails with the not-connected error, not with would-block.
    pub fn recv(&self, net: &mut Net, max: usize) -> (r: Result<Vec<u8>, SockError>)
        requires
            old(net).wf(),
            self.valid(old(net)@),
        ensures
            final(net).capacity == old(net).capacity,
            final(net).queue_cap == old(net).queue_cap,
            final(net).wf(),
            ({
                let st = old(net)@[self.id as int];
                match r {
                    Ok(data) => {
                        &&& st.open && st.reg.read_ready
                        &&& if st.shut_read {
                            data@ == Seq::<u8>::empty() && final(net)@ == old(net)@
                        } else {
                            let d0 = st.dgrams[0];
                            let k = if (max as int) < d0.data.len() {
                                max as int
                            } else {
                                d0.data.len() as int
                            };
                            &&& st.peer is Some
                            &&& st.dgrams.len() > 0
                            &&& data@ == d0.data.take(k)
                            &&& final(net)@ == old(net)@.update(
                                self.id as int,
                                SockView { dgrams: st.dgrams.skip(1), ..st },
                            )
                        }
                    },
                    Err(e) => {
                        &&& if !st.open {
                            e == SockError::Closed && final(net)@ == old(net)@
                        } else if !st.reg.read_ready {
                            e == SockError::WouldBlock && final(net)@ == old(net)@
                        } else if st.shut_read {
                            false
                        } else if st.peer is None {
                            e == SockError::NotConnected && final(net)@ == old(net)@
                        } else {
                            &&& e == SockError::WouldBlock
                            &&& st.dgrams.len() == 0
                            &&& final(net)@ == old(net)@.update(
                                self.id as int,
                                SockView {
                                    reg: Registration {
                                        read_ready: false,
                                        write_ready: st.reg.write_ready,
                                    },
                                    ..st
                                },
                            )
                        }
                    },
                }
            }),
    {
        if !net.socks[self.id].open {
            return Err(SockError::Closed);
        }
        if !net.socks[self.id].reg.read_ready {
            return Err(SockError::WouldBlock);
        }
        if net.socks[self.id].shut_read {
            return Ok(Vec::new());
        }
        if net.socks[self.id].peer.is_none() {
            return Err(SockError::NotConnected);
        }
        if net.socks[self.id].dgrams.len() == 0 {
            net.sock_need_read(self.id);
            return Err(SockError::WouldBlock);
        }
        let d = net.pop_dgram(self.id);
        let data = take_prefix(&d.data, max);
        Ok(data)
    }

    /// Test whether this socket is ready to be read or not; no syscall, no
    /// state change.
    pub fn poll_read(&self, net: &Net) -> (r: Async)
        requires
            self.valid(net@),
        ensures
            r == (if net@[self.id as int].reg.read_ready {
                Async::Ready
            } else {
                Async::NotReady
            }),
    {
        net.sock_poll_read(self.id)
    }

    /// Test whether this socket is ready to be written to or not; no
    /// syscall, no state change.
    pub fn poll_write(&self, net: &Net) -> (r: Async)
        requires
            self.valid(net@),
        ensures
            r == (if net@[self.id as int].reg.write_ready {
                Async::Ready
            } else {
                Async::NotReady
            }),
    {
        net.sock_poll_write(self.id)
    }

    /// Returns the local address that this socket is bound to.
    pub fn local_addr(&self, net: &Net) -> (r: Result<SocketAddr, SockError>)
        requires
            self.valid(net@),
        ensures
            match r {
                Ok(a) => net@[self.id as int].open && a@ == net@[self.id as int].local,
                Err(e) => e == SockError::Closed && !net@[self.id as int].open,
            },
    {
        net.sock_local_addr(self.id)
    }

    /// Returns the address of this socket's fixed peer, associated by
    /// `connect` or `pair`.
    pub fn peer_addr(&self, net: &Net) -> (r: Result<SocketAddr, SockError>)
        requires
            net.wf(),
            self.valid(net@),
        ensures
            match r {
                Ok(a) => {
                    &&& net@[self.id as int].open
                    &&& net@[self.id as int].peer matches Some(p) && a@ == net@[p as int].local
                },
                Err(e) => {
                    &&& net@[self.id as int].open ==> e == SockError::NotConnected
                        && net@[self.id as int].peer is None
                    &&& !net@[self.id as int].open ==> e == SockError::Closed
                },
            },
    {
        net.sock_peer_addr(self.id)
    }

    /// Returns the value of the pending asynchronous socket error, clearing
    /// it.
    pub fn take_error(&self, net: &mut Net) -> (r: Result<Option<SockError>, SockError>)
        requires
            old(net).wf(),
            self.valid(old(net)@),
        ensures
            final(net).wf(),
            final(net).capacity == old(net).capacity,
            final(net).queue_cap == old(net).queue_cap,
            match r {
                Ok(e) => {
                    &&& old(net)@[self.id as int].open
                    &&& e == old(net)@[self.id as int].pending_error
                    &&& final(net)@ == old(net)@.update(
                        self.id as int,
                        SockView { pending_error: None, ..old(net)@[self.id as int] },
                    )
                },
                Err(e) => {
                    &&& e == SockError::Closed
                    &&& !old(net)@[self.id as int].open
                    &&& final(net)@ == old(net)@
                },
            },
    {
        net.sock_take_error(self.id)
    }

    /// Shut down the read, write, or both halves of this socket; all
    /// pending and future operations on the shut portions report it
    /// immediately.
    pub fn shutdown(&self, net: &mut Net, how: Shutdown) -> (r: Result<(), SockError>)
        requires
            old(net).wf(),
            self.valid(old(net)@),
        ensures
            final(net).wf(),
            final(net).capacity == old(net).capacity,
            final(net).queue_cap == old(net).queue_cap,
            match r {
                Ok(_) => {
                    &&& old(net)@[self.id as int].open
                    &&& final(net)@ == old(net)@.update(
                        self.id as int,
                        SockView {
                            shut_read: old(net)@[self.id as int].shut_read || how
                                != Shutdown::Write,
                            shut_write: old(net)@[self.id as int].shut_write || how
                                != Shutdown::Read,
                            ..old(net)@[self.id as int]
                        },
                    )
                },
                Err(e) => {
                    &&& e == SockError::Closed
                    &&& !old(net)@[self.id as int].open
                    &&& final(net)@ == old(net)@
                },
            },
    {
        net.sock_shutdown(self.id, how)
    }

    /// Destroy this socket: any operation still suspended on it fails with
    /// `Closed` instead of hanging.
    pub fn close(&self, net: &mut Net)
        requires
            old(net).wf(),
            self.valid(old(net)@),
        ensures
            final(net).wf(),
            final(net).capacity == old(net).capacity,
            final(net).queue_cap == old(net).queue_cap,
            final(net)@ == old(net)@.update(
                self.id as int,
                SockView { open: false, ..old(net)@[self.id as int] },
            ),
    {
        net.close(self.id)
    }
}

/// The first `k` bytes of a message, or all of it if shorter.
fn take_prefix(v: &Vec<u8>, k: usize) -> (r: Vec<u8>)
    ensures
        r@ == v@.take(if (k as int) < v@.len() { k as int } else { v@.len() as int }),
{
    let n = if k < v.len() {
        k
    } else {
        v.len()
    };
    let mut out: Vec<u8> = Vec::new();
    let mut i: usize = 0;
    while i < n
        invariant
            n <= v@.len(),
            i <= n,
            out@ == v@.take(i as int),
        decreases n - i,
    {
        out.push(v[i]);
        i = i + 1;
        proof {
            assert(out@ =~= v@.take(i as int));
        }
    }
    proof {
        assert(out@ =~= v@.take(n as int));
    }
    out
}

} // verus!
