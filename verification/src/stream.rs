//! A connected bidirectional byte-stream socket.
//!
//! `read` and `write` model the raw non-blocking syscalls directly: they do
//! not pre-check readiness, the operation's own would-block outcome is the
//! source of truth, and the caller is responsible for `need_read` /
//! `need_write` and for suspending until the next readiness edge.  No
//! internal buffering: every call is at most one operation on the net.

use vstd::prelude::*;

use crate::addr::{clone_bytes, AddrView, SocketAddr};
use crate::error::SockError;
use crate::net::{first_match_at, matches_path, Net, Shutdown, SockKind, SockState, SockView};
use crate::ready::{Async, Registration};

verus! {

/// A handle to a connected byte-stream socket slot.
#[derive(Debug)]
pub struct UnixStream {
    /// The slot index in the owning [`Net`].
    pub id: usize,
}

/// The readiness record and buffers of a freshly connected stream endpoint.
pub open spec fn fresh_stream_view(local: AddrView, peer: Option<usize>) -> SockView {
    SockView {
        kind: SockKind::Stream,
        open: true,
        local,
        peer,
        rx: Seq::<u8>::empty(),
        dgrams: Seq::<crate::net::DgramView>::empty(),
        backlog: Seq::<usize>::empty(),
        reg: Registration { read_ready: true, write_ready: true },
        pending_error: None,
        shut_read: false,
        shut_write: false,
    }
}

/// Why a stream write fails, if it does: destroyed socket, local write half
/// shut, no peer, or a peer that is gone or shut for reading.
pub open spec fn stream_write_err(net: Seq<SockView>, id: int) -> Option<SockError> {
    let st = net[id];
    if !st.open {
        Some(SockError::Closed)
    } else if st.shut_write {
        Some(SockError::BrokenPipe)
    } else if st.peer is None {
        Some(SockError::NotConnected)
    } else if !net[st.peer->Some_0 as int].open || net[st.peer->Some_0 as int].shut_read {
        Some(SockError::BrokenPipe)
    } else {
        None
    }
}

/// Will a read on an empty buffer see end-of-stream: the peer is destroyed
/// or shut down for writing, so no further bytes can ever arrive.
pub open spec fn stream_peer_eof(net: Seq<SockView>, id: int) -> bool {
    match net[id].peer {
        Some(p) => !net[p as int].open || net[p as int].shut_write,
        None => false,
    }
}

impl UnixStream {
    /// The handle points at a live stream slot of this net.
    pub open spec fn valid(self, net: Seq<SockView>) -> bool {
        &&& (self.id as int) < net.len()
        &&& net[self.id as int].kind == SockKind::Stream
    }

    /// Connects to the socket named by `path`, registering the new endpoint
    /// (and the endpoint the listener will later accept) with the event
    /// loop.
    ///
    /// Succeeds exactly when an open listener is bound at `path` and the
    /// loop can track two more handles; the listener's backlog then gains
    /// the accept-side endpoint.  `NotFound` is returned exactly when no
    /// open socket occupies `path` in the namespace; `ConnectionRefused`
    /// when the occupant is not a listener; `RegistrationFailed` when the
    /// loop is out of capacity, with nothing changed in every failing case.
    pub fn connect(net: &mut Net, path: &Vec<u8>) -> (r: Result<UnixStream, SockError>)
        requires
            old(net).wf(),
        ensures
            final(net).capacity == old(net).capacity,
            final(net).queue_cap == old(net).queue_cap,
            final(net).wf(),
            match r {
                Ok(sock) => {
                    &&& sock.id == old(net)@.len()
                    &&& final(net)@.len() == old(net)@.len() + 2
                    &&& old(net)@.len() + 2 <= old(net).capacity
                    &&& exists|l: int|
                        {
                            &&& #[trigger] first_match_at(old(net)@, path@, l)
                            &&& old(net)@[l].kind == SockKind::Listener
                            &&& final(net)@ == old(net)@.push(
                                fresh_stream_view(
                                    AddrView::Unnamed,
                                    Some((old(net)@.len() + 1) as usize),
                                ),
                            ).push(
                                fresh_stream_view(
                                    AddrView::Pathname(path@),
                                    Some(old(net)@.len() as usize),
                                ),
                            ).update(
                                l,
                                SockView {
                                    backlog: old(net)@[l].backlog.push(
                                        (old(net)@.len() + 1) as usize,
                                    ),
                                    ..old(net)@[l]
                                },
                            )
                        }
                },
                Err(e) => {
                    &&& final(net)@ == old(net)@
                    &&& (e == SockError::NotFound <==> (forall|i: int|
                        0 <= i < old(net)@.len() ==> !matches_path(
                            #[trigger] old(net)@[i],
                            path@,
                        )))
                    &&& (e == SockError::ConnectionRefused ==> exists|l: int|
                        #[trigger] first_match_at(old(net)@, path@, l) && old(net)@[l].kind
                            != SockKind::Listener)
                    &&& (e == SockError::RegistrationFailed ==> old(net)@.len() + 2 > old(
                        net,
                    ).capacity)
                    &&& (e == SockError::NotFound || e == SockError::ConnectionRefused || e
                        == SockError::RegistrationFailed)
                },
            },
    {
        let l = match net.lookup_path(path) {
            None => {
                return Err(SockError::NotFound);
            },
            Some(l) => l,
        };
        if net.socks[l].kind != SockKind::Listener {
            return Err(SockError::ConnectionRefused);
        }
        proof {
            assert(net@.len() <= net.capacity);
        }
        if net.capacity - net.socks.len() < 2 {
            return Err(SockError::RegistrationFailed);
        }
        let ghost onv = net@;
        let c_st = SockState::fresh(SockKind::Stream, SocketAddr::Unnamed, None);
        let c = match net.register(c_st) {
            Ok(c) => c,
            Err(e) => {
                proof {
                    assert(false);
                }
                return Err(e);
            },
        };
        let s_st = SockState::fresh(
            SockKind::Stream,
            SocketAddr::Pathname(clone_bytes(path)),
            Some(c),
        );
        let s = match net.register(s_st) {
            Ok(s) => s,
            Err(e) => {
                proof {
                    assert(false);
                }
                return Err(e);
            },
        };
        net.set_peer(c, s);
        net.push_backlog(l, s);
        proof {
            let target = onv.push(
                fresh_stream_view(AddrView::Unnamed, Some((onv.len() + 1) as usize)),
            ).push(fresh_stream_view(AddrView::Pathname(path@), Some(onv.len() as usize))).update(
                l as int,
                SockView { backlog: onv[l as int].backlog.push((onv.len() + 1) as usize), ..onv[l as int] },
            );
            assert(net@.len() == target.len());
            assert forall|i: int| 0 <= i < net@.len() implies net@[i] == target[i] by {
                if i == l as int {
                    assert(net@[i] =~~= target[i]);
                } else if i == c as int {
                    assert(net@[i] =~~= target[i]);
                } else if i == s as int {
                    assert(net@[i] =~~= target[i]);
                } else {
                    assert(net@[i] =~~= target[i]);
                }
            }
            assert(net@ =~~= target);
            assert forall|i: int| 0 <= i < net@.len() implies Net::sock_wf(
                #[trigger] net@[i],
                net@.len() as int,
            ) by {
                if i < onv.len() && i != l {
                    assert(net@[i] == onv[i]);
                }
            }
        }
        Ok(UnixStream { id: c })
    }

    /// Creates an unnamed pair of connected stream sockets: both local
    /// addresses are anonymous, each is the other's peer, and both start
    /// with empty buffers and optimistic readiness, so data can be
    /// exchanged immediately without any prior explicit connect.  Fails
    /// exactly when the loop cannot track two more handles, changing
    /// nothing.
    pub fn pair(net: &mut Net) -> (r: Result<(UnixStream, UnixStream), SockError>)
        requires
            old(net).wf(),
        ensures
            final(net).capacity == old(net).capacity,
            final(net).queue_cap == old(net).queue_cap,
            final(net).wf(),
            match r {
                Ok((a, b)) => {
                    &&& a.id == old(net)@.len()
                    &&& b.id == old(net)@.len() + 1
                    &&& old(net)@.len() + 2 <= old(net).capacity
                    &&& final(net)@ == old(net)@.push(
                        fresh_stream_view(AddrView::Unnamed, Some((old(net)@.len() + 1) as usize)),
                    ).push(fresh_stream_view(AddrView::Unnamed, Some(old(net)@.len() as usize)))
                },
                Err(e) => {
                    &&& e == SockError::RegistrationFailed
                    &&& old(net)@.len() + 2 > old(net).capacity
                    &&& final(net)@ == old(net)@
                },
            },
    {
        proof {
            assert(net@.len() <= net.capacity);
        }
        if net.capacity - net.socks.len() < 2 {
            return Err(SockError::RegistrationFailed);
        }
        let ghost onv = net@;
        let a_st = SockState::fresh(SockKind::Stream, SocketAddr::Unnamed, None);
        let a = match net.register(a_st) {
            Ok(a) => a,
            Err(e) => {
                proof {
                    assert(false);
                }
                return Err(e);
            },
        };
        let b_st = SockState::fresh(SockKind::Stream, SocketAddr::Unnamed, Some(a));
        let b = match net.register(b_st) {
            Ok(b) => b,
            Err(e) => {
                proof {
                    assert(false);
                }
                return Err(e);
            },
        };
        net.set_peer(a, b);
        proof {
            assert(net@ =~~= onv.push(
                fresh_stream_view(AddrView::Unnamed, Some((onv.len() + 1) as usize)),
            ).push(fresh_stream_view(AddrView::Unnamed, Some(onv.len() as usize))));
            assert forall|i: int| 0 <= i < net@.len() implies Net::sock_wf(
                #[trigger] net@[i],
                net@.len() as int,
            ) by {
                if i < onv.len() {
                    assert(net@[i] == onv[i]);
                }
            }
        }
        Ok((UnixStream { id: a }, UnixStream { id: b }))
    }

    /// One non-blocking write attempt: on success every byte of `buf` is
    /// appended, in order, to the peer's inbound buffer and the byte count
    /// is returned; otherwise the distinguishing error is returned and
    /// nothing changes.  No readiness pre-check: the caller re-arms on an
    /// observed would-block.
    pub fn write(&self, net: &mut Net, buf: &Vec<u8>) -> (r: Result<usize, SockError>)
        requires
            old(net).wf(),
            self.valid(old(net)@),
        ensures
            final(net).capacity == old(net).capacity,
            final(net).queue_cap == old(net).queue_cap,
            final(net).wf(),
            match r {
                Ok(n) => {
                    &&& stream_write_err(old(net)@, self.id as int) is None
                    &&& n == buf@.len()
                    &&& final(net)@ == old(net)@.update(
                        old(net)@[self.id as int].peer->Some_0 as int,
                        SockView {
                            rx: old(net)@[old(net)@[self.id as int].peer->Some_0 as int].rx
                                + buf@,
                            ..old(net)@[old(net)@[self.id as int].peer->Some_0 as int]
                        },
                    )
                },
                Err(e) => {
                    &&& Some(e) == stream_write_err(old(net)@, self.id as int)
                    &&& final(net)@ == old(net)@
                },
            },
    {
        if !net.socks[self.id].open {
            return Err(SockError::Closed);
        }
        if net.socks[self.id].shut_write {
            return Err(SockError::BrokenPipe);
        }
        let p = match net.socks[self.id].peer {
            None => {
                return Err(SockError::NotConnected);
            },
            Some(p) => p,
        };
        if !net.socks[p].open || net.socks[p].shut_read {
            return Err(SockError::BrokenPipe);
        }
        let mut i: usize = 0;
        let n = buf.len();
        proof {
            assert(old(net)@[p as int].rx + buf@.take(0) =~= old(net)@[p as int].rx);
            assert(net@ =~~= old(net)@.update(
                p as int,
                SockView {
                    rx: old(net)@[p as int].rx + buf@.take(0),
                    ..old(net)@[p as int]
                },
            ));
        }
        while i < n
            invariant
                n == buf@.len(),
                i <= n,
                (p as int) < net@.len(),
                net@.len() == old(net)@.len(),
                Some(p) == old(net)@[self.id as int].peer,
                stream_write_err(old(net)@, self.id as int) is None,
                net.capacity == old(net).capacity,
                net.queue_cap == old(net).queue_cap,
                net@ == old(net)@.update(
                    p as int,
                    SockView {
                        rx: old(net)@[p as int].rx + buf@.take(i as int),
                        ..old(net)@[p as int]
                    },
                ),
            decreases n - i,
        {
            let b = buf[i];
            self.push_peer_byte(net, p, b);
            i = i + 1;
            proof {
                assert(net@[p as int].rx =~= old(net)@[p as int].rx + buf@.take(i as int));
                assert(net@ =~~= old(net)@.update(
                    p as int,
                    SockView {
                        rx: old(net)@[p as int].rx + buf@.take(i as int),
                        ..old(net)@[p as int]
                    },
                ));
            }
        }
        proof {
            assert(buf@.take(n as int) =~= buf@);
            assert(net@ =~~= old(net)@.update(
                p as int,
                SockView { rx: old(net)@[p as int].rx + buf@, ..old(net)@[p as int] },
            ));
            assert forall|i2: int| 0 <= i2 < net@.len() implies Net::sock_wf(
                #[trigger] net@[i2],
                net@.len() as int,
            ) by {
                if i2 != p {
                    assert(net@[i2] == old(net)@[i2]);
                }
            }
        }
        Ok(n)
    }

    /// One non-blocking read attempt of at most `max` bytes.  Bytes come out
    /// in exactly the order they were written: the result is the buffer's
    /// prefix and the buffer keeps only the remainder.  An empty result
    /// means end-of-stream (the read half is shut, or the peer is gone or
    /// shut for writing).  Would-block means "nothing yet": the caller
    /// re-arms and suspends.
    pub fn read(&self, net: &mut Net, max: usize) -> (r: Result<Vec<u8>, SockError>)
        requires
            old(net).wf(),
            self.valid(old(net)@),
        ensures
            final(net).capacity == old(net).capacity,
            final(net).queue_cap == old(net).queue_cap,
            final(net).wf(),
            ({
                let st = old(net)@[self.id as int];
                let k = if (max as int) < st.rx.len() {
                    max as int
                } else {
                    st.rx.len() as int
                };
                match r {
                    Ok(data) => {
                        &&& st.open
                        &&& if st.shut_read {
                            data@ == Seq::<u8>::empty() && final(net)@ == old(net)@
                        } else if st.rx.len() > 0 {
                            &&& data@ == st.rx.take(k)
                            &&& final(net)@ == old(net)@.update(
                                self.id as int,
                                SockView { rx: st.rx.skip(k), ..st },
                            )
                        } else {
                            &&& stream_peer_eof(old(net)@, self.id as int)
                            &&& data@ == Seq::<u8>::empty()
                            &&& final(net)@ == old(net)@
                        }
                    },
                    Err(e) => {
                        &&& final(net)@ == old(net)@
                        &&& if !st.open {
                            e == SockError::Closed
                        } else {
                            &&& st.rx.len() == 0
                            &&& !st.shut_read
                            &&& if st.peer is None {
                                e == SockError::NotConnected
                            } else {
                                e == SockError::WouldBlock && !stream_peer_eof(
                                    old(net)@,
                                    self.id as int,
                                )
                            }
                        }
                    },
                }
            }),
    {
        if !net.socks[self.id].open {
            return Err(SockError::Closed);
        }
        if net.socks[self.id].shut_read {
            return Ok(Vec::new());
        }
        let len = net.socks[self.id].rx.len();
        if len == 0 {
            let p = match net.socks[self.id].peer {
                None => {
                    return Err(SockError::NotConnected);
                },
                Some(p) => p,
            };
            if !net.socks[p].open || net.socks[p].shut_write {
                return Ok(Vec::new());
            }
            return Err(SockError::WouldBlock);
        }
        let k = if max < len {
            max
        } else {
            len
        };
        let mut data: Vec<u8> = Vec::new();
        let mut i: usize = 0;
        while i < k
            invariant
                k <= len,
                i <= k,
                (self.id as int) < net@.len(),
                net@ == old(net)@,
                len == net@[self.id as int].rx.len(),
                data@ == net@[self.id as int].rx.take(i as int),
            decreases k - i,
        {
            let b = net.socks[self.id].rx[i];
            data.push(b);
            i = i + 1;
            proof {
                assert(data@ =~= net@[self.id as int].rx.take(i as int));
            }
        }
        let mut rest: Vec<u8> = Vec::new();
        let mut j: usize = k;
        while j < len
            invariant
                k <= j <= len,
                (self.id as int) < net@.len(),
                net@ == old(net)@,
                len == net@[self.id as int].rx.len(),
                rest@ == net@[self.id as int].rx.subrange(k as int, j as int),
            decreases len - j,
        {
            let b = net.socks[self.id].rx[j];
            rest.push(b);
            j = j + 1;
            proof {
                assert(rest@ =~= net@[self.id as int].rx.subrange(k as int, j as int));
            }
        }
        net.socks[self.id].rx = rest;
        proof {
            let st = old(net)@[self.id as int];
            assert(rest@ =~= st.rx.skip(k as int));
            assert(net@ =~~= old(net)@.update(
                self.id as int,
                SockView { rx: st.rx.skip(k as int), ..st },
            ));
            assert forall|i2: int| 0 <= i2 < net@.len() implies Net::sock_wf(
                #[trigger] net@[i2],
                net@.len() as int,
            ) by {
                if i2 != self.id as int {
                    assert(net@[i2] == old(net)@[i2]);
                }
            }
        }
        Ok(data)
    }

    /// Append one byte to the peer's inbound buffer.
    fn push_peer_byte(&self, net: &mut Net, p: usize, b: u8)
        requires
            (p as int) < old(net)@.len(),
        ensures
            final(net)@ == old(net)@.update(
                p as int,
                SockView { rx: old(net)@[p as int].rx.push(b), ..old(net)@[p as int] },
            ),
            final(net).capacity == old(net).capacity,
            final(net).queue_cap == old(net).queue_cap,
    {
        net.socks[p].rx.push(b);
        proof {
            assert(net@ =~~= old(net)@.update(
                p as int,
                SockView { rx: old(net)@[p as int].rx.push(b), ..old(net)@[p as int] },
            ));
        }
    }

    /// Flush buffered writes.  There is no internal buffering — every write
    /// maps to at most one operation — so there is never anything to flush.
    pub fn flush(&self) -> (r: Result<(), SockError>)
        ensures
            r is Ok,
    {
        Ok(())
    }

    /// Test whether this socket is ready to be read or not; no syscall, no
    /// state change.
    pub fn poll_read(&self, net: &Net) -> (r: Async)
        requires
            self.valid(net@),
        ensures
            r == (if net@[self.id as int].reg.read_ready {
                Async::Ready
            } else {
                Async::NotReady
            }),
    {
        net.sock_poll_read(self.id)
    }

    /// Test whether this socket is ready to be written to or not; no
    /// syscall, no state change.
    pub fn poll_write(&self, net: &Net) -> (r: Async)
        requires
            self.valid(net@),
        ensures
            r == (if net@[self.id as int].reg.write_ready {
                Async::Ready
            } else {
                Async::NotReady
            }),
    {
        net.sock_poll_write(self.id)
    }

    /// Re-arm read interest after an observed would-block; idempotent.
    pub fn need_read(&self, net: &mut Net)
        requires
            old(net).wf(),
            self.valid(old(net)@),
        ensures
            final(net).wf(),
            final(net).capacity == old(net).capacity,
            final(net).queue_cap == old(net).queue_cap,
            final(net)@ == old(net)@.update(
                self.id as int,
                SockView {
                    reg: Registration {
                        read_ready: false,
                        write_ready: old(net)@[self.id as int].reg.write_ready,
                    },
                    ..old(net)@[self.id as int]
                },
            ),
    {
        net.sock_need_read(self.id)
    }

    /// Re-arm write interest after an observed would-block; idempotent.
    pub fn need_write(&self, net: &mut Net)
        requires
            old(net).wf(),
            self.valid(old(net)@),
        ensures
            final(net).wf(),
            final(net).capacity == old(net).capacity,
            final(net).queue_cap == old(net).queue_cap,
            final(net)@ == old(net)@.update(
                self.id as int,
                SockView {
                    reg: Registration {
                        read_ready: old(net)@[self.id as int].reg.read_ready,
                        write_ready: false,
                    },
                    ..old(net)@[self.id as int]
                },
            ),
    {
        net.sock_need_write(self.id)
    }

    /// Returns the socket address of the local half of this connection.
    pub fn local_addr(&self, net: &Net) -> (r: Result<SocketAddr, SockError>)
        requires
            self.valid(net@),
        ensures
            match r {
                Ok(a) => net@[self.id as int].open && a@ == net@[self.id as int].local,
                Err(e) => e == SockError::Closed && !net@[self.id as int].open,
            },
    {
        net.sock_local_addr(self.id)
    }

    /// Returns the socket address of the remote half of this connection:
    /// the peer slot's local address.
    pub fn peer_addr(&self, net: &Net) -> (r: Result<SocketAddr, SockError>)
        requires
            net.wf(),
            self.valid(net@),
        ensures
            match r {
                Ok(a) => {
                    &&& net@[self.id as int].open
                    &&& net@[self.id as int].peer matches Some(p) && a@ == net@[p as int].local
                },
                Err(e) => {
                    &&& net@[self.id as int].open ==> e == SockError::NotConnected
                        && net@[self.id as int].peer is None
                    &&& !net@[self.id as int].open ==> e == SockError::Closed
                },
            },
    {
        net.sock_peer_addr(self.id)
    }

    /// Returns the value of the pending asynchronous socket error, clearing
    /// it.
    pub fn take_error(&self, net: &mut Net) -> (r: Result<Option<SockError>, SockError>)
        requires
            old(net).wf(),
            self.valid(old(net)@),
        ensures
            final(net).wf(),
            final(net).capacity == old(net).capacity,
            final(net).queue_cap == old(net).queue_cap,
            match r {
                Ok(e) => {
                    &&& old(net)@[self.id as int].open
                    &&& e == old(net)@[self.id as int].pending_error
                    &&& final(net)@ == old(net)@.update(
                        self.id as int,
                        SockView { pending_error: None, ..old(net)@[self.id as int] },
                    )
                },
                Err(e) => {
                    &&& e == SockError::Closed
                    &&& !old(net)@[self.id as int].open
                    &&& final(net)@ == old(net)@
                },
            },
    {
        net.sock_take_error(self.id)
    }

    /// Shuts down the read, write, or both halves of this connection; all
    /// pending and future operations on the shut portions report it
    /// immediately.
    pub fn shutdown(&self, net: &mut Net, how: Shutdown) -> (r: Result<(), SockError>)
        requires
            old(net).wf(),
            self.valid(old(net)@),
        ensures
            final(net).wf(),
            final(net).capacity == old(net).capacity,
            final(net).queue_cap == old(net).queue_cap,
            match r {
                Ok(_) => {
                    &&& old(net)@[self.id as int].open
                    &&& final(net)@ == old(net)@.update(
                        self.id as int,
                        SockView {
                            shut_read: old(net)@[self.id as int].shut_read || how
                                != Shutdown::Write,
                            shut_write: old(net)@[self.id as int].shut_write || how
                                != Shutdown::Read,
                            ..old(net)@[self.id as int]
                        },
                    )
                },
                Err(e) => {
                    &&& e == SockError::Closed
                    &&& !old(net)@[self.id as int].open
                    &&& final(net)@ == old(net)@
                },
            },
    {
        net.sock_shutdown(self.id, how)
    }

    /// Destroy this socket: deregisters it and closes the slot, so any
    /// operation still suspended on it fails with `Closed` instead of
    /// hanging.
    pub fn close(&self, net: &mut Net)
        requires
            old(net).wf(),
            self.valid(old(net)@),
        ensures
            final(net).wf(),
            final(net).capacity == old(net).capacity,
            final(net).queue_cap == old(net).queue_cap,
            final(net)@ == old(net)@.update(
                self.id as int,
                SockView { open: false, ..old(net)@[self.id as int] },
            ),
    {
        net.close(self.id)
    }
}

} // verus!
