//! The shared state of a set of local sockets and their event loop.
//!
//! A [`Net`] value holds every socket's state: its kind, its address, its
//! stream buffer or datagram queue, its listener backlog, and its
//! registration record with the event loop.  Socket handles refer to slots
//! here by index; a slot is never reused, so an index stays valid after the
//! socket is destroyed and a suspended operation can observe the destruction
//! and fail instead of hanging.  The loop delivers readiness edges with
//! [`Net::notify_read`] / [`Net::notify_write`]; everything else is driven by
//! the socket handles.

use vstd::prelude::*;

use crate::addr::{bytes_eq, AddrView, SocketAddr};
use crate::error::SockError;
use crate::ready::{Async, Registration};

verus! {

/// What role a socket plays.
#[derive(Clone, Copy, Debug, PartialEq, Eq, Structural)]
pub enum SockKind {
    /// A connected bidirectional byte stream.
    Stream,
    /// A listener producing accepted connections.
    Listener,
    /// A connectionless message socket.
    Datagram,
}

/// Which half of a connection to shut down.
#[derive(Clone, Copy, Debug, PartialEq, Eq, Structural)]
pub enum Shutdown {
    /// Further receives are disallowed.
    Read,
    /// Further sends are disallowed.
    Write,
    /// Both directions.
    Both,
}

/// The mathematical value of one queued datagram: who sent it and its bytes.
#[verifier::ext_equal]
pub struct DgramView {
    /// Slot index of the sending socket.
    pub from: usize,
    /// The message bytes.
    pub data: Seq<u8>,
}

/// One queued datagram: the sender's slot index and the message bytes.
pub struct Datagram {
    /// Slot index of the sending socket.
    pub from: usize,
    /// The message bytes.
    pub data: Vec<u8>,
}

impl View for Datagram {
    type V = DgramView;

    open spec fn view(&self) -> DgramView {
        DgramView { from: self.from, data: self.data@ }
    }
}

/// The mathematical value of one socket slot.
#[verifier::ext_equal]
pub struct SockView {
    /// The socket's role.
    pub kind: SockKind,
    /// False once the socket object is destroyed.
    pub open: bool,
    /// The local address.
    pub local: AddrView,
    /// The connected peer's slot index, if any.
    pub peer: Option<usize>,
    /// Inbound stream bytes not yet read.
    pub rx: Seq<u8>,
    /// Inbound datagrams not yet received.
    pub dgrams: Seq<DgramView>,
    /// A listener's pending accepted-connection slots, oldest first.
    pub backlog: Seq<usize>,
    /// The registration record shared with the event loop.
    pub reg: Registration,
    /// An asynchronously recorded socket error, cleared by `take_error`.
    pub pending_error: Option<SockError>,
    /// Has the read half been shut down?
    pub shut_read: bool,
    /// Has the write half been shut down?
    pub shut_write: bool,
}

/// One socket slot.
pub struct SockState {
    /// The socket's role.
    pub kind: SockKind,
    /// False once the socket object is destroyed.
    pub open: bool,
    /// The local address.
    pub local: SocketAddr,
    /// The connected peer's slot index, if any.
    pub peer: Option<usize>,
    /// Inbound stream bytes not yet read.
    pub rx: Vec<u8>,
    /// Inbound datagrams not yet received.
    pub dgrams: Vec<Datagram>,
    /// A listener's pending accepted-connection slots, oldest first.
    pub backlog: Vec<usize>,
    /// The registration record shared with the event loop.
    pub reg: Registration,
    /// An asynchronously recorded socket error, cleared by `take_error`.
    pub pending_error: Option<SockError>,
    /// Has the read half been shut down?
    pub shut_read: bool,
    /// Has the write half been shut down?
    pub shut_write: bool,
}

impl View for SockState {
    type V = SockView;

    open spec fn view(&self) -> SockView {
        SockView {
            kind: self.kind,
            open: self.open,
            local: self.local@,
            peer: self.peer,
            rx: self.rx@,
            dgrams: self.dgrams@.map_values(|d: Datagram| d@),
            backlog: self.backlog@,
            reg: self.reg,
            pending_error: self.pending_error,
            shut_read: self.shut_read,
            shut_write: self.shut_write,
        }
    }
}

impl SockState {
    /// A freshly registered socket slot: open, optimistically ready, with
    /// empty buffers and no pending error.
    pub fn fresh(kind: SockKind, local: SocketAddr, peer: Option<usize>) -> (r: SockState)
        ensures
            r@ == (SockView {
                kind,
                open: true,
                local: local@,
                peer,
                rx: Seq::<u8>::empty(),
                dgrams: Seq::<DgramView>::empty(),
                backlog: Seq::<usize>::empty(),
                reg: Registration { read_ready: true, write_ready: true },
                pending_error: None,
                shut_read: false,
                shut_write: false,
            }),
    {
        let r = SockState {
            kind,
            open: true,
            local,
            peer,
            rx: Vec::new(),
            dgrams: Vec::new(),
            backlog: Vec::new(),
            reg: Registration::new(),
            pending_error: None,
            shut_read: false,
            shut_write: false,
        };
        proof {
            assert(r@.dgrams =~= Seq::<DgramView>::empty());
            assert(r@ =~= SockView {
                kind,
                open: true,
                local: local@,
                peer,
                rx: Seq::<u8>::empty(),
                dgrams: Seq::<DgramView>::empty(),
                backlog: Seq::<usize>::empty(),
                reg: Registration { read_ready: true, write_ready: true },
                pending_error: None,
                shut_read: false,
                shut_write: false,
            });
        }
        r
    }
}

/// Does this slot answer for `path` in the filesystem namespace: an open
/// listener or datagram socket bound at that pathname?  Stream sockets show
/// their listener's path as a local address but never occupy the namespace.
pub open spec fn matches_path(sv: SockView, path: Seq<u8>) -> bool {
    sv.open && sv.kind != SockKind::Stream && sv.local == AddrView::Pathname(path)
}

/// Slot `i` is the first namespace match for `path`; at most one slot
/// satisfies this.
pub open spec fn first_match_at(net: Seq<SockView>, path: Seq<u8>, i: int) -> bool {
    &&& 0 <= i < net.len()
    &&& matches_path(net[i], path)
    &&& forall|k: int| 0 <= k < i ==> !matches_path(#[trigger] net[k], path)
}

/// All the sockets of one event loop, and the loop's capacity limits.
pub struct Net {
    /// The socket slots; indices are handle identities and are never reused.
    pub socks: Vec<SockState>,
    /// How many handles the event loop can track; registration beyond this
    /// fails with [`SockError::RegistrationFailed`].
    pub capacity: usize,
    /// How many datagrams one socket may queue before a send observes a
    /// would-block at the operation itself.
    pub queue_cap: usize,
}

impl View for Net {
    type V = Seq<SockView>;

    open spec fn view(&self) -> Seq<SockView> {
        Seq::new(self.socks@.len(), |i: int| self.socks@[i]@)
    }
}

impl Net {
    /// Every slot's cross-references stay inside the table.
    pub open spec fn sock_wf(sv: SockView, n: int) -> bool {
        &&& (sv.peer matches Some(p) ==> (p as int) < n)
        &&& (forall|k: int| 0 <= k < sv.backlog.len() ==> (#[trigger] sv.backlog[k] as int) < n)
        &&& (forall|k: int| 0 <= k < sv.dgrams.len() ==> (#[trigger] sv.dgrams[k].from as int) < n)
    }

    /// Well-formedness: the table respects the capacity and every slot's
    /// references are in range.
    pub open spec fn wf(self) -> bool {
        &&& self@.len() <= self.capacity
        &&& forall|i: int| 0 <= i < self@.len() ==> Self::sock_wf(#[trigger] self@[i], self@.len() as int)
    }

    /// An empty net with the given registration capacity and per-socket
    /// datagram queue bound.
    pub fn new(capacity: usize, queue_cap: usize) -> (r: Net)
        ensures
            r@ == Seq::<SockView>::empty(),
            r.capacity == capacity,
            r.queue_cap == queue_cap,
            r.wf(),
    {
        let r = Net { socks: Vec::new(), capacity, queue_cap };
        proof {
            assert(r@ =~= Seq::<SockView>::empty());
        }
        r
    }

    /// How many slots exist.
    pub fn len(&self) -> (n: usize)
        ensures
            n == self@.len(),
    {
        self.socks.len()
    }

    /// The event loop's side: deliver a read-readiness edge to one socket.
    /// Nothing but that socket's read-readiness bit changes.
    pub fn notify_read(&mut self, id: usize)
        requires
            id < old(self)@.len(),
        ensures
            final(self)@ == old(self)@.update(
                id as int,
                SockView {
                    reg: Registration {
                        read_ready: true,
                        write_ready: old(self)@[id as int].reg.write_ready,
                    },
                    ..old(self)@[id as int]
                },
            ),
            final(self).capacity == old(self).capacity,
            final(self).queue_cap == old(self).queue_cap,
            old(self).wf() ==> final(self).wf(),
    {
        self.socks[id].reg.read_ready = true;
        proof {
            assert(self@ =~~= old(self)@.update(
                id as int,
                SockView {
                    reg: Registration {
                        read_ready: true,
                        write_ready: old(self)@[id as int].reg.write_ready,
                    },
                    ..old(self)@[id as int]
                },
            ));
        }
    }

    /// The event loop's side: deliver a write-readiness edge to one socket.
    pub fn notify_write(&mut self, id: usize)
        requires
            id < old(self)@.len(),
        ensures
            final(self)@ == old(self)@.update(
                id as int,
                SockView {
                    reg: Registration {
                        read_ready: old(self)@[id as int].reg.read_ready,
                        write_ready: true,
                    },
                    ..old(self)@[id as int]
                },
            ),
            final(self).capacity == old(self).capacity,
            final(self).queue_cap == old(self).queue_cap,
            old(self).wf() ==> final(self).wf(),
    {
        self.socks[id].reg.write_ready = true;
        proof {
            assert(self@ =~~= old(self)@.update(
                id as int,
                SockView {
                    reg: Registration {
                        read_ready: old(self)@[id as int].reg.read_ready,
                        write_ready: true,
                    },
                    ..old(self)@[id as int]
                },
            ));
        }
    }

    /// Record an asynchronous socket error on one slot, as the OS would under
    /// `SO_ERROR`; `take_error` or a failing accept will surface it.
    pub fn set_pending_error(&mut self, id: usize, e: SockError)
        requires
            id < old(self)@.len(),
        ensures
            final(self)@ == old(self)@.update(
                id as int,
                SockView { pending_error: Some(e), ..old(self)@[id as int] },
            ),
            final(self).capacity == old(self).capacity,
            final(self).queue_cap == old(self).queue_cap,
            old(self).wf() ==> final(self).wf(),
    {
        self.socks[id].pending_error = Some(e);
        proof {
            assert(self@ =~~= old(self)@.update(
                id as int,
                SockView { pending_error: Some(e), ..old(self)@[id as int] },
            ));
        }
    }

    /// Destroy one socket: the slot is marked closed and stays closed.  Any
    /// operation later attempted through a handle to this slot fails with
    /// [`SockError::Closed`] instead of hanging.
    pub fn close(&mut self, id: usize)
        requires
            id < old(self)@.len(),
        ensures
            final(self)@ == old(self)@.update(
                id as int,
                SockView { open: false, ..old(self)@[id as int] },
            ),
            final(self).capacity == old(self).capacity,
            final(self).queue_cap == old(self).queue_cap,
            old(self).wf() ==> final(self).wf(),
    {
        self.socks[id].open = false;
        proof {
            assert(self@ =~~= old(self)@.update(
                id as int,
                SockView { open: false, ..old(self)@[id as int] },
            ));
        }
    }

    /// Find the open socket bound at `path` in the namespace, if any.
    pub fn lookup_path(&self, path: &Vec<u8>) -> (r: Option<usize>)
        ensures
            match r {
                Some(i) => first_match_at(self@, path@, i as int),
                None => forall|i: int|
                    0 <= i < self@.len() ==> !matches_path(#[trigger] self@[i], path@),
            },
    {
        let n = self.socks.len();
        let mut i: usize = 0;
        while i < n
            invariant
                n == self@.len(),
                i <= n,
                forall|k: int| 0 <= k < i ==> !matches_path(#[trigger] self@[k], path@),
            decreases n - i,
        {
            let st = &self.socks[i];
            if st.open && st.kind != SockKind::Stream {
                match &st.local {
                    SocketAddr::Pathname(p) => {
                        if bytes_eq(p, path) {
                            return Some(i);
                        }
                    },
                    SocketAddr::Unnamed => {},
                }
            }
            proof {
                assert(!matches_path(self@[i as int], path@));
            }
            i = i + 1;
        }
        None
    }

    /// Register a fresh socket slot with the event loop.  Fails with
    /// [`SockError::RegistrationFailed`] exactly when the loop is at
    /// capacity; the failure is fatal to the constructing call and changes
    /// nothing.
    pub fn register(&mut self, st: SockState) -> (r: Result<usize, SockError>)
        ensures
            match r {
                Ok(id) => {
                    &&& old(self)@.len() < old(self).capacity
                    &&& id == old(self)@.len()
                    &&& final(self)@ == old(self)@.push(st@)
                },
                Err(e) => {
                    &&& e == SockError::RegistrationFailed
                    &&& old(self)@.len() >= old(self).capacity
                    &&& final(self)@ == old(self)@
                    &&& *final(self) == *old(self)
                },
            },
            final(self).capacity == old(self).capacity,
            final(self).queue_cap == old(self).queue_cap,
    {
        if self.socks.len() >= self.capacity {
            return Err(SockError::RegistrationFailed);
        }
        let id = self.socks.len();
        self.socks.push(st);
        proof {
            assert(self@ =~~= old(self)@.push(st@));
        }
        Ok(id)
    }

    /// Point one slot's peer reference at another slot.
    pub fn set_peer(&mut self, id: usize, peer: usize)
        requires
            id < old(self)@.len(),
            peer < old(self)@.len(),
        ensures
            final(self)@ == old(self)@.update(
                id as int,
                SockView { peer: Some(peer), ..old(self)@[id as int] },
            ),
            final(self).capacity == old(self).capacity,
            final(self).queue_cap == old(self).queue_cap,
            old(self).wf() ==> final(self).wf(),
    {
        self.socks[id].peer = Some(peer);
        proof {
            assert(self@ =~~= old(self)@.update(
                id as int,
                SockView { peer: Some(peer), ..old(self)@[id as int] },
            ));
        }
    }

    /// Append a pending accepted-connection slot to a listener's backlog.
    pub fn push_backlog(&mut self, id: usize, s: usize)
        requires
            id < old(self)@.len(),
        ensures
            final(self)@ == old(self)@.update(
                id as int,
                SockView {
                    backlog: old(self)@[id as int].backlog.push(s),
                    ..old(self)@[id as int]
                },
            ),
            final(self).capacity == old(self).capacity,
            final(self).queue_cap == old(self).queue_cap,
    {
        self.socks[id].backlog.push(s);
        proof {
            assert(self@ =~~= old(self)@.update(
                id as int,
                SockView {
                    backlog: old(self)@[id as int].backlog.push(s),
                    ..old(self)@[id as int]
                },
            ));
        }
    }

    /// Pop the oldest pending accepted-connection slot from a listener's
    /// backlog.
    pub fn pop_backlog(&mut self, id: usize) -> (s: usize)
        requires
            id < old(self)@.len(),
            old(self)@[id as int].backlog.len() > 0,
        ensures
            s == old(self)@[id as int].backlog[0],
            final(self)@ == old(self)@.update(
                id as int,
                SockView {
                    backlog: old(self)@[id as int].backlog.skip(1),
                    ..old(self)@[id as int]
                },
            ),
            final(self).capacity == old(self).capacity,
            final(self).queue_cap == old(self).queue_cap,
            old(self).wf() ==> final(self).wf(),
    {
        let s = self.socks[id].backlog.remove(0);
        proof {
            assert(self.socks@[id as int].backlog@ =~= old(self)@[id as int].backlog.skip(1));
            assert(self@ =~~= old(self)@.update(
                id as int,
                SockView {
                    backlog: old(self)@[id as int].backlog.skip(1),
                    ..old(self)@[id as int]
                },
            ));
            assert(old(self).wf() ==> self.wf()) by {
                if old(self).wf() {
                    assert forall|i: int| 0 <= i < self@.len() implies Net::sock_wf(
                        #[trigger] self@[i],
                        self@.len() as int,
                    ) by {
                        if i != id as int {
                            assert(self@[i] == old(self)@[i]);
                        } else {
                            assert forall|k: int|
                                0 <= k < self@[i].backlog.len() implies (
                            #[trigger] self@[i].backlog[k] as int) < self@.len() as int by {
                                assert(self@[i].backlog[k] == old(self)@[i].backlog[k + 1]);
                            }
                        }
                    }
                }
            }
        }
        s
    }

    /// Queue one datagram on the destination socket.
    pub fn push_dgram(&mut self, p: usize, d: Datagram)
        requires
            p < old(self)@.len(),
            (d.from as int) < old(self)@.len(),
        ensures
            final(self)@ == old(self)@.update(
                p as int,
                SockView {
                    dgrams: old(self)@[p as int].dgrams.push(d@),
                    ..old(self)@[p as int]
                },
            ),
            final(self).capacity == old(self).capacity,
            final(self).queue_cap == old(self).queue_cap,
            old(self).wf() ==> final(self).wf(),
    {
        self.socks[p].dgrams.push(d);
        proof {
            assert(self.socks@[p as int].dgrams@.map_values(|x: Datagram| x@) =~= old(
                self,
            )@[p as int].dgrams.push(d@));
            assert(self@ =~~= old(self)@.update(
                p as int,
                SockView {
                    dgrams: old(self)@[p as int].dgrams.push(d@),
                    ..old(self)@[p as int]
                },
            ));
            assert(old(self).wf() ==> self.wf()) by {
                if old(self).wf() {
                    assert forall|i: int| 0 <= i < self@.len() implies Net::sock_wf(
                        #[trigger] self@[i],
                        self@.len() as int,
                    ) by {
                        if i != p as int {
                            assert(self@[i] == old(self)@[i]);
                        } else {
                            assert forall|k: int|
                                0 <= k < self@[i].dgrams.len() implies (
                            #[trigger] self@[i].dgrams[k].from as int) < self@.len() as int by {
                                if k < self@[i].dgrams.len() - 1 {
                                    assert(self@[i].dgrams[k] == old(self)@[i].dgrams[k]);
                                } else {
                                    assert(self@[i].dgrams[k] == d@);
                                }
                            }
                        }
                    }
                }
            }
        }
    }

    /// Dequeue the oldest datagram from one socket.
    pub fn pop_dgram(&mut self, id: usize) -> (d: Datagram)
        requires
            id < old(self)@.len(),
            old(self)@[id as int].dgrams.len() > 0,
        ensures
            d@ == old(self)@[id as int].dgrams[0],
            final(self)@ == old(self)@.update(
                id as int,
                SockView {
                    dgrams: old(self)@[id as int].dgrams.skip(1),
                    ..old(self)@[id as int]
                },
            ),
            final(self).capacity == old(self).capacity,
            final(self).queue_cap == old(self).queue_cap,
            old(self).wf() ==> final(self).wf(),
    {
        let d = self.socks[id].dgrams.remove(0);
        proof {
            assert(self.socks@[id as int].dgrams@.map_values(|x: Datagram| x@) =~= old(
                self,
            )@[id as int].dgrams.skip(1));
            assert(self@ =~~= old(self)@.update(
                id as int,
                SockView {
                    dgrams: old(self)@[id as int].dgrams.skip(1),
                    ..old(self)@[id as int]
                },
            ));
            assert(old(self).wf() ==> self.wf()) by {
                if old(self).wf() {
                    assert forall|i: int| 0 <= i < self@.len() implies Net::sock_wf(
                        #[trigger] self@[i],
                        self@.len() as int,
                    ) by {
                        if i != id as int {
                            assert(self@[i] == old(self)@[i]);
                        } else {
                            assert forall|k: int|
                                0 <= k < self@[i].dgrams.len() implies (
                            #[trigger] self@[i].dgrams[k].from as int) < self@.len() as int by {
                                assert(self@[i].dgrams[k] == old(self)@[i].dgrams[k + 1]);
                            }
                        }
                    }
                }
            }
        }
        d
    }

    /// The local address of one socket; fails only on a destroyed socket.
    pub fn sock_local_addr(&self, id: usize) -> (r: Result<SocketAddr, SockError>)
        requires
            id < self@.len(),
        ensures
            match r {
                Ok(a) => self@[id as int].open && a@ == self@[id as int].local,
                Err(e) => e == SockError::Closed && !self@[id as int].open,
            },
    {
        let st = &self.socks[id];
        if !st.open {
            return Err(SockError::Closed);
        }
        Ok(st.local.clone())
    }

    /// The address of one socket's connected peer: the peer slot's local
    /// address.  Fails with `NotConnected` exactly when no peer is
    /// associated, with `Closed` on a destroyed socket.
    pub fn sock_peer_addr(&self, id: usize) -> (r: Result<SocketAddr, SockError>)
        requires
            self.wf(),
            id < self@.len(),
        ensures
            match r {
                Ok(a) => {
                    &&& self@[id as int].open
                    &&& self@[id as int].peer matches Some(p) && a@ == self@[p as int].local
                },
                Err(e) => {
                    &&& self@[id as int].open ==> e == SockError::NotConnected
                        && self@[id as int].peer is None
                    &&& !self@[id as int].open ==> e == SockError::Closed
                },
            },
    {
        let st = &self.socks[id];
        if !st.open {
            return Err(SockError::Closed);
        }
        match st.peer {
            None => Err(SockError::NotConnected),
            Some(p) => Ok(self.socks[p].local.clone()),
        }
    }

    /// Return and clear the asynchronously recorded socket error, as reading
    /// `SO_ERROR` would.
    pub fn sock_take_error(&mut self, id: usize) -> (r: Result<Option<SockError>, SockError>)
        requires
            id < old(self)@.len(),
        ensures
            match r {
                Ok(e) => {
                    &&& old(self)@[id as int].open
                    &&& e == old(self)@[id as int].pending_error
                    &&& final(self)@ == old(self)@.update(
                        id as int,
                        SockView { pending_error: None, ..old(self)@[id as int] },
                    )
                },
                Err(e) => {
                    &&& e == SockError::Closed
                    &&& !old(self)@[id as int].open
                    &&& final(self)@ == old(self)@
                },
            },
            final(self).capacity == old(self).capacity,
            final(self).queue_cap == old(self).queue_cap,
            old(self).wf() ==> final(self).wf(),
    {
        if !self.socks[id].open {
            proof {
                assert(self@ =~~= old(self)@);
            }
            return Err(SockError::Closed);
        }
        let e = self.socks[id].pending_error;
        self.socks[id].pending_error = None;
        proof {
            assert(self@ =~~= old(self)@.update(
                id as int,
                SockView { pending_error: None, ..old(self)@[id as int] },
            ));
        }
        Ok(e)
    }

    /// Shut down one or both halves of a socket.  All pending and future
    /// operations on the shut portions report it immediately.
    pub fn sock_shutdown(&mut self, id: usize, how: Shutdown) -> (r: Result<(), SockError>)
        requires
            id < old(self)@.len(),
        ensures
            match r {
                Ok(_) => {
                    &&& old(self)@[id as int].open
                    &&& final(self)@ == old(self)@.update(
                        id as int,
                        SockView {
                            shut_read: old(self)@[id as int].shut_read || how != Shutdown::Write,
                            shut_write: old(self)@[id as int].shut_write || how != Shutdown::Read,
                            ..old(self)@[id as int]
                        },
                    )
                },
                Err(e) => {
                    &&& e == SockError::Closed
                    &&& !old(self)@[id as int].open
                    &&& final(self)@ == old(self)@
                },
            },
            final(self).capacity == old(self).capacity,
            final(self).queue_cap == old(self).queue_cap,
            old(self).wf() ==> final(self).wf(),
    {
        if !self.socks[id].open {
            proof {
                assert(self@ =~~= old(self)@);
            }
            return Err(SockError::Closed);
        }
        if how != Shutdown::Write {
            self.socks[id].shut_read = true;
        }
        if how != Shutdown::Read {
            self.socks[id].shut_write = true;
        }
        proof {
            assert(self@ =~~= old(self)@.update(
                id as int,
                SockView {
                    shut_read: old(self)@[id as int].shut_read || how != Shutdown::Write,
                    shut_write: old(self)@[id as int].shut_write || how != Shutdown::Read,
                    ..old(self)@[id as int]
                },
            ));
        }
        Ok(())
    }

    /// Query read readiness of one socket; no syscall, no state change.
    pub fn sock_poll_read(&self, id: usize) -> (r: Async)
        requires
            id < self@.len(),
        ensures
            r == (if self@[id as int].reg.read_ready {
                Async::Ready
            } else {
                Async::NotReady
            }),
    {
        self.socks[id].reg.poll_read()
    }

    /// Query write readiness of one socket; no syscall, no state change.
    pub fn sock_poll_write(&self, id: usize) -> (r: Async)
        requires
            id < self@.len(),
        ensures
            r == (if self@[id as int].reg.write_ready {
                Async::Ready
            } else {
                Async::NotReady
            }),
    {
        self.socks[id].reg.poll_write()
    }

    /// Re-arm read interest on one socket after an observed would-block.
    /// Idempotent: a redundant call leaves the net as it was.
    pub fn sock_need_read(&mut self, id: usize)
        requires
            id < old(self)@.len(),
        ensures
            final(self)@ == old(self)@.update(
                id as int,
                SockView {
                    reg: Registration {
                        read_ready: false,
                        write_ready: old(self)@[id as int].reg.write_ready,
                    },
                    ..old(self)@[id as int]
                },
            ),
            final(self).capacity == old(self).capacity,
            final(self).queue_cap == old(self).queue_cap,
            old(self).wf() ==> final(self).wf(),
    {
        self.socks[id].reg.read_ready = false;
        proof {
            assert(self@ =~~= old(self)@.update(
                id as int,
                SockView {
                    reg: Registration {
                        read_ready: false,
                        write_ready: old(self)@[id as int].reg.write_ready,
                    },
                    ..old(self)@[id as int]
                },
            ));
        }
    }

    /// Re-arm write interest on one socket after an observed would-block.
    /// Idempotent: a redundant call leaves the net as it was.
    pub fn sock_need_write(&mut self, id: usize)
        requires
            id < old(self)@.len(),
        ensures
            final(self)@ == old(self)@.update(
                id as int,
                SockView {
                    reg: Registration {
                        read_ready: old(self)@[id as int].reg.read_ready,
                        write_ready: false,
                    },
                    ..old(self)@[id as int]
                },
            ),
            final(self).capacity == old(self).capacity,
            final(self).queue_cap == old(self).queue_cap,
            old(self).wf() ==> final(self).wf(),
    {
        self.socks[id].reg.write_ready = false;
        proof {
            assert(self@ =~~= old(self)@.update(
                id as int,
                SockView {
                    reg: Registration {
                        read_ready: old(self)@[id as int].reg.read_ready,
                        write_ready: false,
                    },
                    ..old(self)@[id as int]
                },
            ));
        }
    }
}

} // verus!
