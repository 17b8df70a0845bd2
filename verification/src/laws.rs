//! The general laws of the readiness protocol, stated over the same views
//! and spec functions the operation contracts use.

use vstd::prelude::*;

use crate::listener::accepted_addr;
use crate::net::SockView;
use crate::ready::Registration;
use crate::stream::{fresh_stream_view, stream_write_err};

verus! {

/// The concatenation of a sequence of messages, in order.
pub open spec fn concat_all(msgs: Seq<Seq<u8>>) -> Seq<u8>
    decreases msgs.len(),
{
    if msgs.len() == 0 {
        Seq::<u8>::empty()
    } else {
        msgs[0] + concat_all(msgs.skip(1))
    }
}

/// The peer's inbound buffer after a sequence of successful writes, each of
/// which (by `UnixStream::write`'s contract) appends its whole message.
pub open spec fn deliver_all(rx: Seq<u8>, msgs: Seq<Seq<u8>>) -> Seq<u8>
    decreases msgs.len(),
{
    if msgs.len() == 0 {
        rx
    } else {
        deliver_all(rx + msgs[0], msgs.skip(1))
    }
}

/// Stream ordering invariant, write side: for every sequence of successful
/// non-blocking writes to one side of a connected pair, the other side's
/// inbound buffer holds exactly the bytes written, byte for byte and in
/// write order, after whatever it already held.
pub proof fn lemma_stream_order(rx: Seq<u8>, msgs: Seq<Seq<u8>>)
    ensures
        deliver_all(rx, msgs) == rx + concat_all(msgs),
    decreases msgs.len(),
{
    if msgs.len() == 0 {
        assert(deliver_all(rx, msgs) =~= rx + concat_all(msgs));
    } else {
        lemma_stream_order(rx + msgs[0], msgs.skip(1));
        assert((rx + msgs[0]) + concat_all(msgs.skip(1)) =~= rx + (msgs[0] + concat_all(
            msgs.skip(1),
        )));
    }
}

/// Stream ordering invariant, read side: successive reads (each of which,
/// by `UnixStream::read`'s contract, returns the buffer's prefix and keeps
/// the remainder) return contiguous, in-order pieces: two reads of `n1` and
/// `n2` bytes together return exactly the first `n1 + n2` bytes, and leave
/// exactly the rest.
pub proof fn lemma_read_split(rx: Seq<u8>, n1: int, n2: int)
    requires
        0 <= n1,
        0 <= n2,
        n1 + n2 <= rx.len(),
    ensures
        rx.take(n1) + rx.skip(n1).take(n2) == rx.take(n1 + n2),
        rx.skip(n1).skip(n2) == rx.skip(n1 + n2),
{
    assert(rx.take(n1) + rx.skip(n1).take(n2) =~= rx.take(n1 + n2));
    assert(rx.skip(n1).skip(n2) =~= rx.skip(n1 + n2));
}

/// A whole-buffer read loses nothing: reading as many bytes as the buffer
/// holds returns it entirely.
pub proof fn lemma_read_all(rx: Seq<u8>)
    ensures
        rx.take(rx.len() as int) == rx,
        rx.skip(rx.len() as int) == Seq::<u8>::empty(),
{
    assert(rx.take(rx.len() as int) =~= rx);
    assert(rx.skip(rx.len() as int) =~= Seq::<u8>::empty());
}

/// An anonymous endpoint is unreachable for independent connection: no
/// lookup by path can ever name a socket whose local address is unnamed,
/// whatever the path.  `pair()` yields two such endpoints — which, by its
/// contract, are nonetheless each other's peers, write-ready, and with
/// write's contract can exchange data immediately without a prior connect.
pub proof fn lemma_unnamed_unreachable(net: Seq<SockView>, i: int, path: Seq<u8>)
    requires
        0 <= i < net.len(),
        net[i].local is Unnamed,
    ensures
        !crate::net::matches_path(net[i], path),
{
}

/// Both endpoints of a fresh connected pair can write immediately: in any
/// net whose slots `a` and `b` hold fresh mutually connected stream
/// endpoints (as `UnixStream::pair` ensures), a write on either succeeds —
/// no error class applies and the write-readiness gate is open.
pub proof fn lemma_pair_immediately_writable(
    net: Seq<SockView>,
    a: usize,
    b: usize,
    la: crate::addr::AddrView,
    lb: crate::addr::AddrView,
)
    requires
        (a as int) < net.len(),
        (b as int) < net.len(),
        net[a as int] == fresh_stream_view(la, Some(b)),
        net[b as int] == fresh_stream_view(lb, Some(a)),
    ensures
        stream_write_err(net, a as int) is None,
        stream_write_err(net, b as int) is None,
        net[a as int].reg.write_ready,
        net[b as int].reg.write_ready,
{
}

/// Address cross-consistency of a connected pair: for mutually connected
/// endpoints, the peer address observed at one side is exactly the local
/// address of the other, in both directions — as between a connecting
/// client and the accepted server-side connection.
pub proof fn lemma_mutual_peers_cross_consistent(net: Seq<SockView>, i: usize, j: usize)
    requires
        (i as int) < net.len(),
        (j as int) < net.len(),
        net[i as int].peer == Some(j),
        net[j as int].peer == Some(i),
    ensures
        accepted_addr(net, i as int) == net[j as int].local,
        accepted_addr(net, j as int) == net[i as int].local,
{
}

/// Round trip: for every path and every message, in the state
/// `UnixStream::connect`'s contract leaves behind — a client endpoint `c`
/// and an accept-side endpoint `s` appended to the net, with the listener's
/// backlog grown — the client's write is accepted, the accepted endpoint
/// then holds exactly the bytes written, a full read returns them all and
/// leaves nothing, and the two endpoints' addresses are cross-consistent:
/// each side's peer address is the other's local address, the accepted side
/// showing the bound path and the client side anonymous.
pub proof fn lemma_round_trip(onv: Seq<SockView>, path: Seq<u8>, l: int, data: Seq<u8>)
    requires
        0 <= l < onv.len(),
        onv.len() + 2 <= usize::MAX,
    ensures
        ({
            let c = onv.len() as int;
            let s = c + 1;
            let connected = onv.push(
                fresh_stream_view(crate::addr::AddrView::Unnamed, Some((onv.len() + 1) as usize)),
            ).push(
                fresh_stream_view(crate::addr::AddrView::Pathname(path), Some(onv.len() as usize)),
            ).update(
                l,
                SockView { backlog: onv[l].backlog.push((onv.len() + 1) as usize), ..onv[l] },
            );
            let written = connected.update(
                s,
                SockView { rx: connected[s].rx + data, ..connected[s] },
            );
            &&& stream_write_err(connected, c) is None
            &&& written[s].rx == data
            &&& written[s].rx.take(written[s].rx.len() as int) == data
            &&& written[s].rx.skip(written[s].rx.len() as int) == Seq::<u8>::empty()
            &&& accepted_addr(written, c) == written[s].local
            &&& accepted_addr(written, s) == written[c].local
            &&& written[s].local == crate::addr::AddrView::Pathname(path)
            &&& written[c].local is Unnamed
        }),
{
    assert(Seq::<u8>::empty() + data =~= data);
    lemma_read_all(data);
}

/// A spurious accept wakeup keeps the sequence alive: re-arming after a
/// readiness signal with no connection available (as `Incoming::poll`'s
/// contract prescribes) leaves the listener open with its backlog intact,
/// and once a real connection arrives and the loop delivers the next read
/// edge, the accept poll's yield conditions all hold — the connection is
/// still yielded, the sequence neither ended nor erred.
pub proof fn lemma_spurious_then_yield(st: SockView, s: usize)
    requires
        st.open,
        st.pending_error is None,
        st.backlog.len() == 0,
    ensures
        ({
            let rearmed = SockView {
                reg: Registration { read_ready: false, write_ready: st.reg.write_ready },
                ..st
            };
            let connected = SockView { backlog: rearmed.backlog.push(s), ..rearmed };
            let woken = SockView {
                reg: Registration { read_ready: true, write_ready: connected.reg.write_ready },
                ..connected
            };
            &&& woken.open
            &&& woken.reg.read_ready
            &&& woken.pending_error is None
            &&& woken.backlog.len() > 0
            &&& woken.backlog[0] == s
        }),
{
}

/// Re-arming is idempotent: declaring renewed interest in a direction a
/// second time leaves the registration record exactly as the first call
/// left it, in either direction.
pub proof fn lemma_rearm_idempotent(r: Registration)
    ensures
        ({
            let once = Registration { read_ready: false, write_ready: r.write_ready };
            Registration { read_ready: false, write_ready: once.write_ready } == once
        }),
        ({
            let once = Registration { read_ready: r.read_ready, write_ready: false };
            Registration { read_ready: once.read_ready, write_ready: false } == once
        }),
{
}

} // verus!
