//! Scenario tests driving the readiness protocol: the event loop's edges are
//! delivered manually, so every suspension, re-arm, and spurious-wakeup path
//! is observable.

use uds_ready::{
    is_wouldblock, AcceptOutcome, Async, Net, Shutdown, SockError, UnixDatagram, UnixListener,
    UnixStream,
};

fn path(s: &str) -> Vec<u8> {
    s.as_bytes().to_vec()
}

fn new_net() -> Net {
    Net::new(16, 8)
}

#[test]
fn stream_pair_orders_bytes_across_writes_and_reads() {
    let mut net = new_net();
    let (a, b) = UnixStream::pair(&mut net).unwrap();
    assert_eq!(a.write(&mut net, &path("hello")).unwrap(), 5);
    assert_eq!(a.write(&mut net, &path(" world")).unwrap(), 6);
    let first = b.read(&mut net, 3).unwrap();
    let second = b.read(&mut net, 100).unwrap();
    assert_eq!(first, path("hel"));
    assert_eq!(second, path("lo world"));
}

#[test]
fn pair_is_unnamed_and_unreachable_but_immediately_usable() {
    let mut net = new_net();
    let (a, b) = UnixStream::pair(&mut net).unwrap();
    assert!(a.local_addr(&net).unwrap().is_unnamed());
    assert!(b.local_addr(&net).unwrap().is_unnamed());
    // No path can reach either side: an independent connect finds nothing.
    assert_eq!(
        UnixStream::connect(&mut net, &path("/tmp/nowhere")).unwrap_err(),
        SockError::NotFound
    );
    // Yet both sides exchange data immediately, no prior explicit connect.
    assert_eq!(a.write(&mut net, &path("ping")).unwrap(), 4);
    assert_eq!(b.read(&mut net, 16).unwrap(), path("ping"));
    assert_eq!(b.write(&mut net, &path("pong")).unwrap(), 4);
    assert_eq!(a.read(&mut net, 16).unwrap(), path("pong"));
}

#[test]
fn accept_never_yields_without_clients_and_never_spins() {
    let mut net = new_net();
    let lst = UnixListener::bind(&mut net, &path("/tmp/quiet")).unwrap();
    let id = lst.id;
    let inc = lst.incoming();
    // First poll consumes the optimistic readiness: a spurious attempt that
    // re-arms and suspends.
    assert!(matches!(inc.poll(&mut net).unwrap(), AcceptOutcome::NotReady));
    // Now NOT_READY: further polls suspend without touching the net at all —
    // no accept attempt occurs.
    assert_eq!(net.sock_poll_read(id), Async::NotReady);
    for _ in 0..3 {
        assert!(matches!(inc.poll(&mut net).unwrap(), AcceptOutcome::NotReady));
        assert_eq!(net.sock_poll_read(id), Async::NotReady);
    }
}

#[test]
fn spurious_accept_readiness_rearms_and_keeps_sequence_alive() {
    let mut net = new_net();
    let lst = UnixListener::bind(&mut net, &path("/tmp/srv")).unwrap();
    let id = lst.id;
    let inc = lst.incoming();
    // Force exactly one spurious wakeup: readiness signalled, no connection.
    net.notify_read(id);
    assert!(matches!(inc.poll(&mut net).unwrap(), AcceptOutcome::NotReady));
    assert_eq!(net.sock_poll_read(id), Async::NotReady);
    // The real connection arrives, the loop delivers the next edge...
    let client = UnixStream::connect(&mut net, &path("/tmp/srv")).unwrap();
    net.notify_read(id);
    // ...and the connection is still yielded: not an error, not the end.
    match inc.poll(&mut net).unwrap() {
        AcceptOutcome::Ready(server, addr) => {
            assert!(addr.is_unnamed());
            assert_eq!(client.write(&mut net, &path("hi")).unwrap(), 2);
            assert_eq!(server.read(&mut net, 8).unwrap(), path("hi"));
        }
        AcceptOutcome::NotReady => panic!("connection was lost after a spurious wakeup"),
    }
}

#[test]
fn datagram_send_recv_without_peer_is_not_connected_not_would_block() {
    let mut net = new_net();
    let d = UnixDatagram::bind(&mut net, &path("/tmp/lone")).unwrap();
    let send_err = d.send(&mut net, &path("data")).unwrap_err();
    assert_eq!(send_err, SockError::NotConnected);
    assert!(!is_wouldblock::<usize>(&Err(send_err)));
    let recv_err = d.recv(&mut net, 16).unwrap_err();
    assert_eq!(recv_err, SockError::NotConnected);
    assert!(!is_wouldblock::<usize>(&Err(recv_err)));
}

#[test]
fn round_trip_bind_connect_write_read_with_cross_consistent_addresses() {
    let mut net = new_net();
    let lst = UnixListener::bind(&mut net, &path("/tmp/rt")).unwrap();
    let lst_id = lst.id;
    let inc = lst.incoming();
    let client = UnixStream::connect(&mut net, &path("/tmp/rt")).unwrap();
    let payload = path("exactly these bytes");
    let n = client.write(&mut net, &payload).unwrap();
    assert_eq!(n, payload.len());
    net.notify_read(lst_id);
    let (server, from) = match inc.poll(&mut net).unwrap() {
        AcceptOutcome::Ready(server, from) => (server, from),
        AcceptOutcome::NotReady => panic!("connection not yielded"),
    };
    // Exactly N bytes are readable on the accepted side.
    let got = server.read(&mut net, payload.len() + 100).unwrap();
    assert_eq!(got, payload);
    assert_eq!(
        server.read(&mut net, 1).unwrap_err(),
        SockError::WouldBlock
    );
    // Addresses are cross-consistent between client and accepted connection.
    let client_local = client.local_addr(&net).unwrap();
    let client_peer = client.peer_addr(&net).unwrap();
    let server_local = server.local_addr(&net).unwrap();
    let server_peer = server.peer_addr(&net).unwrap();
    assert_eq!(client_peer.as_pathname(), Some(&path("/tmp/rt")));
    assert_eq!(server_local.as_pathname(), Some(&path("/tmp/rt")));
    assert!(client_local.is_unnamed());
    assert!(server_peer.is_unnamed());
    // The accepted-from address is the client's (unnamed) local address.
    assert!(from.is_unnamed());
}

#[test]
fn destroying_a_socket_fails_suspended_operations_instead_of_hanging() {
    let mut net = new_net();
    let (a, b) = UnixStream::pair(&mut net).unwrap();
    // A reader is suspended on `a` (nothing to read yet).
    assert_eq!(a.read(&mut net, 8).unwrap_err(), SockError::WouldBlock);
    a.close(&mut net);
    // On the loop's next pass the suspended operation fails, not hangs.
    assert_eq!(a.read(&mut net, 8).unwrap_err(), SockError::Closed);
    assert_eq!(a.write(&mut net, &path("x")).unwrap_err(), SockError::Closed);
    // The peer sees a broken pipe when writing, end-of-stream when reading.
    assert_eq!(b.write(&mut net, &path("x")).unwrap_err(), SockError::BrokenPipe);
    assert_eq!(b.read(&mut net, 8).unwrap(), Vec::<u8>::new());
}

#[test]
fn destroying_a_listener_fails_a_suspended_accept() {
    let mut net = new_net();
    let lst = UnixListener::bind(&mut net, &path("/tmp/gone")).unwrap();
    let id = lst.id;
    let inc = lst.incoming();
    assert!(matches!(inc.poll(&mut net).unwrap(), AcceptOutcome::NotReady));
    net.close(id);
    assert_eq!(inc.poll(&mut net).unwrap_err(), SockError::Closed);
}

#[test]
fn bind_twice_is_addr_in_use() {
    let mut net = new_net();
    let _lst = UnixListener::bind(&mut net, &path("/tmp/one")).unwrap();
    assert_eq!(
        UnixListener::bind(&mut net, &path("/tmp/one")).unwrap_err(),
        SockError::AddrInUse
    );
    assert_eq!(
        UnixDatagram::bind(&mut net, &path("/tmp/one")).unwrap_err(),
        SockError::AddrInUse
    );
}

#[test]
fn connect_to_wrong_kind_is_refused() {
    let mut net = new_net();
    let _d = UnixDatagram::bind(&mut net, &path("/tmp/dg")).unwrap();
    assert_eq!(
        UnixStream::connect(&mut net, &path("/tmp/dg")).unwrap_err(),
        SockError::ConnectionRefused
    );
    let _lst = UnixListener::bind(&mut net, &path("/tmp/ls")).unwrap();
    let d2 = UnixDatagram::bind(&mut net, &path("/tmp/dg2")).unwrap();
    assert_eq!(
        d2.connect(&mut net, &path("/tmp/ls")).unwrap_err(),
        SockError::ConnectionRefused
    );
    assert_eq!(
        d2.send_to(&mut net, &path("data"), &path("/tmp/ls")).unwrap_err(),
        SockError::ConnectionRefused
    );
}

#[test]
fn registration_failure_when_loop_is_at_capacity() {
    let mut net = Net::new(1, 8);
    assert_eq!(
        UnixStream::pair(&mut net).unwrap_err(),
        SockError::RegistrationFailed
    );
    let _lst = UnixListener::bind(&mut net, &path("/tmp/cap")).unwrap();
    assert_eq!(
        UnixListener::bind(&mut net, &path("/tmp/other")).unwrap_err(),
        SockError::RegistrationFailed
    );
}

#[test]
fn pending_error_is_taken_once_and_cleared() {
    let mut net = new_net();
    let (a, _b) = UnixStream::pair(&mut net).unwrap();
    net.set_pending_error(a.id, SockError::Os(13));
    assert_eq!(a.take_error(&mut net).unwrap(), Some(SockError::Os(13)));
    assert_eq!(a.take_error(&mut net).unwrap(), None);
}

#[test]
fn genuine_os_error_terminates_the_accept_sequence() {
    let mut net = new_net();
    let lst = UnixListener::bind(&mut net, &path("/tmp/err")).unwrap();
    let id = lst.id;
    let inc = lst.incoming();
    net.set_pending_error(id, SockError::Os(24));
    net.notify_read(id);
    assert_eq!(inc.poll(&mut net).unwrap_err(), SockError::Os(24));
    // The error was consumed with the failing accept.
    assert_eq!(net.sock_take_error(id).unwrap(), None);
}

#[test]
fn shutdown_write_breaks_the_pipe_and_shutdown_read_gives_eof() {
    let mut net = new_net();
    let (a, b) = UnixStream::pair(&mut net).unwrap();
    a.shutdown(&mut net, Shutdown::Write).unwrap();
    assert_eq!(a.write(&mut net, &path("x")).unwrap_err(), SockError::BrokenPipe);
    b.shutdown(&mut net, Shutdown::Read).unwrap();
    assert_eq!(b.read(&mut net, 8).unwrap(), Vec::<u8>::new());
    // The other directions still work until shut down too.
    assert_eq!(b.write(&mut net, &path("ok")).unwrap(), 2);
    assert_eq!(a.read(&mut net, 8).unwrap(), path("ok"));
    b.shutdown(&mut net, Shutdown::Both).unwrap();
    assert_eq!(b.write(&mut net, &path("x")).unwrap_err(), SockError::BrokenPipe);
}

#[test]
fn datagram_pair_round_trip_and_truncation() {
    let mut net = new_net();
    let (a, b) = UnixDatagram::pair(&mut net).unwrap();
    assert_eq!(a.send(&mut net, &path("abcde")).unwrap(), 5);
    // Datagram semantics: a short receive truncates, the rest is discarded.
    assert_eq!(b.recv(&mut net, 3).unwrap(), path("abc"));
    assert_eq!(b.recv(&mut net, 8).unwrap_err(), SockError::WouldBlock);
    // The re-arm consumed read readiness; an edge restores it.
    assert_eq!(net.sock_poll_read(b.id), Async::NotReady);
    net.notify_read(b.id);
    assert_eq!(a.send(&mut net, &path("xy")).unwrap(), 2);
    assert_eq!(b.recv(&mut net, 8).unwrap(), path("xy"));
}

#[test]
fn datagram_full_queue_would_block_rearms_write_interest() {
    let mut net = Net::new(16, 1);
    let (a, b) = UnixDatagram::pair(&mut net).unwrap();
    assert_eq!(a.send(&mut net, &path("one")).unwrap(), 3);
    // The queue is full: stale write readiness, re-armed before returning.
    let e = a.send(&mut net, &path("two")).unwrap_err();
    assert!(is_wouldblock::<usize>(&Err(e)));
    assert_eq!(net.sock_poll_write(a.id), Async::NotReady);
    // Until a fresh edge arrives, the readiness check fails fast.
    assert_eq!(a.send(&mut net, &path("two")).unwrap_err(), SockError::WouldBlock);
    // Drain, deliver the edge, and sending proceeds again.
    assert_eq!(b.recv(&mut net, 8).unwrap(), path("one"));
    net.notify_write(a.id);
    assert_eq!(a.send(&mut net, &path("two")).unwrap(), 3);
    assert_eq!(b.recv(&mut net, 8).unwrap(), path("two"));
}

#[test]
fn send_to_and_recv_from_carry_the_sender_address() {
    let mut net = new_net();
    let a = UnixDatagram::bind(&mut net, &path("/tmp/a")).unwrap();
    let b = UnixDatagram::bind(&mut net, &path("/tmp/b")).unwrap();
    assert_eq!(a.send_to(&mut net, &path("msg"), &path("/tmp/b")).unwrap(), 3);
    let (data, from) = b.recv_from(&mut net, 16).unwrap();
    assert_eq!(data, path("msg"));
    assert_eq!(from.as_pathname(), Some(&path("/tmp/a")));
    assert_eq!(
        a.send_to(&mut net, &path("msg"), &path("/tmp/nobody")).unwrap_err(),
        SockError::NotFound
    );
}

#[test]
fn a_connected_datagram_socket_refuses_third_parties() {
    let mut net = new_net();
    let a = UnixDatagram::bind(&mut net, &path("/tmp/pa")).unwrap();
    let b = UnixDatagram::bind(&mut net, &path("/tmp/pb")).unwrap();
    let c = UnixDatagram::bind(&mut net, &path("/tmp/pc")).unwrap();
    a.connect(&mut net, &path("/tmp/pb")).unwrap();
    b.connect(&mut net, &path("/tmp/pa")).unwrap();
    // A third party cannot deliver to a socket connected to someone else.
    assert_eq!(
        c.send_to(&mut net, &path("spam"), &path("/tmp/pa")).unwrap_err(),
        SockError::ConnectionRefused
    );
    assert_eq!(a.send(&mut net, &path("hi")).unwrap(), 2);
    assert_eq!(b.recv(&mut net, 8).unwrap(), path("hi"));
    assert_eq!(b.peer_addr(&net).unwrap().as_pathname(), Some(&path("/tmp/pa")));
}

#[test]
fn spurious_datagram_read_readiness_rearms() {
    let mut net = new_net();
    let (a, _b) = UnixDatagram::pair(&mut net).unwrap();
    // Readiness signalled with an empty queue: the receive observes the
    // mismatch, re-arms, and reports would-block.
    net.notify_read(a.id);
    assert_eq!(a.recv(&mut net, 8).unwrap_err(), SockError::WouldBlock);
    assert_eq!(net.sock_poll_read(a.id), Async::NotReady);
}

#[test]
fn stream_reads_see_eof_after_peer_shuts_down_writing() {
    let mut net = new_net();
    let (a, b) = UnixStream::pair(&mut net).unwrap();
    assert_eq!(a.write(&mut net, &path("tail")).unwrap(), 4);
    a.shutdown(&mut net, Shutdown::Write).unwrap();
    // Buffered bytes drain first, then end-of-stream, never an error.
    assert_eq!(b.read(&mut net, 16).unwrap(), path("tail"));
    assert_eq!(b.read(&mut net, 16).unwrap(), Vec::<u8>::new());
}

#[test]
fn accepts_come_in_connection_order() {
    let mut net = new_net();
    let lst = UnixListener::bind(&mut net, &path("/tmp/fifo")).unwrap();
    let id = lst.id;
    let inc = lst.incoming();
    let c1 = UnixStream::connect(&mut net, &path("/tmp/fifo")).unwrap();
    let c2 = UnixStream::connect(&mut net, &path("/tmp/fifo")).unwrap();
    c1.write(&mut net, &path("first")).unwrap();
    c2.write(&mut net, &path("second")).unwrap();
    net.notify_read(id);
    let s1 = match inc.poll(&mut net).unwrap() {
        AcceptOutcome::Ready(s, _) => s,
        AcceptOutcome::NotReady => panic!("first connection not yielded"),
    };
    let s2 = match inc.poll(&mut net).unwrap() {
        AcceptOutcome::Ready(s, _) => s,
        AcceptOutcome::NotReady => panic!("second connection not yielded"),
    };
    assert_eq!(s1.read(&mut net, 16).unwrap(), path("first"));
    assert_eq!(s2.read(&mut net, 16).unwrap(), path("second"));
}

#[test]
fn bound_sockets_report_their_addresses() {
    let mut net = new_net();
    let lst = UnixListener::bind(&mut net, &path("/tmp/named")).unwrap();
    assert_eq!(
        lst.local_addr(&net).unwrap().as_pathname(),
        Some(&path("/tmp/named"))
    );
    assert_eq!(lst.poll_read(&net), Async::Ready);
    let d = UnixDatagram::bind(&mut net, &path("/tmp/dgn")).unwrap();
    assert_eq!(d.local_addr(&net).unwrap().as_pathname(), Some(&path("/tmp/dgn")));
    assert_eq!(d.poll_read(&net), Async::Ready);
    assert_eq!(d.poll_write(&net), Async::Ready);
    assert_eq!(d.peer_addr(&net).unwrap_err(), SockError::NotConnected);
    let (a, _b) = UnixStream::pair(&mut net).unwrap();
    assert!(a.flush().is_ok());
    a.close(&mut net);
    assert_eq!(a.local_addr(&net).unwrap_err(), SockError::Closed);
}

#[test]
fn is_wouldblock_distinguishes_the_suspension_signal() {
    assert!(is_wouldblock::<usize>(&Err(SockError::WouldBlock)));
    assert!(!is_wouldblock::<usize>(&Err(SockError::NotConnected)));
    assert!(!is_wouldblock::<usize>(&Err(SockError::Os(11))));
    assert!(!is_wouldblock(&Ok(7usize)));
}

#[test]
fn polls_are_pure_and_rearms_are_idempotent() {
    let mut net = new_net();
    let (a, _b) = UnixStream::pair(&mut net).unwrap();
    assert_eq!(a.poll_read(&net), Async::Ready);
    assert_eq!(a.poll_read(&net), Async::Ready);
    a.need_read(&mut net);
    a.need_read(&mut net);
    assert_eq!(a.poll_read(&net), Async::NotReady);
    assert_eq!(a.poll_write(&net), Async::Ready);
    a.need_write(&mut net);
    a.need_write(&mut net);
    assert_eq!(a.poll_write(&net), Async::NotReady);
    net.notify_read(a.id);
    net.notify_write(a.id);
    assert_eq!(a.poll_read(&net), Async::Ready);
    assert_eq!(a.poll_write(&net), Async::Ready);
}
