use libzt::addr::addr_to_sockaddr;
use libzt::addr::Ipv4Octets;
use libzt::addr::NetworkAddress;
use libzt::errors::SocketError;
use libzt::socket::family_of;
use libzt::socket::shutdown_code;
use libzt::socket::Shutdown;
use libzt::socket::Socket;
use libzt::socket::ZTS_SHUT_RD;
use libzt::socket::ZTS_SHUT_RDWR;
use libzt::socket::ZTS_SHUT_WR;
use libzt::tcp::host_bytes;
use libzt::tcp::TcpListener;
use libzt::tcp::TcpListenerImpl;
use libzt::tcp::TcpStream;
use libzt::tcp::TcpStreamImpl;
use libzt::udp::UdpSocket;
use libzt::udp::UdpSocketImpl;
use libzt::utils::cvt;
use libzt::utils::cvt_r;
use libzt::utils::each_addr;

fn v4(o0: u8, o1: u8, o2: u8, o3: u8, port: u16) -> NetworkAddress {
    NetworkAddress::V4 { octets: Ipv4Octets { o0, o1, o2, o3 }, port }
}

const ZTS_EADDRINUSE: i32 = -98;

#[test]
fn socket_creation_checks_the_handle() {
    assert!(Socket::new(3).is_ok());
    assert_eq!(Socket::new(3).unwrap().as_inner(), 3);
    assert_eq!(Socket::new(-1).err(), Some(SocketError::SocketCreateError));
}

#[test]
fn family_dispatch() {
    assert_eq!(family_of(&v4(127, 0, 0, 1, 80)), 2);
    let a6 = NetworkAddress::V6 {
        octets: libzt::addr::Ipv6Octets {
            o0: 0, o1: 0, o2: 0, o3: 0, o4: 0, o5: 0, o6: 0, o7: 0,
            o8: 0, o9: 0, o10: 0, o11: 0, o12: 0, o13: 0, o14: 0, o15: 1,
        },
        port: 80,
        flow_info: 0,
        scope_id: 0,
    };
    assert_eq!(family_of(&a6), 10);
}

#[test]
fn second_bind_to_same_endpoint_fails_with_bind_error() {
    let addr = v4(10, 144, 0, 5, 9080);
    // first listener: engine grants everything
    let first = TcpListenerImpl::bind(&addr, 4, 0, 0);
    assert!(first.is_ok());
    assert_eq!(first.unwrap().inner.fd, 4);
    // second listener on the same address and port: the engine's bind step
    // reports address-in-use, which must surface as BindError
    let second = TcpListenerImpl::bind(&addr, 5, ZTS_EADDRINUSE, 0);
    assert_eq!(second.err(), Some(SocketError::BindError));
}

#[test]
fn bind_failure_keeps_no_partial_state() {
    let addr = v4(10, 144, 0, 5, 9080);
    assert_eq!(
        TcpListenerImpl::bind(&addr, -1, 0, 0).err(),
        Some(SocketError::SocketCreateError)
    );
    // listen step failing also discards the socket with BindError
    assert_eq!(TcpListenerImpl::bind(&addr, 6, 0, -1).err(), Some(SocketError::BindError));
}

#[test]
fn accept_returns_peer_with_nonzero_port() {
    let addr = v4(10, 144, 0, 5, 9080);
    let listener = TcpListenerImpl::bind(&addr, 4, 0, 0).unwrap();
    // the engine filled the peer's address at accept time
    let peer = v4(10, 144, 0, 99, 54321);
    let storage = addr_to_sockaddr(&peer);
    let (stream, observed) = listener.accept(7, &storage).unwrap();
    assert_eq!(stream.inner.fd, 7);
    assert_eq!(observed, peer);
    match observed {
        NetworkAddress::V4 { port, .. } => assert!(port != 0),
        _ => panic!("expected a v4 peer"),
    }
}

#[test]
fn accept_failure_surfaces_engine_code() {
    let addr = v4(10, 144, 0, 5, 9080);
    let listener = TcpListenerImpl::bind(&addr, 4, 0, 0).unwrap();
    let storage = addr_to_sockaddr(&addr);
    assert_eq!(
        listener.accept(-11, &storage).err(),
        Some(SocketError::IoError { code: -11 })
    );
}

#[test]
fn loopback_counts_pass_through_exactly() {
    let stream = TcpStreamImpl::connect(&v4(10, 144, 0, 5, 9080), 4, 0).unwrap();
    for n in [0usize, 1, 4096, 1_048_576] {
        assert_eq!(stream.write(n, n as i64), Ok(n));
        assert_eq!(stream.read(n, n as i64), Ok(n));
    }
}

#[test]
fn zero_length_write_neither_blocks_nor_errors() {
    let stream = TcpStreamImpl::connect(&v4(10, 144, 0, 5, 9080), 4, 0).unwrap();
    assert_eq!(stream.write(0, 0), Ok(0));
}

#[test]
fn shutdown_write_then_peer_reads_end_of_stream() {
    let mut a = TcpStreamImpl::connect(&v4(10, 144, 0, 5, 9080), 4, 0).unwrap();
    // one end shuts down its write direction
    assert_eq!(shutdown_code(Shutdown::Write), ZTS_SHUT_WR);
    assert!(a.read_open && a.write_open);
    assert_eq!(a.shutdown(Shutdown::Write, 0), Ok(()));
    assert!(a.read_open && !a.write_open);
    // the peer's subsequent read observes a zero-length count: clean
    // end-of-stream, not an error and not a hang
    let b = TcpStreamImpl::connect(&v4(10, 144, 0, 99, 54321), 5, 0).unwrap();
    assert_eq!(b.read(1024, 0), Ok(0));
}

#[test]
fn shutdown_code_mapping_is_exact() {
    assert_eq!(shutdown_code(Shutdown::Read), ZTS_SHUT_RD);
    assert_eq!(shutdown_code(Shutdown::Write), ZTS_SHUT_WR);
    assert_eq!(shutdown_code(Shutdown::Both), ZTS_SHUT_RDWR);
}

#[test]
fn second_shutdown_surfaces_engine_error() {
    let mut a = TcpStreamImpl::connect(&v4(10, 144, 0, 5, 9080), 4, 0).unwrap();
    assert_eq!(a.shutdown(Shutdown::Write, 0), Ok(()));
    assert_eq!(
        a.shutdown(Shutdown::Write, -57),
        Err(SocketError::IoError { code: -57 })
    );
    // the recorded state did not change on the failed call
    assert!(a.read_open && !a.write_open);
}

#[test]
fn shutdown_both_closes_the_stream() {
    let mut a = TcpStreamImpl::connect(&v4(10, 144, 0, 5, 9080), 4, 0).unwrap();
    assert_eq!(a.shutdown(Shutdown::Both, 0), Ok(()));
    assert!(!a.read_open && !a.write_open);
}

#[test]
fn connect_failure_maps_engine_code() {
    assert_eq!(
        TcpStreamImpl::connect(&v4(10, 144, 0, 5, 9080), -1, 0).err(),
        Some(SocketError::SocketCreateError)
    );
    assert_eq!(
        TcpStreamImpl::connect(&v4(10, 144, 0, 5, 9080), 4, -111).err(),
        Some(SocketError::IoError { code: -111 })
    );
}

#[test]
fn datagram_boundaries_are_preserved() {
    let sock = UdpSocketImpl::bind(&v4(10, 144, 0, 5, 5000), 4, 0).unwrap();
    let peer = v4(10, 144, 0, 99, 5001);
    // a single send of K bytes is one datagram of exactly K bytes
    for k in [0usize, 1, 512, 1400, 65000] {
        assert_eq!(sock.send_to(&peer, k, k as i64), Ok(k));
        let storage = addr_to_sockaddr(&peer);
        assert_eq!(sock.recv_from(k, k as i64, &storage), Ok((k, peer)));
    }
}

#[test]
fn udp_connect_fixes_the_peer() {
    let mut sock = UdpSocketImpl::bind(&v4(10, 144, 0, 5, 5000), 4, 0).unwrap();
    assert_eq!(sock.peer, None);
    let peer = v4(10, 144, 0, 99, 5001);
    // a failed engine connect changes nothing
    assert_eq!(
        sock.connect(&peer, -111),
        Err(SocketError::IoError { code: -111 })
    );
    assert_eq!(sock.peer, None);
    // a successful one fixes the default peer; send/recv become valid
    assert_eq!(sock.connect(&peer, 0), Ok(()));
    assert_eq!(sock.peer, Some(peer));
    assert_eq!(sock.send(128, 128), Ok(128));
    assert_eq!(sock.recv(128, 96), Ok(96));
}

#[test]
fn udp_bind_failures() {
    let addr = v4(10, 144, 0, 5, 5000);
    assert_eq!(
        UdpSocketImpl::bind(&addr, -1, 0).err(),
        Some(SocketError::SocketCreateError)
    );
    assert_eq!(
        UdpSocketImpl::bind(&addr, 4, ZTS_EADDRINUSE).err(),
        Some(SocketError::BindError)
    );
}

#[test]
fn status_mappings() {
    let s = Socket::new(4).unwrap();
    assert_eq!(s.take_error(0), None);
    assert_eq!(s.take_error(-104), Some(SocketError::IoError { code: -104 }));
    assert_eq!(s.nodelay(1), true);
    assert_eq!(s.nodelay(0), false);
    assert_eq!(s.set_nodelay(true, 0), Ok(()));
    assert_eq!(s.set_nodelay(true, -1), Err(SocketError::IoError { code: -1 }));
    // the engine takes "blocking": the flag is inverted exactly once, here
    assert_eq!(s.blocking_arg(true), 0);
    assert_eq!(s.blocking_arg(false), 1);
    assert_eq!(s.set_nonblocking(true, 0), Ok(()));
    assert!(!s.is_read_vectored());
    assert!(!s.is_write_vectored());
    // a negative transfer count carries the engine's code
    assert_eq!(s.read(16, -32), Err(SocketError::IoError { code: -32 }));
    assert_eq!(s.write(16, -32), Err(SocketError::IoError { code: -32 }));
    assert_eq!(s.peek(16, 7), Ok(7));
}

#[test]
fn each_addr_empty_is_unresolved() {
    let outcomes: Vec<Result<i32, SocketError>> = vec![];
    assert_eq!(each_addr(outcomes), Err(SocketError::UnresolvedAddressError));
}

#[test]
fn each_addr_first_success_wins() {
    let outcomes: Vec<Result<i32, SocketError>> = vec![
        Err(SocketError::IoError { code: -111 }),
        Ok(7),
        Ok(9),
    ];
    assert_eq!(each_addr(outcomes), Ok(7));
}

#[test]
fn each_addr_all_failures_reports_the_last() {
    let outcomes: Vec<Result<i32, SocketError>> = vec![
        Err(SocketError::IoError { code: -111 }),
        Err(SocketError::IoError { code: -113 }),
    ];
    assert_eq!(each_addr(outcomes), Err(SocketError::IoError { code: -113 }));
}

#[test]
fn stream_connect_over_candidates() {
    let candidates = vec![
        Err(SocketError::IoError { code: -111 }),
        TcpStreamImpl::connect(&v4(10, 144, 0, 5, 9080), 4, 0),
    ];
    let stream = TcpStream::connect(candidates).unwrap();
    assert_eq!(stream.0.inner.fd, 4);
    assert_eq!(
        TcpStream::connect(vec![]).err(),
        Some(SocketError::UnresolvedAddressError)
    );
}

#[test]
fn listener_bind_over_candidates() {
    let candidates = vec![TcpListenerImpl::bind(&v4(10, 144, 0, 5, 9080), 4, 0, 0)];
    let listener = TcpListener::bind(candidates).unwrap();
    assert_eq!(listener.0.inner.fd, 4);
}

#[test]
fn udp_bind_over_candidates() {
    let candidates = vec![UdpSocketImpl::bind(&v4(10, 144, 0, 5, 5000), 4, 0)];
    let sock = UdpSocket::bind(candidates).unwrap();
    assert_eq!(sock.0.inner.fd, 4);
}

#[test]
fn incoming_never_ends_on_its_own() {
    let candidates = vec![TcpListenerImpl::bind(&v4(10, 144, 0, 5, 9080), 4, 0, 0)];
    let listener = TcpListener::bind(candidates).unwrap();
    let incoming = listener.incoming();
    // a failed accept yields one Err item, not the end of the sequence
    let item = incoming.next(Err(SocketError::IoError { code: -11 }));
    assert!(matches!(item, Some(Err(SocketError::IoError { code: -11 }))));
    // a successful accept yields the stream
    let peer = v4(10, 144, 0, 99, 54321);
    let storage = addr_to_sockaddr(&peer);
    let accepted = listener.accept(7, &storage);
    let item = incoming.next(accepted);
    match item {
        Some(Ok(stream)) => assert_eq!(stream.0.inner.fd, 7),
        _ => panic!("expected an accepted stream"),
    }
}

#[test]
fn cvt_translates_the_sentinel() {
    assert_eq!(cvt(5i32, 13), Ok(5));
    assert_eq!(cvt(-1i32, 13), Err(SocketError::IoError { code: 13 }));
    assert_eq!(cvt(0i64, 13), Ok(0));
    assert_eq!(cvt(-1isize, 4), Err(SocketError::IoError { code: 4 }));
}

#[test]
fn cvt_r_retries_only_interruptions() {
    // a call that succeeds at once
    assert_eq!(cvt_r(|| (7i32, 0), 5), Ok(7));
    // a persistent failure other than interruption is final
    assert_eq!(cvt_r(|| (-1i32, 13), 5), Err(SocketError::IoError { code: 13 }));
    // persistent interruption exhausts the attempts and surfaces as such
    assert_eq!(cvt_r(|| (-1i32, 4), 3), Err(SocketError::IoError { code: 4 }));
}

#[test]
fn host_text_for_v4() {
    let addr = v4(192, 168, 1, 7, 9080);
    assert_eq!(host_bytes(&addr), b"192.168.1.7".to_vec());
    let addr = v4(0, 10, 100, 255, 1);
    assert_eq!(host_bytes(&addr), b"0.10.100.255".to_vec());
}

#[test]
fn host_text_for_v6() {
    let a6 = NetworkAddress::V6 {
        octets: libzt::addr::Ipv6Octets {
            o0: 0xfe, o1: 0x80, o2: 0, o3: 0, o4: 0, o5: 0x01, o6: 0, o7: 0x2f,
            o8: 0x12, o9: 0x34, o10: 0, o11: 0xab, o12: 0, o13: 0, o14: 0xde, o15: 0xf0,
        },
        port: 443,
        flow_info: 0,
        scope_id: 0,
    };
    assert_eq!(host_bytes(&a6), b"fe80:0:1:2f:1234:ab:0:def0".to_vec());
}
