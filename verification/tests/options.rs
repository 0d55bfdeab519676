use libzt::errors::SocketError;
use libzt::options::decode_int_option;
use libzt::options::encode_int_option;
use libzt::options::getsockopt;
use libzt::options::read_u32_option;
use libzt::options::setsockopt;
use libzt::options::timeout_to_timeval;
use libzt::options::timeval_to_timeout;
use libzt::options::TimeDuration;
use libzt::options::Timeval;
use libzt::socket::ZTS_SOL_SOCKET;
use libzt::socket::ZTS_SO_RCVTIMEO;

#[test]
fn timeout_1500ms_reads_back_exactly() {
    let d = TimeDuration::from_millis(1500);
    assert_eq!(d, TimeDuration { secs: 1, nanos: 500_000_000 });
    let tv = timeout_to_timeval(Some(d)).unwrap();
    assert_eq!(tv, Timeval { tv_sec: 1, tv_usec: 500_000 });
    let back = timeval_to_timeout(tv);
    assert_eq!(back, Some(TimeDuration { secs: 1, nanos: 500_000_000 }));
}

#[test]
fn no_timeout_reads_back_as_none() {
    let tv = timeout_to_timeval(None).unwrap();
    assert_eq!(tv, Timeval { tv_sec: 0, tv_usec: 0 });
    assert_eq!(timeval_to_timeout(tv), None);
}

#[test]
fn zero_timeout_is_rejected() {
    let d = TimeDuration::new(0, 0);
    assert_eq!(timeout_to_timeval(Some(d)), Err(SocketError::InvalidTimeout));
}

#[test]
fn sub_microsecond_timeout_is_coerced_up() {
    // 500 ns would serialize to (0, 0); it must become one microsecond,
    // not "no timeout".
    let d = TimeDuration::new(0, 500);
    let tv = timeout_to_timeval(Some(d)).unwrap();
    assert_eq!(tv, Timeval { tv_sec: 0, tv_usec: 1 });
    assert_eq!(timeval_to_timeout(tv), Some(TimeDuration { secs: 0, nanos: 1000 }));
}

#[test]
fn timeout_truncates_to_microseconds() {
    let d = TimeDuration::new(2, 123_456_789);
    let tv = timeout_to_timeval(Some(d)).unwrap();
    assert_eq!(tv, Timeval { tv_sec: 2, tv_usec: 123_456 });
    assert_eq!(timeval_to_timeout(tv), Some(TimeDuration { secs: 2, nanos: 123_456_000 }));
}

#[test]
fn int_option_round_trip() {
    for v in [0i32, 1, 64, -1, i32::MAX, i32::MIN] {
        let payload = encode_int_option(v);
        assert_eq!(payload.len(), 4);
        assert_eq!(decode_int_option(&payload), Ok(v));
    }
}

#[test]
fn int_option_payload_is_little_endian() {
    let payload = encode_int_option(0x0a0b0c0d);
    assert_eq!(payload, vec![0x0d, 0x0c, 0x0b, 0x0a]);
}

#[test]
fn int_option_size_mismatch_is_rejected() {
    let payload = vec![1u8, 2, 3];
    assert_eq!(decode_int_option(&payload), Err(SocketError::OptionError));
    let payload = vec![1u8, 2, 3, 4, 5];
    assert_eq!(decode_int_option(&payload), Err(SocketError::OptionError));
}

#[test]
fn setsockopt_reports_engine_rejection() {
    let payload = encode_int_option(1);
    assert_eq!(setsockopt(ZTS_SOL_SOCKET, ZTS_SO_RCVTIMEO, &payload, 0), Ok(()));
    assert_eq!(
        setsockopt(ZTS_SOL_SOCKET, ZTS_SO_RCVTIMEO, &payload, -22),
        Err(SocketError::OptionError)
    );
}

#[test]
fn getsockopt_never_partially_fills() {
    let payload = vec![1u8, 2, 3, 4];
    // size mismatch: the caller asked for 8 bytes
    assert_eq!(
        getsockopt(ZTS_SOL_SOCKET, ZTS_SO_RCVTIMEO, 8, payload.clone(), 0),
        Err(SocketError::OptionError)
    );
    // engine rejection
    assert_eq!(
        getsockopt(ZTS_SOL_SOCKET, ZTS_SO_RCVTIMEO, 4, payload.clone(), -1),
        Err(SocketError::OptionError)
    );
    // exact size passes the payload through whole
    assert_eq!(getsockopt(ZTS_SOL_SOCKET, ZTS_SO_RCVTIMEO, 4, payload.clone(), 0), Ok(payload));
}

#[test]
fn read_u32_option_outcomes() {
    let payload = vec![0x2au8, 0, 0, 0];
    assert_eq!(read_u32_option(&payload, 0), Ok(42));
    assert_eq!(read_u32_option(&payload, -1), Err(SocketError::OptionError));
    let short = vec![0x2au8, 0];
    assert_eq!(read_u32_option(&short, 0), Err(SocketError::OptionError));
}
