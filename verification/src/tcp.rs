//! Connection-oriented sockets: a listener that binds, listens and accepts,
//! and a connected stream that reads and writes bytes with half-close
//! support.
//!
//! The engine's call surface is asymmetric: outbound connect and bind take
//! the host as text plus a numeric port, while inbound address discovery
//! fills a raw buffer that the codec decodes.  That asymmetry stays at the
//! engine boundary — callers see only [`NetworkAddress`], and this module
//! derives the engine's textual host form itself, exactly.

use vstd::prelude::*;

use crate::addr::NetworkAddress;
use crate::addr::RawAddressStorage;
use crate::addr::spec_sockaddr_to_addr;
use crate::addr::sockaddr_to_addr;
use crate::errors::SocketError;
use crate::options::TimeDuration;
use crate::options::Timeval;
use crate::options::spec_timeout_to_timeval;
use crate::options::spec_timeval_to_timeout;
use crate::options::spec_u32_le_option;
use crate::socket::Shutdown;
use crate::socket::Socket;
use crate::socket::spec_transfer_result;
use crate::utils::spec_all_err_before;
use crate::utils::each_addr;

verus! {

/// The fixed backlog handed to the engine's listen call.
pub const ZTS_DEFAULT_LISTEN_BACKLOG: i32 = 128;

/// ASCII code of the dot separating decimal IPv4 octets.
pub const ASCII_DOT: u8 = 0x2e;

/// ASCII code of the colon separating IPv6 groups.
pub const ASCII_COLON: u8 = 0x3a;

/// The ASCII digit for a value below ten.
pub open spec fn spec_dec_digit(n: u8) -> u8
    recommends
        n < 10,
{
    (n + 0x30) as u8
}

/// The shortest decimal ASCII form of an octet: one to three digits, no
/// leading zeros.
pub open spec fn spec_dec_u8(n: u8) -> Seq<u8> {
    if n < 10 {
        seq![spec_dec_digit(n)]
    } else if n < 100 {
        seq![spec_dec_digit((n / 10) as u8), spec_dec_digit((n % 10) as u8)]
    } else {
        seq![
            spec_dec_digit((n / 100) as u8),
            spec_dec_digit(((n / 10) % 10) as u8),
            spec_dec_digit((n % 10) as u8),
        ]
    }
}

/// The lowercase hexadecimal ASCII digit for a value below sixteen.
pub open spec fn spec_hex_digit(n: u16) -> u8
    recommends
        n < 16,
{
    if n < 10 {
        (n + 0x30) as u8
    } else {
        (n - 10 + 0x61) as u8
    }
}

/// The shortest lowercase hexadecimal ASCII form of a 16-bit group: one to
/// four digits, no leading zeros.
pub open spec fn spec_hex_u16(g: u16) -> Seq<u8> {
    if g < 0x10 {
        seq![spec_hex_digit(g)]
    } else if g < 0x100 {
        seq![spec_hex_digit(g / 16), spec_hex_digit(g % 16)]
    } else if g < 0x1000 {
        seq![spec_hex_digit(g / 256), spec_hex_digit((g / 16) % 16), spec_hex_digit(g % 16)]
    } else {
        seq![
            spec_hex_digit(g / 4096),
            spec_hex_digit((g / 256) % 16),
            spec_hex_digit((g / 16) % 16),
            spec_hex_digit(g % 16),
        ]
    }
}

/// The 16-bit IPv6 group formed by two adjacent octets, high octet first.
pub open spec fn spec_v6_group(hi: u8, lo: u8) -> u16 {
    ((hi as u16) * 256 + (lo as u16)) as u16
}

/// The textual host form the engine's connect and bind calls expect:
/// dotted decimal for IPv4; for IPv6 the eight colon-separated hexadecimal
/// groups, uncompressed, lowercase.
pub open spec fn spec_host_bytes(addr: NetworkAddress) -> Seq<u8> {
    match addr {
        NetworkAddress::V4 { octets, .. } => spec_dec_u8(octets.o0) + seq![ASCII_DOT] + spec_dec_u8(
            octets.o1,
        ) + seq![ASCII_DOT] + spec_dec_u8(octets.o2) + seq![ASCII_DOT] + spec_dec_u8(octets.o3),
        NetworkAddress::V6 { octets, .. } => spec_hex_u16(spec_v6_group(octets.o0, octets.o1))
            + seq![ASCII_COLON] + spec_hex_u16(spec_v6_group(octets.o2, octets.o3))
            + seq![ASCII_COLON] + spec_hex_u16(spec_v6_group(octets.o4, octets.o5))
            + seq![ASCII_COLON] + spec_hex_u16(spec_v6_group(octets.o6, octets.o7))
            + seq![ASCII_COLON] + spec_hex_u16(spec_v6_group(octets.o8, octets.o9))
            + seq![ASCII_COLON] + spec_hex_u16(spec_v6_group(octets.o10, octets.o11))
            + seq![ASCII_COLON] + spec_hex_u16(spec_v6_group(octets.o12, octets.o13))
            + seq![ASCII_COLON] + spec_hex_u16(spec_v6_group(octets.o14, octets.o15)),
    }
}

/// Appends the shortest decimal form of an octet.
fn push_dec_u8(out: &mut Vec<u8>, n: u8)
    ensures
        final(out)@ == old(out)@ + spec_dec_u8(n),
{
    if n >= 100 {
        out.push(n / 100 + 0x30);
        out.push((n / 10) % 10 + 0x30);
        out.push(n % 10 + 0x30);
    } else if n >= 10 {
        out.push(n / 10 + 0x30);
        out.push(n % 10 + 0x30);
    } else {
        out.push(n + 0x30);
    }
    proof {
        assert(final(out)@ =~= old(out)@ + spec_dec_u8(n));
    }
}

/// The lowercase hexadecimal digit for a value below sixteen.
fn hex_digit(n: u16) -> (r: u8)
    requires
        n < 16,
    ensures
        r == spec_hex_digit(n),
{
    if n < 10 {
        (n as u8) + 0x30
    } else {
        (n as u8) - 10 + 0x61
    }
}

/// Appends the shortest lowercase hexadecimal form of a 16-bit group.
fn push_hex_u16(out: &mut Vec<u8>, g: u16)
    ensures
        final(out)@ == old(out)@ + spec_hex_u16(g),
{
    if g >= 0x1000 {
        let d = hex_digit(g / 4096);
        out.push(d);
        let d = hex_digit((g / 256) % 16);
        out.push(d);
        let d = hex_digit((g / 16) % 16);
        out.push(d);
        let d = hex_digit(g % 16);
        out.push(d);
    } else if g >= 0x100 {
        let d = hex_digit(g / 256);
        out.push(d);
        let d = hex_digit((g / 16) % 16);
        out.push(d);
        let d = hex_digit(g % 16);
        out.push(d);
    } else if g >= 0x10 {
        let d = hex_digit(g / 16);
        out.push(d);
        let d = hex_digit(g % 16);
        out.push(d);
    } else {
        let d = hex_digit(g);
        out.push(d);
    }
    proof {
        assert(final(out)@ =~= old(out)@ + spec_hex_u16(g));
    }
}

/// Derives the textual host form of an address for the engine's connect
/// and bind calls; see [`spec_host_bytes`] for the exact text.
pub fn host_bytes(addr: &NetworkAddress) -> (r: Vec<u8>)
    ensures
        r@ == spec_host_bytes(*addr),
{
    let mut out: Vec<u8> = Vec::new();
    match addr {
        NetworkAddress::V4 { octets, .. } => {
            push_dec_u8(&mut out, octets.o0);
            out.push(ASCII_DOT);
            push_dec_u8(&mut out, octets.o1);
            out.push(ASCII_DOT);
            push_dec_u8(&mut out, octets.o2);
            out.push(ASCII_DOT);
            push_dec_u8(&mut out, octets.o3);
            proof {
                assert(out@ =~= spec_host_bytes(*addr));
            }
        },
        NetworkAddress::V6 { octets, .. } => {
            push_hex_u16(&mut out, ((octets.o0 as u16) * 256) + (octets.o1 as u16));
            out.push(ASCII_COLON);
            push_hex_u16(&mut out, ((octets.o2 as u16) * 256) + (octets.o3 as u16));
            out.push(ASCII_COLON);
            push_hex_u16(&mut out, ((octets.o4 as u16) * 256) + (octets.o5 as u16));
            out.push(ASCII_COLON);
            push_hex_u16(&mut out, ((octets.o6 as u16) * 256) + (octets.o7 as u16));
            out.push(ASCII_COLON);
            push_hex_u16(&mut out, ((octets.o8 as u16) * 256) + (octets.o9 as u16));
            out.push(ASCII_COLON);
            push_hex_u16(&mut out, ((octets.o10 as u16) * 256) + (octets.o11 as u16));
            out.push(ASCII_COLON);
            push_hex_u16(&mut out, ((octets.o12 as u16) * 256) + (octets.o13 as u16));
            out.push(ASCII_COLON);
            push_hex_u16(&mut out, ((octets.o14 as u16) * 256) + (octets.o15 as u16));
            proof {
                assert(out@ =~= spec_host_bytes(*addr));
            }
        },
    }
    out
}

/// A connected stream socket owning its engine handle; reads and writes
/// pass through the owned [`Socket`] primitive unchanged.  The stream
/// starts with both directions open and moves one way: to half-closed in
/// either direction, and to closed once both are shut.
pub struct TcpStreamImpl {
    pub inner: Socket,
    pub read_open: bool,
    pub write_open: bool,
}

/// The direction flags a stream holds after a successful shutdown of the
/// given direction; an already-closed direction stays closed.
pub open spec fn spec_after_shutdown(s: TcpStreamImpl, how: Shutdown) -> TcpStreamImpl {
    match how {
        Shutdown::Read => TcpStreamImpl { read_open: false, ..s },
        Shutdown::Write => TcpStreamImpl { write_open: false, ..s },
        Shutdown::Both => TcpStreamImpl { read_open: false, write_open: false, ..s },
    }
}

impl TcpStreamImpl {
    /// The owned socket holds a valid handle.
    pub open spec fn wf(&self) -> bool {
        self.inner.wf()
    }

    /// Both directions have been shut down.
    pub open spec fn spec_closed(&self) -> bool {
        !self.read_open && !self.write_open
    }

    /// Judges one connect attempt: the engine handle requested for the
    /// stream, then the connect call on it.  A failed handle is a creation
    /// failure; a failed connect surfaces the engine's code; on success the
    /// stream owns the fresh handle with both directions open.
    pub fn connect(addr: &NetworkAddress, fd: i32, connect_status: i32) -> (r: Result<
        TcpStreamImpl,
        SocketError,
    >)
        ensures
            fd < 0 ==> r == Err::<TcpStreamImpl, SocketError>(SocketError::SocketCreateError),
            fd >= 0 && connect_status < 0 ==> r == Err::<TcpStreamImpl, SocketError>(
                SocketError::IoError { code: connect_status },
            ),
            fd >= 0 && connect_status >= 0 ==> (r matches Ok(s) && s.inner.fd == fd && s.wf()
                && s.read_open && s.write_open),
    {
        let socket = match Socket::new(fd) {
            Ok(s) => s,
            Err(e) => {
                return Err(e);
            },
        };
        if connect_status < 0 {
            Err(SocketError::IoError { code: connect_status })
        } else {
            Ok(TcpStreamImpl { inner: socket, read_open: true, write_open: true })
        }
    }

    /// A shared borrow of the owned socket.
    pub fn socket(&self) -> (r: &Socket)
        ensures
            r == &self.inner,
    {
        &self.inner
    }

    /// Moves the owned socket out; the handle moves with it, exactly once.
    pub fn into_socket(self) -> (r: Socket)
        ensures
            r == self.inner,
    {
        self.inner
    }

    /// Serializes a read-timeout setting for the engine; see
    /// [`spec_timeout_to_timeval`].
    pub fn set_read_timeout(&self, dur: Option<TimeDuration>) -> (r: Result<Timeval, SocketError>)
        requires
            dur matches Some(d) ==> d.wf(),
        ensures
            r == spec_timeout_to_timeval(dur),
    {
        self.inner.set_timeout(dur, crate::socket::ZTS_SO_RCVTIMEO)
    }

    /// Serializes a write-timeout setting for the engine; see
    /// [`spec_timeout_to_timeval`].
    pub fn set_write_timeout(&self, dur: Option<TimeDuration>) -> (r: Result<Timeval, SocketError>)
        requires
            dur matches Some(d) ==> d.wf(),
        ensures
            r == spec_timeout_to_timeval(dur),
    {
        self.inner.set_timeout(dur, crate::socket::ZTS_SO_SNDTIMEO)
    }

    /// Reads the read-timeout setting back from the engine's pair; see
    /// [`spec_timeval_to_timeout`].
    pub fn read_timeout(&self, tv: Timeval) -> (r: Option<TimeDuration>)
        requires
            tv.wf(),
        ensures
            r == spec_timeval_to_timeout(tv),
    {
        self.inner.timeout(tv, crate::socket::ZTS_SO_RCVTIMEO)
    }

    /// Reads the write-timeout setting back from the engine's pair; see
    /// [`spec_timeval_to_timeout`].
    pub fn write_timeout(&self, tv: Timeval) -> (r: Option<TimeDuration>)
        requires
            tv.wf(),
        ensures
            r == spec_timeval_to_timeout(tv),
    {
        self.inner.timeout(tv, crate::socket::ZTS_SO_SNDTIMEO)
    }

    /// Judges an engine non-consuming receive on the stream.
    pub fn peek(&self, buf_len: usize, engine_ret: i64) -> (r: Result<usize, SocketError>)
        requires
            engine_ret <= buf_len as i64,
            engine_ret >= i32::MIN as i64,
        ensures
            r == spec_transfer_result(engine_ret),
    {
        self.inner.peek(buf_len, engine_ret)
    }

    /// Judges an engine receive on the stream; a count of zero means the
    /// peer reached end-of-stream.
    pub fn read(&self, buf_len: usize, engine_ret: i64) -> (r: Result<usize, SocketError>)
        requires
            engine_ret <= buf_len as i64,
            engine_ret >= i32::MIN as i64,
        ensures
            r == spec_transfer_result(engine_ret),
    {
        self.inner.read(buf_len, engine_ret)
    }

    /// Judges an engine send on the stream; the count actually taken may
    /// fall short of the buffer, and a write is not a flush.
    pub fn write(&self, buf_len: usize, engine_ret: i64) -> (r: Result<usize, SocketError>)
        requires
            engine_ret <= buf_len as i64,
            engine_ret >= i32::MIN as i64,
        ensures
            r == spec_transfer_result(engine_ret),
    {
        self.inner.write(buf_len, engine_ret)
    }

    /// Decodes the peer address the engine filled in at the name query.
    pub fn peer_addr(&self, storage: &RawAddressStorage) -> (r: Result<NetworkAddress, SocketError>)
        requires
            storage.wf(),
        ensures
            r == spec_sockaddr_to_addr(storage.bytes@, storage.len as int),
    {
        sockaddr_to_addr(storage)
    }

    /// Decodes the local address the engine filled in at the name query.
    pub fn socket_addr(&self, storage: &RawAddressStorage) -> (r: Result<
        NetworkAddress,
        SocketError,
    >)
        requires
            storage.wf(),
        ensures
            r == spec_sockaddr_to_addr(storage.bytes@, storage.len as int),
    {
        sockaddr_to_addr(storage)
    }

    /// Judges an engine shutdown of one or both stream directions: on
    /// success the direction is recorded closed and stays closed; on an
    /// engine failure the engine's code surfaces — a second shutdown of a
    /// closed direction is not made idempotent here — and the recorded
    /// state does not change.
    pub fn shutdown(&mut self, how: Shutdown, engine_status: i32) -> (r: Result<(), SocketError>)
        ensures
            engine_status == 0 ==> r == Ok::<(), SocketError>(()) && *final(self)
                == spec_after_shutdown(*old(self), how),
            engine_status != 0 ==> r == Err::<(), SocketError>(
                SocketError::IoError { code: engine_status },
            ) && *final(self) == *old(self),
    {
        let result = self.inner.shutdown(how, engine_status);
        if result.is_ok() {
            match how {
                Shutdown::Read => {
                    self.read_open = false;
                },
                Shutdown::Write => {
                    self.write_open = false;
                },
                Shutdown::Both => {
                    self.read_open = false;
                    self.write_open = false;
                },
            }
        }
        result
    }

    /// Judges an engine no-delay toggle on the stream.
    pub fn set_nodelay(&self, nodelay: bool, engine_status: i32) -> (r: Result<(), SocketError>)
        ensures
            engine_status == 0 ==> r == Ok::<(), SocketError>(()),
            engine_status != 0 ==> r == Err::<(), SocketError>(
                SocketError::IoError { code: engine_status },
            ),
    {
        self.inner.set_nodelay(nodelay, engine_status)
    }

    /// Reads the no-delay flag out of the engine's answer.
    pub fn nodelay(&self, engine_ret: i32) -> (r: bool)
        ensures
            r == (engine_ret != 0),
    {
        self.inner.nodelay(engine_ret)
    }

    /// Judges an engine set of the time-to-live option.
    pub fn set_ttl(&self, ttl: u32, engine_status: i32) -> (r: Result<(), SocketError>)
        ensures
            engine_status < 0 ==> r == Err::<(), SocketError>(SocketError::OptionError),
            engine_status >= 0 ==> r == Ok::<(), SocketError>(()),
    {
        if engine_status < 0 {
            Err(SocketError::OptionError)
        } else {
            Ok(())
        }
    }

    /// Reads the time-to-live value out of the integer option payload the
    /// engine returned; a rejected call or a mis-sized payload is an
    /// `OptionError`.
    pub fn ttl(&self, payload: &Vec<u8>, engine_status: i32) -> (r: Result<u32, SocketError>)
        ensures
            r == spec_u32_le_option(payload@, engine_status),
    {
        crate::options::read_u32_option(payload, engine_status)
    }

    /// Reads the pending socket error the engine reported.
    pub fn take_error(&self, engine_ret: i32) -> (r: Option<SocketError>)
        ensures
            engine_ret == 0 ==> r == None::<SocketError>,
            engine_ret != 0 ==> r == Some(SocketError::IoError { code: engine_ret }),
    {
        self.inner.take_error(engine_ret)
    }

    /// Judges an engine blocking-mode change on the stream.
    pub fn set_nonblocking(&self, nonblocking: bool, engine_status: i32) -> (r: Result<
        (),
        SocketError,
    >)
        ensures
            engine_status == 0 ==> r == Ok::<(), SocketError>(()),
            engine_status != 0 ==> r == Err::<(), SocketError>(
                SocketError::IoError { code: engine_status },
            ),
    {
        self.inner.set_nonblocking(nonblocking, engine_status)
    }
}

/// The public stream socket handed to applications.
pub struct TcpStream(pub TcpStreamImpl);

impl TcpStream {
    /// The owned implementation is well formed.
    pub open spec fn wf(&self) -> bool {
        self.0.wf()
    }

    /// Picks the outcome of connecting to each resolved candidate endpoint
    /// in order: the first success wins, a failure of every candidate
    /// reports the last failure, and an empty candidate list reports
    /// `UnresolvedAddressError`.
    pub fn connect(outcomes: Vec<Result<TcpStreamImpl, SocketError>>) -> (r: Result<
        TcpStream,
        SocketError,
    >)
        ensures
            outcomes@.len() == 0 ==> r == Err::<TcpStream, SocketError>(
                SocketError::UnresolvedAddressError,
            ),
            r matches Ok(s) ==> exists|i: int|
                0 <= i < outcomes@.len() && outcomes@[i] == Ok::<TcpStreamImpl, SocketError>(s.0)
                    && spec_all_err_before(outcomes@, i),
            (exists|i: int| 0 <= i < outcomes@.len() && outcomes@[i] is Ok) ==> r is Ok,
            spec_all_err_before(outcomes@, outcomes@.len() as int) && outcomes@.len() > 0 ==> (
            outcomes@[outcomes@.len() - 1] matches Err(e) && r == Err::<TcpStream, SocketError>(e)),
    {
        match each_addr(outcomes) {
            Ok(s) => Ok(TcpStream(s)),
            Err(e) => Err(e),
        }
    }

    /// Decodes the peer address the engine filled in at the name query.
    pub fn peer_addr(&self, storage: &RawAddressStorage) -> (r: Result<NetworkAddress, SocketError>)
        requires
            storage.wf(),
        ensures
            r == spec_sockaddr_to_addr(storage.bytes@, storage.len as int),
    {
        self.0.peer_addr(storage)
    }

    /// Decodes the local address the engine filled in at the name query.
    pub fn local_addr(&self, storage: &RawAddressStorage) -> (r: Result<
        NetworkAddress,
        SocketError,
    >)
        requires
            storage.wf(),
        ensures
            r == spec_sockaddr_to_addr(storage.bytes@, storage.len as int),
    {
        self.0.socket_addr(storage)
    }

    /// Judges an engine shutdown of one or both stream directions,
    /// recording the closed direction as [`TcpStreamImpl::shutdown`] does.
    pub fn shutdown(&mut self, how: Shutdown, engine_status: i32) -> (r: Result<(), SocketError>)
        ensures
            engine_status == 0 ==> r == Ok::<(), SocketError>(()) && final(self).0
                == spec_after_shutdown(old(self).0, how),
            engine_status != 0 ==> r == Err::<(), SocketError>(
                SocketError::IoError { code: engine_status },
            ) && *final(self) == *old(self),
    {
        self.0.shutdown(how, engine_status)
    }

    /// Serializes a read-timeout setting for the engine.
    pub fn set_read_timeout(&self, dur: Option<TimeDuration>) -> (r: Result<Timeval, SocketError>)
        requires
            dur matches Some(d) ==> d.wf(),
        ensures
            r == spec_timeout_to_timeval(dur),
    {
        self.0.set_read_timeout(dur)
    }

    /// Serializes a write-timeout setting for the engine.
    pub fn set_write_timeout(&self, dur: Option<TimeDuration>) -> (r: Result<Timeval, SocketError>)
        requires
            dur matches Some(d) ==> d.wf(),
        ensures
            r == spec_timeout_to_timeval(dur),
    {
        self.0.set_write_timeout(dur)
    }

    /// Reads the read-timeout setting back from the engine's pair.
    pub fn read_timeout(&self, tv: Timeval) -> (r: Option<TimeDuration>)
        requires
            tv.wf(),
        ensures
            r == spec_timeval_to_timeout(tv),
    {
        self.0.read_timeout(tv)
    }

    /// Reads the write-timeout setting back from the engine's pair.
    pub fn write_timeout(&self, tv: Timeval) -> (r: Option<TimeDuration>)
        requires
            tv.wf(),
        ensures
            r == spec_timeval_to_timeout(tv),
    {
        self.0.write_timeout(tv)
    }

    /// Judges an engine non-consuming receive on the stream.
    pub fn peek(&self, buf_len: usize, engine_ret: i64) -> (r: Result<usize, SocketError>)
        requires
            engine_ret <= buf_len as i64,
            engine_ret >= i32::MIN as i64,
        ensures
            r == spec_transfer_result(engine_ret),
    {
        self.0.peek(buf_len, engine_ret)
    }

    /// Judges an engine receive on the stream; a count of zero means the
    /// peer reached end-of-stream.
    pub fn read(&self, buf_len: usize, engine_ret: i64) -> (r: Result<usize, SocketError>)
        requires
            engine_ret <= buf_len as i64,
            engine_ret >= i32::MIN as i64,
        ensures
            r == spec_transfer_result(engine_ret),
    {
        self.0.read(buf_len, engine_ret)
    }

    /// Judges an engine send on the stream.
    pub fn write(&self, buf_len: usize, engine_ret: i64) -> (r: Result<usize, SocketError>)
        requires
            engine_ret <= buf_len as i64,
            engine_ret >= i32::MIN as i64,
        ensures
            r == spec_transfer_result(engine_ret),
    {
        self.0.write(buf_len, engine_ret)
    }

    /// Judges an engine no-delay toggle on the stream.
    pub fn set_nodelay(&self, nodelay: bool, engine_status: i32) -> (r: Result<(), SocketError>)
        ensures
            engine_status == 0 ==> r == Ok::<(), SocketError>(()),
            engine_status != 0 ==> r == Err::<(), SocketError>(
                SocketError::IoError { code: engine_status },
            ),
    {
        self.0.set_nodelay(nodelay, engine_status)
    }

    /// Reads the no-delay flag out of the engine's answer.
    pub fn nodelay(&self, engine_ret: i32) -> (r: bool)
        ensures
            r == (engine_ret != 0),
    {
        self.0.nodelay(engine_ret)
    }

    /// Judges an engine set of the time-to-live option.
    pub fn set_ttl(&self, ttl: u32, engine_status: i32) -> (r: Result<(), SocketError>)
        ensures
            engine_status < 0 ==> r == Err::<(), SocketError>(SocketError::OptionError),
            engine_status >= 0 ==> r == Ok::<(), SocketError>(()),
    {
        self.0.set_ttl(ttl, engine_status)
    }

    /// Reads the time-to-live value out of the engine's payload.
    pub fn ttl(&self, payload: &Vec<u8>, engine_status: i32) -> (r: Result<u32, SocketError>)
        ensures
            r == spec_u32_le_option(payload@, engine_status),
    {
        self.0.ttl(payload, engine_status)
    }

    /// Reads the pending socket error the engine reported.
    pub fn take_error(&self, engine_ret: i32) -> (r: Option<SocketError>)
        ensures
            engine_ret == 0 ==> r == None::<SocketError>,
            engine_ret != 0 ==> r == Some(SocketError::IoError { code: engine_ret }),
    {
        self.0.take_error(engine_ret)
    }

    /// Judges an engine blocking-mode change on the stream.
    pub fn set_nonblocking(&self, nonblocking: bool, engine_status: i32) -> (r: Result<
        (),
        SocketError,
    >)
        ensures
            engine_status == 0 ==> r == Ok::<(), SocketError>(()),
            engine_status != 0 ==> r == Err::<(), SocketError>(
                SocketError::IoError { code: engine_status },
            ),
    {
        self.0.set_nonblocking(nonblocking, engine_status)
    }
}

/// A listening socket owning its engine handle; accepted connections come
/// back as fresh [`TcpStreamImpl`] values with their own handles.
pub struct TcpListenerImpl {
    pub inner: Socket,
}

impl TcpListenerImpl {
    /// The owned socket holds a valid handle.
    pub open spec fn wf(&self) -> bool {
        self.inner.wf()
    }

    /// Judges the engine's bind sequence: handle creation, then bind, then
    /// listen with the fixed backlog.  A failed handle is a creation
    /// failure; a failed bind or listen step is a `BindError`; no partial
    /// state is kept on failure — the socket is discarded with the error.
    pub fn bind(addr: &NetworkAddress, fd: i32, bind_status: i32, listen_status: i32) -> (r: Result<
        TcpListenerImpl,
        SocketError,
    >)
        ensures
            fd < 0 ==> r == Err::<TcpListenerImpl, SocketError>(SocketError::SocketCreateError),
            fd >= 0 && bind_status < 0 ==> r == Err::<TcpListenerImpl, SocketError>(
                SocketError::BindError,
            ),
            fd >= 0 && bind_status >= 0 && listen_status < 0 ==> r == Err::<
                TcpListenerImpl,
                SocketError,
            >(SocketError::BindError),
            fd >= 0 && bind_status >= 0 && listen_status >= 0 ==> (r matches Ok(l) && l.inner.fd
                == fd && l.wf()),
    {
        let socket = match Socket::new(fd) {
            Ok(s) => s,
            Err(e) => {
                return Err(e);
            },
        };
        if bind_status < 0 {
            Err(SocketError::BindError)
        } else if listen_status < 0 {
            Err(SocketError::BindError)
        } else {
            Ok(TcpListenerImpl { inner: socket })
        }
    }

    /// Judges one engine accept: the fresh handle becomes a connected
    /// stream owning it, and the peer address is decoded from the raw
    /// buffer the engine filled at accept time.
    pub fn accept(&self, fd: i32, storage: &RawAddressStorage) -> (r: Result<
        (TcpStreamImpl, NetworkAddress),
        SocketError,
    >)
        requires
            storage.wf(),
        ensures
            fd < 0 ==> r == Err::<(TcpStreamImpl, NetworkAddress), SocketError>(
                SocketError::IoError { code: fd },
            ),
            fd >= 0 ==> r == (match spec_sockaddr_to_addr(storage.bytes@, storage.len as int) {
                Ok(addr) => Ok((TcpStreamImpl { inner: Socket { fd }, read_open: true, write_open: true }, addr)),
                Err(e) => Err(e),
            }),
    {
        let socket = match self.inner.accept(fd) {
            Ok(s) => s,
            Err(e) => {
                return Err(e);
            },
        };
        match sockaddr_to_addr(storage) {
            Ok(addr) => Ok((TcpStreamImpl { inner: socket, read_open: true, write_open: true }, addr)),
            Err(e) => Err(e),
        }
    }

    /// A shared borrow of the owned socket.
    pub fn socket(&self) -> (r: &Socket)
        ensures
            r == &self.inner,
    {
        &self.inner
    }

    /// Moves the owned socket out; the handle moves with it, exactly once.
    pub fn into_socket(self) -> (r: Socket)
        ensures
            r == self.inner,
    {
        self.inner
    }

    /// Decodes the local address the engine filled in at the name query.
    pub fn socket_addr(&self, storage: &RawAddressStorage) -> (r: Result<
        NetworkAddress,
        SocketError,
    >)
        requires
            storage.wf(),
        ensures
            r == spec_sockaddr_to_addr(storage.bytes@, storage.len as int),
    {
        sockaddr_to_addr(storage)
    }

    /// Judges an engine set of the time-to-live option.
    pub fn set_ttl(&self, ttl: u32, engine_status: i32) -> (r: Result<(), SocketError>)
        ensures
            engine_status < 0 ==> r == Err::<(), SocketError>(SocketError::OptionError),
            engine_status >= 0 ==> r == Ok::<(), SocketError>(()),
    {
        if engine_status < 0 {
            Err(SocketError::OptionError)
        } else {
            Ok(())
        }
    }

    /// Reads the time-to-live value out of the engine's payload.
    pub fn ttl(&self, payload: &Vec<u8>, engine_status: i32) -> (r: Result<u32, SocketError>)
        ensures
            r == spec_u32_le_option(payload@, engine_status),
    {
        crate::options::read_u32_option(payload, engine_status)
    }

    /// Judges an engine set of the IPv6-only option.
    pub fn set_only_v6(&self, only_v6: bool, engine_status: i32) -> (r: Result<(), SocketError>)
        ensures
            engine_status < 0 ==> r == Err::<(), SocketError>(SocketError::OptionError),
            engine_status >= 0 ==> r == Ok::<(), SocketError>(()),
    {
        if engine_status < 0 {
            Err(SocketError::OptionError)
        } else {
            Ok(())
        }
    }

    /// Reads the IPv6-only flag out of the integer option payload the
    /// engine returned: any non-zero value means the flag is set.
    pub fn only_v6(&self, payload: &Vec<u8>, engine_status: i32) -> (r: Result<bool, SocketError>)
        ensures
            r == (match spec_u32_le_option(payload@, engine_status) {
                Ok(v) => Ok::<bool, SocketError>(v != 0),
                Err(e) => Err::<bool, SocketError>(e),
            }),
    {
        match crate::options::read_u32_option(payload, engine_status) {
            Ok(v) => Ok(v != 0),
            Err(e) => Err(e),
        }
    }

    /// Reads the pending socket error the engine reported.
    pub fn take_error(&self, engine_ret: i32) -> (r: Option<SocketError>)
        ensures
            engine_ret == 0 ==> r == None::<SocketError>,
            engine_ret != 0 ==> r == Some(SocketError::IoError { code: engine_ret }),
    {
        self.inner.take_error(engine_ret)
    }

    /// Judges an engine blocking-mode change on the listener.
    pub fn set_nonblocking(&self, nonblocking: bool, engine_status: i32) -> (r: Result<
        (),
        SocketError,
    >)
        ensures
            engine_status == 0 ==> r == Ok::<(), SocketError>(()),
            engine_status != 0 ==> r == Err::<(), SocketError>(
                SocketError::IoError { code: engine_status },
            ),
    {
        self.inner.set_nonblocking(nonblocking, engine_status)
    }
}

/// The public listening socket handed to applications.
pub struct TcpListener(pub TcpListenerImpl);

impl TcpListener {
    /// The owned implementation is well formed.
    pub open spec fn wf(&self) -> bool {
        self.0.wf()
    }

    /// Picks the outcome of binding each resolved candidate endpoint in
    /// order, exactly as [`TcpStream::connect`] does for connecting.
    pub fn bind(outcomes: Vec<Result<TcpListenerImpl, SocketError>>) -> (r: Result<
        TcpListener,
        SocketError,
    >)
        ensures
            outcomes@.len() == 0 ==> r == Err::<TcpListener, SocketError>(
                SocketError::UnresolvedAddressError,
            ),
            r matches Ok(l) ==> exists|i: int|
                0 <= i < outcomes@.len() && outcomes@[i] == Ok::<TcpListenerImpl, SocketError>(l.0)
                    && spec_all_err_before(outcomes@, i),
            (exists|i: int| 0 <= i < outcomes@.len() && outcomes@[i] is Ok) ==> r is Ok,
            spec_all_err_before(outcomes@, outcomes@.len() as int) && outcomes@.len() > 0 ==> (
            outcomes@[outcomes@.len() - 1] matches Err(e) && r == Err::<TcpListener, SocketError>(
                e,
            )),
    {
        match each_addr(outcomes) {
            Ok(l) => Ok(TcpListener(l)),
            Err(e) => Err(e),
        }
    }

    /// The lazy view of this listener's accepted connections.
    pub fn incoming(&self) -> (r: Incoming)
        ensures
            r.listener == self,
    {
        Incoming { listener: self }
    }

    /// Judges one engine accept, wrapping the stream for applications.
    pub fn accept(&self, fd: i32, storage: &RawAddressStorage) -> (r: Result<
        (TcpStream, NetworkAddress),
        SocketError,
    >)
        requires
            storage.wf(),
        ensures
            fd < 0 ==> r == Err::<(TcpStream, NetworkAddress), SocketError>(
                SocketError::IoError { code: fd },
            ),
            fd >= 0 ==> r == (match spec_sockaddr_to_addr(storage.bytes@, storage.len as int) {
                Ok(addr) => Ok((TcpStream(TcpStreamImpl { inner: Socket { fd }, read_open: true, write_open: true }), addr)),
                Err(e) => Err(e),
            }),
    {
        match self.0.accept(fd, storage) {
            Ok((s, addr)) => Ok((TcpStream(s), addr)),
            Err(e) => Err(e),
        }
    }

    /// Decodes the local address the engine filled in at the name query.
    pub fn local_addr(&self, storage: &RawAddressStorage) -> (r: Result<
        NetworkAddress,
        SocketError,
    >)
        requires
            storage.wf(),
        ensures
            r == spec_sockaddr_to_addr(storage.bytes@, storage.len as int),
    {
        self.0.socket_addr(storage)
    }

    /// Judges an engine set of the time-to-live option.
    pub fn set_ttl(&self, ttl: u32, engine_status: i32) -> (r: Result<(), SocketError>)
        ensures
            engine_status < 0 ==> r == Err::<(), SocketError>(SocketError::OptionError),
            engine_status >= 0 ==> r == Ok::<(), SocketError>(()),
    {
        self.0.set_ttl(ttl, engine_status)
    }

    /// Reads the time-to-live value out of the engine's payload.
    pub fn ttl(&self, payload: &Vec<u8>, engine_status: i32) -> (r: Result<u32, SocketError>)
        ensures
            r == spec_u32_le_option(payload@, engine_status),
    {
        self.0.ttl(payload, engine_status)
    }

    /// Reads the pending socket error the engine reported.
    pub fn take_error(&self, engine_ret: i32) -> (r: Option<SocketError>)
        ensures
            engine_ret == 0 ==> r == None::<SocketError>,
            engine_ret != 0 ==> r == Some(SocketError::IoError { code: engine_ret }),
    {
        self.0.take_error(engine_ret)
    }

    /// Judges an engine blocking-mode change on the listener.
    pub fn set_nonblocking(&self, nonblocking: bool, engine_status: i32) -> (r: Result<
        (),
        SocketError,
    >)
        ensures
            engine_status == 0 ==> r == Ok::<(), SocketError>(()),
            engine_status != 0 ==> r == Err::<(), SocketError>(
                SocketError::IoError { code: engine_status },
            ),
    {
        self.0.set_nonblocking(nonblocking, engine_status)
    }
}

impl crate::utils::AsInner<TcpStreamImpl> for TcpStream {
    fn as_inner(&self) -> &TcpStreamImpl {
        &self.0
    }
}

impl crate::utils::FromInner<TcpStreamImpl> for TcpStream {
    fn from_inner(inner: TcpStreamImpl) -> TcpStream {
        TcpStream(inner)
    }
}

impl crate::utils::IntoInner<TcpStreamImpl> for TcpStream {
    fn into_inner(self) -> TcpStreamImpl {
        self.0
    }
}

impl crate::utils::AsInner<TcpListenerImpl> for TcpListener {
    fn as_inner(&self) -> &TcpListenerImpl {
        &self.0
    }
}

impl crate::utils::FromInner<TcpListenerImpl> for TcpListener {
    fn from_inner(inner: TcpListenerImpl) -> TcpListener {
        TcpListener(inner)
    }
}

impl crate::utils::IntoInner<TcpListenerImpl> for TcpListener {
    fn into_inner(self) -> TcpListenerImpl {
        self.0
    }
}

/// The unbounded lazy sequence of a listener's accepted connections.
pub struct Incoming<'a> {
    pub listener: &'a TcpListener,
}

impl<'a> Incoming<'a> {
    /// Turns one accept outcome into the next item of the sequence.  The
    /// sequence never terminates on its own: a failed accept yields one
    /// `Err` item and the listener keeps being polled — it ends only when
    /// the owner drops the listener.
    pub fn next(&self, accept_outcome: Result<(TcpStream, NetworkAddress), SocketError>) -> (r:
        Option<Result<TcpStream, SocketError>>)
        ensures
            r matches Some(item) && item == (match accept_outcome {
                Ok((s, _)) => Ok::<TcpStream, SocketError>(s),
                Err(e) => Err::<TcpStream, SocketError>(e),
            }),
    {
        match accept_outcome {
            Ok((s, _)) => Some(Ok(s)),
            Err(e) => Some(Err(e)),
        }
    }
}

} // verus!
