//! The socket primitive: exclusive owner of one native engine handle.
//!
//! Every higher-level socket type is built on this one.  The engine performs
//! the actual transfers; each method here is the decision half of one engine
//! call: it receives the integer outcome the engine produced and translates
//! it into the layer's typed result, exactly.  Interrupted calls are not
//! retried at this layer — that policy belongs to the caller.

use vstd::prelude::*;

use crate::addr::NetworkAddress;
use crate::addr::RawAddressStorage;
use crate::addr::spec_sockaddr_to_addr;
use crate::addr::sockaddr_to_addr;
use crate::errors::SocketError;
use crate::options::TimeDuration;
use crate::options::Timeval;
use crate::options::spec_timeout_to_timeval;
use crate::options::spec_timeval_to_timeout;
use crate::options::timeout_to_timeval;
use crate::options::timeval_to_timeout;

verus! {

/// The engine's identifier for the stream socket type.
pub const ZTS_SOCK_STREAM: i32 = 1;

/// The engine's identifier for the datagram socket type.
pub const ZTS_SOCK_DGRAM: i32 = 2;

/// The engine's shutdown mode closing the read direction.
pub const ZTS_SHUT_RD: i32 = 0;

/// The engine's shutdown mode closing the write direction.
pub const ZTS_SHUT_WR: i32 = 1;

/// The engine's shutdown mode closing both directions.
pub const ZTS_SHUT_RDWR: i32 = 2;

/// The engine's receive flag for non-consuming reads.
pub const ZTS_MSG_PEEK: i32 = 1;

/// The engine's option level for socket-level options.
pub const ZTS_SOL_SOCKET: i32 = 0xfff;

/// The engine's option name for the receive timeout.
pub const ZTS_SO_RCVTIMEO: i32 = 0x1006;

/// The engine's option name for the send timeout.
pub const ZTS_SO_SNDTIMEO: i32 = 0x1005;

/// The engine's option name for broadcast permission.
pub const ZTS_SO_BROADCAST: i32 = 0x20;

/// The engine's option level for IPv4-level options.
pub const ZTS_IPPROTO_IP: i32 = 0;

/// The engine's option level for IPv6-level options.
pub const ZTS_IPPROTO_IPV6: i32 = 41;

/// The engine's option name for the time-to-live value.
pub const ZTS_IP_TTL: i32 = 2;

/// The engine's option name restricting an IPv6 socket to IPv6 traffic.
pub const ZTS_IPV6_V6ONLY: i32 = 27;

/// The engine's address-family discriminant for a structured address:
/// the dispatch every socket creation performs.
pub fn family_of(addr: &NetworkAddress) -> (f: u8)
    ensures
        f == (if *addr is V4 {
            crate::addr::ZTS_AF_INET
        } else {
            crate::addr::ZTS_AF_INET6
        }),
{
    match addr {
        NetworkAddress::V4 { .. } => crate::addr::ZTS_AF_INET,
        NetworkAddress::V6 { .. } => crate::addr::ZTS_AF_INET6,
    }
}

/// Directions a connected socket can close; half-close keeps the other
/// direction usable.
#[derive(Clone, Copy, Debug, PartialEq, Eq, Structural)]
pub enum Shutdown {
    Read,
    Write,
    Both,
}

/// The engine's shutdown mode for each direction.
pub open spec fn spec_shutdown_code(how: Shutdown) -> i32 {
    match how {
        Shutdown::Read => ZTS_SHUT_RD,
        Shutdown::Write => ZTS_SHUT_WR,
        Shutdown::Both => ZTS_SHUT_RDWR,
    }
}

/// Maps a shutdown direction to the engine's mode constant.
pub fn shutdown_code(how: Shutdown) -> (r: i32)
    ensures
        r == spec_shutdown_code(how),
{
    match how {
        Shutdown::Read => ZTS_SHUT_RD,
        Shutdown::Write => ZTS_SHUT_WR,
        Shutdown::Both => ZTS_SHUT_RDWR,
    }
}

/// What judging an engine transfer count yields: a non-negative count
/// passes through unchanged — in particular a count of zero, which on a
/// stream read means end-of-stream — and a negative return becomes an
/// `IoError` carrying that code.
pub open spec fn spec_transfer_result(engine_ret: i64) -> Result<usize, SocketError> {
    if engine_ret >= 0 {
        Ok(engine_ret as usize)
    } else {
        Err(SocketError::IoError { code: engine_ret as i32 })
    }
}

/// Owns exactly one native socket handle.  The handle stays valid for the
/// owner's lifetime and is released exactly once, by whoever ends up owning
/// the socket; transferring a socket into a higher-level wrapper moves
/// ownership, never duplicates it.
pub struct Socket {
    pub fd: i32,
}

impl Socket {
    /// The owned handle is a valid engine identifier.
    pub open spec fn wf(&self) -> bool {
        self.fd >= 0
    }

    /// Judges the handle the engine produced for a new socket: a negative
    /// identifier is a creation failure, anything else becomes the owned
    /// handle.
    pub fn new(fd: i32) -> (r: Result<Socket, SocketError>)
        ensures
            fd < 0 ==> r == Err::<Socket, SocketError>(SocketError::SocketCreateError),
            fd >= 0 ==> (r matches Ok(s) && s.fd == fd && s.wf()),
    {
        if fd < 0 {
            Err(SocketError::SocketCreateError)
        } else {
            Ok(Socket { fd })
        }
    }

    /// The owned native handle.
    pub fn as_inner(&self) -> (r: i32)
        ensures
            r == self.fd,
    {
        self.fd
    }

    /// Judges the handle the engine produced for an accepted connection:
    /// the fresh handle becomes a new socket, owned separately from the
    /// accepting socket; a negative return is the engine's error code.
    pub fn accept(&self, fd: i32) -> (r: Result<Socket, SocketError>)
        ensures
            fd < 0 ==> r == Err::<Socket, SocketError>(SocketError::IoError { code: fd }),
            fd >= 0 ==> (r matches Ok(s) && s.fd == fd && s.wf()),
    {
        if fd < 0 {
            Err(SocketError::IoError { code: fd })
        } else {
            Ok(Socket { fd })
        }
    }

    /// Judges an engine receive: the byte count read into the caller's
    /// buffer, which can be zero at end-of-stream, or the engine's error
    /// code.  The engine never reports more than the buffer's length.
    pub fn read(&self, buf_len: usize, engine_ret: i64) -> (r: Result<usize, SocketError>)
        requires
            engine_ret <= buf_len as i64,
            engine_ret >= i32::MIN as i64,
        ensures
            r == spec_transfer_result(engine_ret),
            r matches Ok(n) ==> n <= buf_len,
    {
        if engine_ret >= 0 {
            Ok(engine_ret as usize)
        } else {
            Err(SocketError::IoError { code: engine_ret as i32 })
        }
    }

    /// Judges an engine non-consuming receive; the data stays queued in the
    /// engine, so the outcome is judged exactly as a read.
    pub fn peek(&self, buf_len: usize, engine_ret: i64) -> (r: Result<usize, SocketError>)
        requires
            engine_ret <= buf_len as i64,
            engine_ret >= i32::MIN as i64,
        ensures
            r == spec_transfer_result(engine_ret),
            r matches Ok(n) ==> n <= buf_len,
    {
        self.read(buf_len, engine_ret)
    }

    /// Judges an engine send: the byte count actually taken from the
    /// caller's buffer — a send need not take everything — or the engine's
    /// error code.
    pub fn write(&self, buf_len: usize, engine_ret: i64) -> (r: Result<usize, SocketError>)
        requires
            engine_ret <= buf_len as i64,
            engine_ret >= i32::MIN as i64,
        ensures
            r == spec_transfer_result(engine_ret),
            r matches Ok(n) ==> n <= buf_len,
    {
        if engine_ret >= 0 {
            Ok(engine_ret as usize)
        } else {
            Err(SocketError::IoError { code: engine_ret as i32 })
        }
    }

    /// Judges an engine receive that also filled a raw source address: the
    /// count is judged as a read, then the address is decoded; a datagram
    /// of K bytes arrives as one receive of exactly K bytes, never
    /// coalesced or split by this layer.
    pub fn recv_from(&self, buf_len: usize, engine_ret: i64, storage: &RawAddressStorage) -> (r:
        Result<(usize, NetworkAddress), SocketError>)
        requires
            engine_ret <= buf_len as i64,
            engine_ret >= i32::MIN as i64,
            storage.wf(),
        ensures
            engine_ret < 0 ==> r == Err::<(usize, NetworkAddress), SocketError>(
                SocketError::IoError { code: engine_ret as i32 },
            ),
            engine_ret >= 0 ==> r == (match spec_sockaddr_to_addr(
                storage.bytes@,
                storage.len as int,
            ) {
                Ok(addr) => Ok((engine_ret as usize, addr)),
                Err(e) => Err(e),
            }),
    {
        if engine_ret < 0 {
            Err(SocketError::IoError { code: engine_ret as i32 })
        } else {
            match sockaddr_to_addr(storage) {
                Ok(addr) => Ok((engine_ret as usize, addr)),
                Err(e) => Err(e),
            }
        }
    }

    /// Judges an engine non-consuming receive with a source address; same
    /// outcome as [`Socket::recv_from`], the datagram stays queued.
    pub fn peek_from(&self, buf_len: usize, engine_ret: i64, storage: &RawAddressStorage) -> (r:
        Result<(usize, NetworkAddress), SocketError>)
        requires
            engine_ret <= buf_len as i64,
            engine_ret >= i32::MIN as i64,
            storage.wf(),
        ensures
            engine_ret < 0 ==> r == Err::<(usize, NetworkAddress), SocketError>(
                SocketError::IoError { code: engine_ret as i32 },
            ),
            engine_ret >= 0 ==> r == (match spec_sockaddr_to_addr(
                storage.bytes@,
                storage.len as int,
            ) {
                Ok(addr) => Ok((engine_ret as usize, addr)),
                Err(e) => Err(e),
            }),
    {
        self.recv_from(buf_len, engine_ret, storage)
    }

    /// Serializes a timeout setting for the engine's receive- or
    /// send-timeout option; the caller hands the resulting pair to the
    /// engine.  An explicit zero duration is rejected with
    /// `InvalidTimeout`.
    pub fn set_timeout(&self, dur: Option<TimeDuration>, kind: i32) -> (r: Result<
        Timeval,
        SocketError,
    >)
        requires
            dur matches Some(d) ==> d.wf(),
        ensures
            r == spec_timeout_to_timeval(dur),
            r matches Ok(tv) ==> tv.wf(),
    {
        timeout_to_timeval(dur)
    }

    /// Reads a timeout setting back from the pair the engine returned for
    /// the receive- or send-timeout option; `(0, 0)` means no timeout.
    pub fn timeout(&self, tv: Timeval, kind: i32) -> (r: Option<TimeDuration>)
        requires
            tv.wf(),
        ensures
            r == spec_timeval_to_timeout(tv),
    {
        timeval_to_timeout(tv)
    }

    /// Judges an engine shutdown of the given direction: the engine
    /// returns zero on success and an error code otherwise.  A second
    /// shutdown of an already-closed direction surfaces whatever the
    /// engine returns; this layer does not make shutdown idempotent.
    pub fn shutdown(&self, how: Shutdown, engine_status: i32) -> (r: Result<(), SocketError>)
        ensures
            engine_status == 0 ==> r == Ok::<(), SocketError>(()),
            engine_status != 0 ==> r == Err::<(), SocketError>(
                SocketError::IoError { code: engine_status },
            ),
    {
        if engine_status == 0 {
            Ok(())
        } else {
            Err(SocketError::IoError { code: engine_status })
        }
    }

    /// Judges an engine no-delay toggle: zero is success, anything else is
    /// the engine's error code.
    pub fn set_nodelay(&self, nodelay: bool, engine_status: i32) -> (r: Result<(), SocketError>)
        ensures
            engine_status == 0 ==> r == Ok::<(), SocketError>(()),
            engine_status != 0 ==> r == Err::<(), SocketError>(
                SocketError::IoError { code: engine_status },
            ),
    {
        if engine_status == 0 {
            Ok(())
        } else {
            Err(SocketError::IoError { code: engine_status })
        }
    }

    /// Reads the no-delay flag out of the engine's answer: any non-zero
    /// value means the flag is set.
    pub fn nodelay(&self, engine_ret: i32) -> (r: bool)
        ensures
            r == (engine_ret != 0),
    {
        engine_ret != 0
    }

    /// The value the engine's blocking-mode call expects: the engine takes
    /// "blocking", the callers of this layer say "non-blocking", so the
    /// flag is inverted exactly here.
    pub fn blocking_arg(&self, nonblocking: bool) -> (r: i32)
        ensures
            r == (if nonblocking {
                0i32
            } else {
                1i32
            }),
    {
        if nonblocking {
            0
        } else {
            1
        }
    }

    /// Judges an engine blocking-mode change: zero is success, anything
    /// else is the engine's error code.
    pub fn set_nonblocking(&self, nonblocking: bool, engine_status: i32) -> (r: Result<
        (),
        SocketError,
    >)
        ensures
            engine_status == 0 ==> r == Ok::<(), SocketError>(()),
            engine_status != 0 ==> r == Err::<(), SocketError>(
                SocketError::IoError { code: engine_status },
            ),
    {
        if engine_status == 0 {
            Ok(())
        } else {
            Err(SocketError::IoError { code: engine_status })
        }
    }

    /// Reads the pending socket error the engine reported: zero means no
    /// error is pending, anything else is taken as the stored error code,
    /// which the engine clears on reading.
    pub fn take_error(&self, engine_ret: i32) -> (r: Option<SocketError>)
        ensures
            engine_ret == 0 ==> r == None::<SocketError>,
            engine_ret != 0 ==> r == Some(SocketError::IoError { code: engine_ret }),
    {
        if engine_ret == 0 {
            None
        } else {
            Some(SocketError::IoError { code: engine_ret })
        }
    }

    /// Vectored reads are not wired up to the engine.
    pub fn is_read_vectored(&self) -> (r: bool)
        ensures
            r == false,
    {
        false
    }

    /// Vectored writes are not wired up to the engine.
    pub fn is_write_vectored(&self) -> (r: bool)
        ensures
            r == false,
    {
        false
    }
}

} // verus!
