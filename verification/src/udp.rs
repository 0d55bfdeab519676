//! Connectionless datagram sockets.
//!
//! A datagram socket binds to a local address and exchanges individual
//! datagrams; an optional engine-level connect fixes a default peer so that
//! unaddressed send and receive become valid, filtering but not hard-locking
//! the socket to that peer.  Datagram boundaries are exactly as the engine
//! delivers them: this layer neither frames, coalesces nor splits them, and
//! it performs no retry or reassembly.

use vstd::prelude::*;

use crate::addr::NetworkAddress;
use crate::addr::RawAddressStorage;
use crate::addr::spec_sockaddr_to_addr;
use crate::addr::sockaddr_to_addr;
use crate::errors::SocketError;
use crate::options::TimeDuration;
use crate::options::Timeval;
use crate::options::spec_timeout_to_timeval;
use crate::options::spec_timeval_to_timeout;
use crate::options::spec_u32_le_option;
use crate::socket::Socket;
use crate::socket::spec_transfer_result;
use crate::utils::FromInner;
use crate::utils::spec_all_err_before;
use crate::utils::each_addr;

verus! {

/// A datagram socket owning its engine handle, with the default peer fixed
/// by the last successful connect, if any.
pub struct UdpSocketImpl {
    pub inner: Socket,
    pub peer: Option<NetworkAddress>,
}

impl UdpSocketImpl {
    /// The owned socket holds a valid handle.
    pub open spec fn wf(&self) -> bool {
        self.inner.wf()
    }

    /// A default peer has been fixed by connect.
    pub open spec fn spec_connected(&self) -> bool {
        self.peer is Some
    }

    /// Judges the engine's bind sequence for a datagram socket: handle
    /// creation, then bind; there is no listen step and the socket stays
    /// connectionless.  No partial state is kept on failure.
    pub fn bind(addr: &NetworkAddress, fd: i32, bind_status: i32) -> (r: Result<
        UdpSocketImpl,
        SocketError,
    >)
        ensures
            fd < 0 ==> r == Err::<UdpSocketImpl, SocketError>(SocketError::SocketCreateError),
            fd >= 0 && bind_status < 0 ==> r == Err::<UdpSocketImpl, SocketError>(
                SocketError::BindError,
            ),
            fd >= 0 && bind_status >= 0 ==> (r matches Ok(s) && s.inner.fd == fd && s.peer
                == None::<NetworkAddress> && s.wf()),
    {
        let socket = match Socket::new(fd) {
            Ok(s) => s,
            Err(e) => {
                return Err(e);
            },
        };
        if bind_status < 0 {
            Err(SocketError::BindError)
        } else {
            Ok(UdpSocketImpl { inner: socket, peer: None })
        }
    }

    /// A shared borrow of the owned socket.
    pub fn socket(&self) -> (r: &Socket)
        ensures
            r == &self.inner,
    {
        &self.inner
    }

    /// Moves the owned socket out; the handle moves with it, exactly once.
    pub fn into_socket(self) -> (r: Socket)
        ensures
            r == self.inner,
    {
        self.inner
    }

    /// Decodes the peer address the engine filled in at the name query.
    pub fn peer_addr(&self, storage: &RawAddressStorage) -> (r: Result<NetworkAddress, SocketError>)
        requires
            storage.wf(),
        ensures
            r == spec_sockaddr_to_addr(storage.bytes@, storage.len as int),
    {
        sockaddr_to_addr(storage)
    }

    /// Decodes the local address the engine filled in at the name query.
    pub fn socket_addr(&self, storage: &RawAddressStorage) -> (r: Result<
        NetworkAddress,
        SocketError,
    >)
        requires
            storage.wf(),
        ensures
            r == spec_sockaddr_to_addr(storage.bytes@, storage.len as int),
    {
        sockaddr_to_addr(storage)
    }

    /// Judges an engine receive that also filled the sender's address: one
    /// datagram of K bytes arrives as one receive of exactly K bytes.
    pub fn recv_from(&self, buf_len: usize, engine_ret: i64, storage: &RawAddressStorage) -> (r:
        Result<(usize, NetworkAddress), SocketError>)
        requires
            engine_ret <= buf_len as i64,
            engine_ret >= i32::MIN as i64,
            storage.wf(),
        ensures
            engine_ret < 0 ==> r == Err::<(usize, NetworkAddress), SocketError>(
                SocketError::IoError { code: engine_ret as i32 },
            ),
            engine_ret >= 0 ==> r == (match spec_sockaddr_to_addr(
                storage.bytes@,
                storage.len as int,
            ) {
                Ok(addr) => Ok((engine_ret as usize, addr)),
                Err(e) => Err(e),
            }),
    {
        self.inner.recv_from(buf_len, engine_ret, storage)
    }

    /// Judges an engine non-consuming receive with the sender's address;
    /// the datagram stays queued.
    pub fn peek_from(&self, buf_len: usize, engine_ret: i64, storage: &RawAddressStorage) -> (r:
        Result<(usize, NetworkAddress), SocketError>)
        requires
            engine_ret <= buf_len as i64,
            engine_ret >= i32::MIN as i64,
            storage.wf(),
        ensures
            engine_ret < 0 ==> r == Err::<(usize, NetworkAddress), SocketError>(
                SocketError::IoError { code: engine_ret as i32 },
            ),
            engine_ret >= 0 ==> r == (match spec_sockaddr_to_addr(
                storage.bytes@,
                storage.len as int,
            ) {
                Ok(addr) => Ok((engine_ret as usize, addr)),
                Err(e) => Err(e),
            }),
    {
        self.inner.peek_from(buf_len, engine_ret, storage)
    }

    /// Serializes a read-timeout setting for the engine.
    pub fn set_read_timeout(&self, dur: Option<TimeDuration>) -> (r: Result<Timeval, SocketError>)
        requires
            dur matches Some(d) ==> d.wf(),
        ensures
            r == spec_timeout_to_timeval(dur),
    {
        self.inner.set_timeout(dur, crate::socket::ZTS_SO_RCVTIMEO)
    }

    /// Serializes a write-timeout setting for the engine.
    pub fn set_write_timeout(&self, dur: Option<TimeDuration>) -> (r: Result<Timeval, SocketError>)
        requires
            dur matches Some(d) ==> d.wf(),
        ensures
            r == spec_timeout_to_timeval(dur),
    {
        self.inner.set_timeout(dur, crate::socket::ZTS_SO_SNDTIMEO)
    }

    /// Reads the read-timeout setting back from the engine's pair.
    pub fn read_timeout(&self, tv: Timeval) -> (r: Option<TimeDuration>)
        requires
            tv.wf(),
        ensures
            r == spec_timeval_to_timeout(tv),
    {
        self.inner.timeout(tv, crate::socket::ZTS_SO_RCVTIMEO)
    }

    /// Reads the write-timeout setting back from the engine's pair.
    pub fn write_timeout(&self, tv: Timeval) -> (r: Option<TimeDuration>)
        requires
            tv.wf(),
        ensures
            r == spec_timeval_to_timeout(tv),
    {
        self.inner.timeout(tv, crate::socket::ZTS_SO_SNDTIMEO)
    }

    /// Judges an engine set of the broadcast option.
    pub fn set_broadcast(&self, broadcast: bool, engine_status: i32) -> (r: Result<
        (),
        SocketError,
    >)
        ensures
            engine_status < 0 ==> r == Err::<(), SocketError>(SocketError::OptionError),
            engine_status >= 0 ==> r == Ok::<(), SocketError>(()),
    {
        if engine_status < 0 {
            Err(SocketError::OptionError)
        } else {
            Ok(())
        }
    }

    /// Reads the broadcast flag out of the integer option payload the
    /// engine returned: any non-zero value means the flag is set.
    pub fn broadcast(&self, payload: &Vec<u8>, engine_status: i32) -> (r: Result<bool, SocketError>)
        ensures
            r == (match spec_u32_le_option(payload@, engine_status) {
                Ok(v) => Ok::<bool, SocketError>(v != 0),
                Err(e) => Err::<bool, SocketError>(e),
            }),
    {
        match crate::options::read_u32_option(payload, engine_status) {
            Ok(v) => Ok(v != 0),
            Err(e) => Err(e),
        }
    }

    /// Judges an engine set of the time-to-live option.
    pub fn set_ttl(&self, ttl: u32, engine_status: i32) -> (r: Result<(), SocketError>)
        ensures
            engine_status < 0 ==> r == Err::<(), SocketError>(SocketError::OptionError),
            engine_status >= 0 ==> r == Ok::<(), SocketError>(()),
    {
        if engine_status < 0 {
            Err(SocketError::OptionError)
        } else {
            Ok(())
        }
    }

    /// Reads the time-to-live value out of the engine's payload.
    pub fn ttl(&self, payload: &Vec<u8>, engine_status: i32) -> (r: Result<u32, SocketError>)
        ensures
            r == spec_u32_le_option(payload@, engine_status),
    {
        crate::options::read_u32_option(payload, engine_status)
    }

    /// Reads the pending socket error the engine reported.
    pub fn take_error(&self, engine_ret: i32) -> (r: Option<SocketError>)
        ensures
            engine_ret == 0 ==> r == None::<SocketError>,
            engine_ret != 0 ==> r == Some(SocketError::IoError { code: engine_ret }),
    {
        self.inner.take_error(engine_ret)
    }

    /// Judges an engine blocking-mode change on the socket.
    pub fn set_nonblocking(&self, nonblocking: bool, engine_status: i32) -> (r: Result<
        (),
        SocketError,
    >)
        ensures
            engine_status == 0 ==> r == Ok::<(), SocketError>(()),
            engine_status != 0 ==> r == Err::<(), SocketError>(
                SocketError::IoError { code: engine_status },
            ),
    {
        self.inner.set_nonblocking(nonblocking, engine_status)
    }

    /// Judges an unaddressed engine receive: one datagram, count exact.
    pub fn recv(&self, buf_len: usize, engine_ret: i64) -> (r: Result<usize, SocketError>)
        requires
            engine_ret <= buf_len as i64,
            engine_ret >= i32::MIN as i64,
        ensures
            r == spec_transfer_result(engine_ret),
    {
        self.inner.read(buf_len, engine_ret)
    }

    /// Judges an unaddressed engine non-consuming receive.
    pub fn peek(&self, buf_len: usize, engine_ret: i64) -> (r: Result<usize, SocketError>)
        requires
            engine_ret <= buf_len as i64,
            engine_ret >= i32::MIN as i64,
        ensures
            r == spec_transfer_result(engine_ret),
    {
        self.inner.peek(buf_len, engine_ret)
    }

    /// Judges an unaddressed engine send to the connected peer: one
    /// datagram of exactly the reported count left the socket.
    pub fn send(&self, buf_len: usize, engine_ret: i64) -> (r: Result<usize, SocketError>)
        requires
            engine_ret <= buf_len as i64,
            engine_ret >= i32::MIN as i64,
        ensures
            r == spec_transfer_result(engine_ret),
    {
        self.inner.write(buf_len, engine_ret)
    }

    /// Judges an addressed engine send: the destination is always given
    /// explicitly, whether or not a default peer is fixed.
    pub fn send_to(&self, dst: &NetworkAddress, buf_len: usize, engine_ret: i64) -> (r: Result<
        usize,
        SocketError,
    >)
        requires
            engine_ret <= buf_len as i64,
            engine_ret >= i32::MIN as i64,
        ensures
            r == spec_transfer_result(engine_ret),
    {
        self.inner.write(buf_len, engine_ret)
    }

    /// Judges an engine-level connect fixing the default peer: on success
    /// the peer is recorded and unaddressed send and receive become valid;
    /// on failure nothing changes.  Receiving from other peers is filtered
    /// by the engine, not hard-locked at this layer.
    pub fn connect(&mut self, addr: &NetworkAddress, engine_status: i32) -> (r: Result<
        (),
        SocketError,
    >)
        ensures
            engine_status < 0 ==> r == Err::<(), SocketError>(
                SocketError::IoError { code: engine_status },
            ) && *final(self) == *old(self),
            engine_status >= 0 ==> r == Ok::<(), SocketError>(()) && final(self).peer == Some(
                *addr,
            ) && final(self).inner == old(self).inner,
    {
        if engine_status < 0 {
            Err(SocketError::IoError { code: engine_status })
        } else {
            self.peer = Some(*addr);
            Ok(())
        }
    }
}

impl FromInner<Socket> for UdpSocketImpl {
    fn from_inner(socket: Socket) -> UdpSocketImpl {
        UdpSocketImpl { inner: socket, peer: None }
    }
}

/// The public datagram socket handed to applications.
pub struct UdpSocket(pub UdpSocketImpl);

impl UdpSocket {
    /// The owned implementation is well formed.
    pub open spec fn wf(&self) -> bool {
        self.0.wf()
    }

    /// Picks the outcome of binding each resolved candidate endpoint in
    /// order: the first success wins, a failure of every candidate reports
    /// the last failure, and an empty candidate list reports
    /// `UnresolvedAddressError`.
    pub fn bind(outcomes: Vec<Result<UdpSocketImpl, SocketError>>) -> (r: Result<
        UdpSocket,
        SocketError,
    >)
        ensures
            outcomes@.len() == 0 ==> r == Err::<UdpSocket, SocketError>(
                SocketError::UnresolvedAddressError,
            ),
            r matches Ok(s) ==> exists|i: int|
                0 <= i < outcomes@.len() && outcomes@[i] == Ok::<UdpSocketImpl, SocketError>(s.0)
                    && spec_all_err_before(outcomes@, i),
            (exists|i: int| 0 <= i < outcomes@.len() && outcomes@[i] is Ok) ==> r is Ok,
            spec_all_err_before(outcomes@, outcomes@.len() as int) && outcomes@.len() > 0 ==> (
            outcomes@[outcomes@.len() - 1] matches Err(e) && r == Err::<UdpSocket, SocketError>(e)),
    {
        match each_addr(outcomes) {
            Ok(s) => Ok(UdpSocket(s)),
            Err(e) => Err(e),
        }
    }

    /// Judges an engine receive with the sender's address.
    pub fn recv_from(&self, buf_len: usize, engine_ret: i64, storage: &RawAddressStorage) -> (r:
        Result<(usize, NetworkAddress), SocketError>)
        requires
            engine_ret <= buf_len as i64,
            engine_ret >= i32::MIN as i64,
            storage.wf(),
        ensures
            engine_ret < 0 ==> r == Err::<(usize, NetworkAddress), SocketError>(
                SocketError::IoError { code: engine_ret as i32 },
            ),
            engine_ret >= 0 ==> r == (match spec_sockaddr_to_addr(
                storage.bytes@,
                storage.len as int,
            ) {
                Ok(addr) => Ok((engine_ret as usize, addr)),
                Err(e) => Err(e),
            }),
    {
        self.0.recv_from(buf_len, engine_ret, storage)
    }

    /// Judges an engine non-consuming receive with the sender's address.
    pub fn peek_from(&self, buf_len: usize, engine_ret: i64, storage: &RawAddressStorage) -> (r:
        Result<(usize, NetworkAddress), SocketError>)
        requires
            engine_ret <= buf_len as i64,
            engine_ret >= i32::MIN as i64,
            storage.wf(),
        ensures
            engine_ret < 0 ==> r == Err::<(usize, NetworkAddress), SocketError>(
                SocketError::IoError { code: engine_ret as i32 },
            ),
            engine_ret >= 0 ==> r == (match spec_sockaddr_to_addr(
                storage.bytes@,
                storage.len as int,
            ) {
                Ok(addr) => Ok((engine_ret as usize, addr)),
                Err(e) => Err(e),
            }),
    {
        self.0.peek_from(buf_len, engine_ret, storage)
    }

    /// Decodes the peer address the engine filled in at the name query.
    pub fn peer_addr(&self, storage: &RawAddressStorage) -> (r: Result<NetworkAddress, SocketError>)
        requires
            storage.wf(),
        ensures
            r == spec_sockaddr_to_addr(storage.bytes@, storage.len as int),
    {
        self.0.peer_addr(storage)
    }

    /// Decodes the local address the engine filled in at the name query.
    pub fn local_addr(&self, storage: &RawAddressStorage) -> (r: Result<
        NetworkAddress,
        SocketError,
    >)
        requires
            storage.wf(),
        ensures
            r == spec_sockaddr_to_addr(storage.bytes@, storage.len as int),
    {
        self.0.socket_addr(storage)
    }

    /// Serializes a read-timeout setting for the engine.
    pub fn set_read_timeout(&self, dur: Option<TimeDuration>) -> (r: Result<Timeval, SocketError>)
        requires
            dur matches Some(d) ==> d.wf(),
        ensures
            r == spec_timeout_to_timeval(dur),
    {
        self.0.set_read_timeout(dur)
    }

    /// Serializes a write-timeout setting for the engine.
    pub fn set_write_timeout(&self, dur: Option<TimeDuration>) -> (r: Result<Timeval, SocketError>)
        requires
            dur matches Some(d) ==> d.wf(),
        ensures
            r == spec_timeout_to_timeval(dur),
    {
        self.0.set_write_timeout(dur)
    }

    /// Reads the read-timeout setting back from the engine's pair.
    pub fn read_timeout(&self, tv: Timeval) -> (r: Option<TimeDuration>)
        requires
            tv.wf(),
        ensures
            r == spec_timeval_to_timeout(tv),
    {
        self.0.read_timeout(tv)
    }

    /// Reads the write-timeout setting back from the engine's pair.
    pub fn write_timeout(&self, tv: Timeval) -> (r: Option<TimeDuration>)
        requires
            tv.wf(),
        ensures
            r == spec_timeval_to_timeout(tv),
    {
        self.0.write_timeout(tv)
    }

    /// Judges an engine set of the broadcast option.
    pub fn set_broadcast(&self, broadcast: bool, engine_status: i32) -> (r: Result<
        (),
        SocketError,
    >)
        ensures
            engine_status < 0 ==> r == Err::<(), SocketError>(SocketError::OptionError),
            engine_status >= 0 ==> r == Ok::<(), SocketError>(()),
    {
        self.0.set_broadcast(broadcast, engine_status)
    }

    /// Reads the broadcast flag out of the engine's payload.
    pub fn broadcast(&self, payload: &Vec<u8>, engine_status: i32) -> (r: Result<bool, SocketError>)
        ensures
            r == (match spec_u32_le_option(payload@, engine_status) {
                Ok(v) => Ok::<bool, SocketError>(v != 0),
                Err(e) => Err::<bool, SocketError>(e),
            }),
    {
        self.0.broadcast(payload, engine_status)
    }

    /// Judges an engine set of the time-to-live option.
    pub fn set_ttl(&self, ttl: u32, engine_status: i32) -> (r: Result<(), SocketError>)
        ensures
            engine_status < 0 ==> r == Err::<(), SocketError>(SocketError::OptionError),
            engine_status >= 0 ==> r == Ok::<(), SocketError>(()),
    {
        self.0.set_ttl(ttl, engine_status)
    }

    /// Reads the time-to-live value out of the engine's payload.
    pub fn ttl(&self, payload: &Vec<u8>, engine_status: i32) -> (r: Result<u32, SocketError>)
        ensures
            r == spec_u32_le_option(payload@, engine_status),
    {
        self.0.ttl(payload, engine_status)
    }

    /// Reads the pending socket error the engine reported.
    pub fn take_error(&self, engine_ret: i32) -> (r: Option<SocketError>)
        ensures
            engine_ret == 0 ==> r == None::<SocketError>,
            engine_ret != 0 ==> r == Some(SocketError::IoError { code: engine_ret }),
    {
        self.0.take_error(engine_ret)
    }

    /// Judges an engine-level connect fixing the default peer.
    pub fn connect(&mut self, addr: &NetworkAddress, engine_status: i32) -> (r: Result<
        (),
        SocketError,
    >)
        ensures
            engine_status < 0 ==> r == Err::<(), SocketError>(
                SocketError::IoError { code: engine_status },
            ) && *final(self) == *old(self),
            engine_status >= 0 ==> r == Ok::<(), SocketError>(()) && final(self).0.peer == Some(
                *addr,
            ) && final(self).0.inner == old(self).0.inner,
    {
        self.0.connect(addr, engine_status)
    }

    /// Judges an unaddressed engine send to the connected peer.
    pub fn send(&self, buf_len: usize, engine_ret: i64) -> (r: Result<usize, SocketError>)
        requires
            engine_ret <= buf_len as i64,
            engine_ret >= i32::MIN as i64,
        ensures
            r == spec_transfer_result(engine_ret),
    {
        self.0.send(buf_len, engine_ret)
    }

    /// Judges an addressed engine send.
    pub fn send_to(&self, dst: &NetworkAddress, buf_len: usize, engine_ret: i64) -> (r: Result<
        usize,
        SocketError,
    >)
        requires
            engine_ret <= buf_len as i64,
            engine_ret >= i32::MIN as i64,
        ensures
            r == spec_transfer_result(engine_ret),
    {
        self.0.send_to(dst, buf_len, engine_ret)
    }

    /// Judges an unaddressed engine receive.
    pub fn recv(&self, buf_len: usize, engine_ret: i64) -> (r: Result<usize, SocketError>)
        requires
            engine_ret <= buf_len as i64,
            engine_ret >= i32::MIN as i64,
        ensures
            r == spec_transfer_result(engine_ret),
    {
        self.0.recv(buf_len, engine_ret)
    }

    /// Judges an unaddressed engine non-consuming receive.
    pub fn peek(&self, buf_len: usize, engine_ret: i64) -> (r: Result<usize, SocketError>)
        requires
            engine_ret <= buf_len as i64,
            engine_ret >= i32::MIN as i64,
        ensures
            r == spec_transfer_result(engine_ret),
    {
        self.0.peek(buf_len, engine_ret)
    }

    /// Judges an engine blocking-mode change on the socket.
    pub fn set_nonblocking(&self, nonblocking: bool, engine_status: i32) -> (r: Result<
        (),
        SocketError,
    >)
        ensures
            engine_status == 0 ==> r == Ok::<(), SocketError>(()),
            engine_status != 0 ==> r == Err::<(), SocketError>(
                SocketError::IoError { code: engine_status },
            ),
    {
        self.0.set_nonblocking(nonblocking, engine_status)
    }
}


impl crate::utils::AsInner<UdpSocketImpl> for UdpSocket {
    fn as_inner(&self) -> &UdpSocketImpl {
        &self.0
    }
}

impl FromInner<UdpSocketImpl> for UdpSocket {
    fn from_inner(inner: UdpSocketImpl) -> UdpSocket {
        UdpSocket(inner)
    }
}

impl crate::utils::IntoInner<UdpSocketImpl> for UdpSocket {
    fn into_inner(self) -> UdpSocketImpl {
        self.0
    }
}

} // verus!
