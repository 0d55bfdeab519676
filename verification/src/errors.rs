//! The error taxonomy of the socket layer.
//!
//! Every engine call that can fail is checked at the point of the call and
//! translated into one of these variants; nothing is swallowed silently and
//! no error is downgraded on its way up through the stream and datagram
//! wrappers.

use vstd::prelude::*;

verus! {

/// Errors surfaced by the socket layer.
///
/// `IoError` carries the engine's error code from a failed read, write,
/// shutdown or connect; the remaining variants classify failures of one
/// specific operation.
#[derive(Clone, Copy, Debug, PartialEq, Eq, Structural)]
pub enum SocketError {
    /// A raw address buffer held neither the IPv4 nor the IPv6 family
    /// discriminant, or was declared shorter than its family's layout.
    AddressFamilyError,
    /// A socket-option get or set was rejected by the engine, or the
    /// returned payload size did not match the requested type.
    OptionError,
    /// An explicit zero-length timeout was passed to a timeout option.
    InvalidTimeout,
    /// The engine failed to produce a usable socket handle.
    SocketCreateError,
    /// An engine bind or listen step failed.
    BindError,
    /// A transfer or shutdown call failed; `code` is the engine's error code.
    IoError { code: i32 },
    /// Name resolution produced no candidate addresses.
    UnresolvedAddressError,
    /// A node-lifecycle operation was attempted in a state that forbids it,
    /// or an engine lifecycle call failed.
    LifecycleError,
    /// No address has been assigned yet on the queried network.
    NoAddressAssignedError,
}

} // verus!
