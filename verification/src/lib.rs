//! A userspace virtual-network socket layer.
//!
//! A node joins one or more virtual networks over an encrypted overlay and
//! exposes each network's transport through a conventional socket API.  The
//! overlay engine itself is an opaque native collaborator reached over a
//! narrow C-style call surface; every call into it returns an integer status
//! or count.  This crate is the layer above that surface: it owns the
//! address marshalling, the socket-option payload encoding, the error-code
//! translation and the lifecycle and socket state machines, and it states and
//! proves what each of those decisions returns.  The thin glue that performs
//! the native calls lives outside the library and hands the results in as
//! plain integers and byte buffers.

pub mod addr;
pub mod errors;
pub mod node;
pub mod options;
pub mod socket;
pub mod tcp;
pub mod udp;
pub mod utils;
