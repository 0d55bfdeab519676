//! Address marshalling between the engine's raw storage layout and the
//! structured [`NetworkAddress`] type.
//!
//! The engine hands addresses around as a fixed-capacity byte buffer with a
//! declared length, laid out as its C headers fix it: a length octet, a
//! family octet, then the family-specific body.  Addresses and ports cross
//! the boundary in network (big-endian) byte order; the scope identifier of
//! an IPv6 address stays in the engine's native (little-endian) host order.
//! This module is the single place where that conversion happens.

use vstd::prelude::*;

use crate::errors::SocketError;

verus! {

/// The engine's discriminant for the IPv4 address family.
pub const ZTS_AF_INET: u8 = 2;

/// The engine's discriminant for the IPv6 address family.
pub const ZTS_AF_INET6: u8 = 10;

/// Capacity of the raw address-storage buffer, as the engine sizes it.
pub const RAW_STORAGE_LEN: usize = 128;

/// Declared length of an encoded IPv4 address: length octet, family octet,
/// big-endian port, four address octets, then zero padding.
pub const SOCKADDR_IN_LEN: usize = 16;

/// Declared length of an encoded IPv6 address: length octet, family octet,
/// big-endian port, big-endian flow label, sixteen address octets, then the
/// native-order scope identifier.
pub const SOCKADDR_IN6_LEN: usize = 28;

/// The four octets of an IPv4 address, most significant first.
#[derive(Clone, Copy, Debug, PartialEq, Eq, Structural)]
pub struct Ipv4Octets {
    pub o0: u8,
    pub o1: u8,
    pub o2: u8,
    pub o3: u8,
}

/// The sixteen octets of an IPv6 address, most significant first.
#[derive(Clone, Copy, Debug, PartialEq, Eq, Structural)]
pub struct Ipv6Octets {
    pub o0: u8,
    pub o1: u8,
    pub o2: u8,
    pub o3: u8,
    pub o4: u8,
    pub o5: u8,
    pub o6: u8,
    pub o7: u8,
    pub o8: u8,
    pub o9: u8,
    pub o10: u8,
    pub o11: u8,
    pub o12: u8,
    pub o13: u8,
    pub o14: u8,
    pub o15: u8,
}

/// A structured socket address on a virtual network: either address family,
/// with the full port range, and for IPv6 the flow label and scope
/// identifier as well.  Values round-trip losslessly through the codec.
#[derive(Clone, Copy, Debug, PartialEq, Eq, Structural)]
#[allow(inconsistent_fields)]
pub enum NetworkAddress {
    V4 { octets: Ipv4Octets, port: u16 },
    V6 { octets: Ipv6Octets, port: u16, flow_info: u32, scope_id: u32 },
}

/// A raw address buffer as the engine produces and consumes it: a
/// fixed-capacity byte array plus the length the engine declared for it.
/// Ephemeral — built on the stack for the duration of one call.
pub struct RawAddressStorage {
    pub bytes: Vec<u8>,
    pub len: usize,
}

impl RawAddressStorage {
    /// The buffer has its full fixed capacity and the declared length fits
    /// inside it.
    pub open spec fn wf(&self) -> bool {
        &&& self.bytes@.len() == RAW_STORAGE_LEN
        &&& self.len <= RAW_STORAGE_LEN
    }
}

/// The 16-bit value carried by two big-endian bytes.
pub open spec fn spec_u16_be(hi: u8, lo: u8) -> u16 {
    ((hi as u16) << 8) | (lo as u16)
}

/// The 32-bit value carried by four big-endian bytes.
pub open spec fn spec_u32_be(b0: u8, b1: u8, b2: u8, b3: u8) -> u32 {
    ((b0 as u32) << 24) | ((b1 as u32) << 16) | ((b2 as u32) << 8) | (b3 as u32)
}

/// The 32-bit value carried by four little-endian bytes.
pub open spec fn spec_u32_le(b0: u8, b1: u8, b2: u8, b3: u8) -> u32 {
    ((b3 as u32) << 24) | ((b2 as u32) << 16) | ((b1 as u32) << 8) | (b0 as u32)
}

/// Splitting a 16-bit value into big-endian bytes inverts [`spec_u16_be`].
pub proof fn lemma_u16_be_split(x: u16)
    ensures
        spec_u16_be((x >> 8) as u8, (x & 0xff) as u8) == x,
{
    assert(((((x >> 8) as u8) as u16) << 8) | (((x & 0xff) as u8) as u16) == x) by (bit_vector);
}

/// Splitting a 32-bit value into big-endian bytes inverts [`spec_u32_be`].
pub proof fn lemma_u32_be_split(x: u32)
    ensures
        spec_u32_be(
            (x >> 24) as u8,
            ((x >> 16) & 0xff) as u8,
            ((x >> 8) & 0xff) as u8,
            (x & 0xff) as u8,
        ) == x,
{
    assert((((x >> 24) as u8 as u32) << 24) | ((((x >> 16) & 0xff) as u8 as u32) << 16) | ((((x
        >> 8) & 0xff) as u8 as u32) << 8) | ((x & 0xff) as u8 as u32) == x) by (bit_vector);
}

/// Splitting a 32-bit value into little-endian bytes inverts [`spec_u32_le`].
pub proof fn lemma_u32_le_split(x: u32)
    ensures
        spec_u32_le(
            (x & 0xff) as u8,
            ((x >> 8) & 0xff) as u8,
            ((x >> 16) & 0xff) as u8,
            (x >> 24) as u8,
        ) == x,
{
    assert((((x >> 24) as u8 as u32) << 24) | ((((x >> 16) & 0xff) as u8 as u32) << 16) | ((((x
        >> 8) & 0xff) as u8 as u32) << 8) | ((x & 0xff) as u8 as u32) == x) by (bit_vector);
}

/// What decoding a raw buffer yields: the address read from the byte layout,
/// or `AddressFamilyError` when the family octet names neither family or the
/// declared length is shorter than that family's structure.
pub open spec fn spec_sockaddr_to_addr(bytes: Seq<u8>, len: int) -> Result<
    NetworkAddress,
    SocketError,
> {
    if bytes[1] == ZTS_AF_INET {
        if len >= SOCKADDR_IN_LEN {
            Ok(
                NetworkAddress::V4 {
                    octets: Ipv4Octets {
                        o0: bytes[4],
                        o1: bytes[5],
                        o2: bytes[6],
                        o3: bytes[7],
                    },
                    port: spec_u16_be(bytes[2], bytes[3]),
                },
            )
        } else {
            Err(SocketError::AddressFamilyError)
        }
    } else if bytes[1] == ZTS_AF_INET6 {
        if len >= SOCKADDR_IN6_LEN {
            Ok(
                NetworkAddress::V6 {
                    octets: Ipv6Octets {
                        o0: bytes[8],
                        o1: bytes[9],
                        o2: bytes[10],
                        o3: bytes[11],
                        o4: bytes[12],
                        o5: bytes[13],
                        o6: bytes[14],
                        o7: bytes[15],
                        o8: bytes[16],
                        o9: bytes[17],
                        o10: bytes[18],
                        o11: bytes[19],
                        o12: bytes[20],
                        o13: bytes[21],
                        o14: bytes[22],
                        o15: bytes[23],
                    },
                    port: spec_u16_be(bytes[2], bytes[3]),
                    flow_info: spec_u32_be(bytes[4], bytes[5], bytes[6], bytes[7]),
                    scope_id: spec_u32_le(bytes[24], bytes[25], bytes[26], bytes[27]),
                },
            )
        } else {
            Err(SocketError::AddressFamilyError)
        }
    } else {
        Err(SocketError::AddressFamilyError)
    }
}

/// Decodes a raw address buffer into a structured address.
///
/// Reads the family discriminant, then parses the fixed layout of that
/// family, checking the declared length first; the buffer's padding bytes
/// are ignored.
pub fn sockaddr_to_addr(storage: &RawAddressStorage) -> (r: Result<NetworkAddress, SocketError>)
    requires
        storage.wf(),
    ensures
        r == spec_sockaddr_to_addr(storage.bytes@, storage.len as int),
{
    let b = &storage.bytes;
    let family = b[1];
    if family == ZTS_AF_INET {
        if storage.len >= SOCKADDR_IN_LEN {
            let port = ((b[2] as u16) << 8) | (b[3] as u16);
            Ok(
                NetworkAddress::V4 {
                    octets: Ipv4Octets { o0: b[4], o1: b[5], o2: b[6], o3: b[7] },
                    port,
                },
            )
        } else {
            Err(SocketError::AddressFamilyError)
        }
    } else if family == ZTS_AF_INET6 {
        if storage.len >= SOCKADDR_IN6_LEN {
            let port = ((b[2] as u16) << 8) | (b[3] as u16);
            let flow_info = ((b[4] as u32) << 24) | ((b[5] as u32) << 16) | ((b[6] as u32) << 8)
                | (b[7] as u32);
            let scope_id = ((b[27] as u32) << 24) | ((b[26] as u32) << 16) | ((b[25] as u32) << 8)
                | (b[24] as u32);
            Ok(
                NetworkAddress::V6 {
                    octets: Ipv6Octets {
                        o0: b[8],
                        o1: b[9],
                        o2: b[10],
                        o3: b[11],
                        o4: b[12],
                        o5: b[13],
                        o6: b[14],
                        o7: b[15],
                        o8: b[16],
                        o9: b[17],
                        o10: b[18],
                        o11: b[19],
                        o12: b[20],
                        o13: b[21],
                        o14: b[22],
                        o15: b[23],
                    },
                    port,
                    flow_info,
                    scope_id,
                },
            )
        } else {
            Err(SocketError::AddressFamilyError)
        }
    } else {
        Err(SocketError::AddressFamilyError)
    }
}

/// Encodes a structured address into the engine's raw layout: zero-fills the
/// buffer, writes the family discriminant and length octet, and lays the
/// fields out exactly as [`spec_sockaddr_to_addr`] reads them, so that
/// decoding the result returns the original address.
pub fn addr_to_sockaddr(addr: &NetworkAddress) -> (r: RawAddressStorage)
    ensures
        r.wf(),
        r.len == (if *addr is V4 {
            SOCKADDR_IN_LEN
        } else {
            SOCKADDR_IN6_LEN
        }),
        spec_sockaddr_to_addr(r.bytes@, r.len as int) == Ok::<NetworkAddress, SocketError>(*addr),
{
    let mut bytes: Vec<u8> = Vec::new();
    let mut i: usize = 0;
    while i < RAW_STORAGE_LEN
        invariant
            i <= RAW_STORAGE_LEN,
            bytes@.len() == i,
            forall|j: int| 0 <= j < i ==> bytes@[j] == 0u8,
        decreases RAW_STORAGE_LEN - i,
    {
        bytes.push(0u8);
        i = i + 1;
    }
    match addr {
        NetworkAddress::V4 { octets, port } => {
            bytes[0] = SOCKADDR_IN_LEN as u8;
            bytes[1] = ZTS_AF_INET;
            bytes[2] = (*port >> 8) as u8;
            bytes[3] = (*port & 0xff) as u8;
            bytes[4] = octets.o0;
            bytes[5] = octets.o1;
            bytes[6] = octets.o2;
            bytes[7] = octets.o3;
            proof {
                lemma_u16_be_split(*port);
            }
            RawAddressStorage { bytes, len: SOCKADDR_IN_LEN }
        },
        NetworkAddress::V6 { octets, port, flow_info, scope_id } => {
            bytes[0] = SOCKADDR_IN6_LEN as u8;
            bytes[1] = ZTS_AF_INET6;
            bytes[2] = (*port >> 8) as u8;
            bytes[3] = (*port & 0xff) as u8;
            bytes[4] = (*flow_info >> 24) as u8;
            bytes[5] = ((*flow_info >> 16) & 0xff) as u8;
            bytes[6] = ((*flow_info >> 8) & 0xff) as u8;
            bytes[7] = (*flow_info & 0xff) as u8;
            bytes[8] = octets.o0;
            bytes[9] = octets.o1;
            bytes[10] = octets.o2;
            bytes[11] = octets.o3;
            bytes[12] = octets.o4;
            bytes[13] = octets.o5;
            bytes[14] = octets.o6;
            bytes[15] = octets.o7;
            bytes[16] = octets.o8;
            bytes[17] = octets.o9;
            bytes[18] = octets.o10;
            bytes[19] = octets.o11;
            bytes[20] = octets.o12;
            bytes[21] = octets.o13;
            bytes[22] = octets.o14;
            bytes[23] = octets.o15;
            bytes[24] = (*scope_id & 0xff) as u8;
            bytes[25] = ((*scope_id >> 8) & 0xff) as u8;
            bytes[26] = ((*scope_id >> 16) & 0xff) as u8;
            bytes[27] = (*scope_id >> 24) as u8;
            proof {
                lemma_u16_be_split(*port);
                lemma_u32_be_split(*flow_info);
                lemma_u32_le_split(*scope_id);
            }
            RawAddressStorage { bytes, len: SOCKADDR_IN6_LEN }
        },
    }
}

} // verus!
