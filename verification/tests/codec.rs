use libzt::addr::addr_to_sockaddr;
use libzt::addr::sockaddr_to_addr;
use libzt::addr::Ipv4Octets;
use libzt::addr::Ipv6Octets;
use libzt::addr::NetworkAddress;
use libzt::addr::RawAddressStorage;
use libzt::addr::RAW_STORAGE_LEN;
use libzt::addr::SOCKADDR_IN6_LEN;
use libzt::addr::SOCKADDR_IN_LEN;
use libzt::addr::ZTS_AF_INET;
use libzt::addr::ZTS_AF_INET6;
use libzt::errors::SocketError;
use libzt::utils::htons;
use libzt::utils::ipv4_addr;
use libzt::utils::ntohs;

fn sample_v6() -> NetworkAddress {
    NetworkAddress::V6 {
        octets: Ipv6Octets {
            o0: 0xfe,
            o1: 0x80,
            o2: 0,
            o3: 0,
            o4: 0,
            o5: 0,
            o6: 0,
            o7: 0,
            o8: 0x12,
            o9: 0x34,
            o10: 0x56,
            o11: 0x78,
            o12: 0x9a,
            o13: 0xbc,
            o14: 0xde,
            o15: 0xf0,
        },
        port: 443,
        flow_info: 0x00012345,
        scope_id: 7,
    }
}

#[test]
fn v4_round_trip() {
    let a = NetworkAddress::V4 {
        octets: Ipv4Octets { o0: 192, o1: 168, o2: 1, o3: 7 },
        port: 9080,
    };
    let raw = addr_to_sockaddr(&a);
    assert_eq!(raw.len, SOCKADDR_IN_LEN);
    assert_eq!(sockaddr_to_addr(&raw), Ok(a));
}

#[test]
fn v4_round_trip_port_extremes() {
    for port in [0u16, 1, 255, 256, 65535] {
        let a = NetworkAddress::V4 {
            octets: Ipv4Octets { o0: 10, o1: 0, o2: 0, o3: 1 },
            port,
        };
        let raw = addr_to_sockaddr(&a);
        assert_eq!(sockaddr_to_addr(&raw), Ok(a));
    }
}

#[test]
fn v6_round_trip() {
    let a = sample_v6();
    let raw = addr_to_sockaddr(&a);
    assert_eq!(raw.len, SOCKADDR_IN6_LEN);
    assert_eq!(sockaddr_to_addr(&raw), Ok(a));
}

#[test]
fn v6_round_trip_extreme_fields() {
    let a = NetworkAddress::V6 {
        octets: Ipv6Octets {
            o0: 0xff,
            o1: 0xff,
            o2: 0xff,
            o3: 0xff,
            o4: 0xff,
            o5: 0xff,
            o6: 0xff,
            o7: 0xff,
            o8: 0xff,
            o9: 0xff,
            o10: 0xff,
            o11: 0xff,
            o12: 0xff,
            o13: 0xff,
            o14: 0xff,
            o15: 0xff,
        },
        port: 65535,
        flow_info: u32::MAX,
        scope_id: u32::MAX,
    };
    let raw = addr_to_sockaddr(&a);
    assert_eq!(sockaddr_to_addr(&raw), Ok(a));
}

#[test]
fn v4_encoding_layout_is_exact() {
    let a = NetworkAddress::V4 {
        octets: Ipv4Octets { o0: 192, o1: 168, o2: 1, o3: 7 },
        port: 0x2378,
    };
    let raw = addr_to_sockaddr(&a);
    assert_eq!(raw.bytes.len(), RAW_STORAGE_LEN);
    assert_eq!(raw.bytes[0], SOCKADDR_IN_LEN as u8);
    assert_eq!(raw.bytes[1], ZTS_AF_INET);
    // big-endian port
    assert_eq!(raw.bytes[2], 0x23);
    assert_eq!(raw.bytes[3], 0x78);
    // address octets in order
    assert_eq!(&raw.bytes[4..8], &[192, 168, 1, 7]);
    // zero fill beyond the structure
    assert!(raw.bytes[8..].iter().all(|b| *b == 0));
}

#[test]
fn v6_encoding_layout_is_exact() {
    let a = sample_v6();
    let raw = addr_to_sockaddr(&a);
    assert_eq!(raw.bytes[0], SOCKADDR_IN6_LEN as u8);
    assert_eq!(raw.bytes[1], ZTS_AF_INET6);
    // big-endian port 443 = 0x01bb
    assert_eq!(raw.bytes[2], 0x01);
    assert_eq!(raw.bytes[3], 0xbb);
    // big-endian flow label
    assert_eq!(&raw.bytes[4..8], &[0x00, 0x01, 0x23, 0x45]);
    // the sixteen address octets in order
    assert_eq!(
        &raw.bytes[8..24],
        &[0xfe, 0x80, 0, 0, 0, 0, 0, 0, 0x12, 0x34, 0x56, 0x78, 0x9a, 0xbc, 0xde, 0xf0]
    );
    // native little-endian scope id
    assert_eq!(&raw.bytes[24..28], &[7, 0, 0, 0]);
}

#[test]
fn decode_rejects_unknown_family() {
    let mut bytes = vec![0u8; RAW_STORAGE_LEN];
    bytes[1] = 99;
    let raw = RawAddressStorage { bytes, len: RAW_STORAGE_LEN };
    assert_eq!(sockaddr_to_addr(&raw), Err(SocketError::AddressFamilyError));
}

#[test]
fn decode_rejects_short_v4() {
    let mut bytes = vec![0u8; RAW_STORAGE_LEN];
    bytes[1] = ZTS_AF_INET;
    let raw = RawAddressStorage { bytes, len: SOCKADDR_IN_LEN - 1 };
    assert_eq!(sockaddr_to_addr(&raw), Err(SocketError::AddressFamilyError));
}

#[test]
fn decode_rejects_short_v6() {
    let mut bytes = vec![0u8; RAW_STORAGE_LEN];
    bytes[1] = ZTS_AF_INET6;
    let raw = RawAddressStorage { bytes, len: SOCKADDR_IN6_LEN - 1 };
    assert_eq!(sockaddr_to_addr(&raw), Err(SocketError::AddressFamilyError));
}

#[test]
fn decode_reads_wire_order() {
    let mut bytes = vec![0u8; RAW_STORAGE_LEN];
    bytes[1] = ZTS_AF_INET;
    bytes[2] = 0x1f; // port 0x1f90 = 8080, big-endian on the wire
    bytes[3] = 0x90;
    bytes[4] = 10;
    bytes[5] = 144;
    bytes[6] = 0;
    bytes[7] = 200;
    let raw = RawAddressStorage { bytes, len: SOCKADDR_IN_LEN };
    assert_eq!(
        sockaddr_to_addr(&raw),
        Ok(NetworkAddress::V4 {
            octets: Ipv4Octets { o0: 10, o1: 144, o2: 0, o3: 200 },
            port: 8080,
        })
    );
}

#[test]
fn byte_order_helpers() {
    assert_eq!(ntohs(0x1234), 0x3412);
    assert_eq!(htons(0x3412), 0x1234);
    assert_eq!(ntohs(htons(9080)), 9080);
    assert_eq!(htons(ntohs(9080)), 9080);
    assert_eq!(ipv4_addr(0x0100007f), 0x7f000001);
    assert_eq!(ipv4_addr(ipv4_addr(0xc0a80107)), 0xc0a80107);
}
