use libzt::addr::Ipv4Octets;
use libzt::addr::NetworkAddress;
use libzt::errors::SocketError;
use libzt::node::LifecycleStage;
use libzt::node::ZeroTierNode;

const NET: u64 = 0x8056c2e21c000001;

fn v4(o0: u8, o1: u8, o2: u8, o3: u8, port: u16) -> NetworkAddress {
    NetworkAddress::V4 { octets: Ipv4Octets { o0, o1, o2, o3 }, port }
}

/// Drives a fresh node to the point where `NET` is transport-ready.
fn ready_node() -> ZeroTierNode {
    let mut node = ZeroTierNode::new();
    node.init_set_port(0).unwrap();
    node.init_from_storage(true).unwrap();
    node.start(0).unwrap();
    node.note_online(true);
    node.net_join(NET, 0).unwrap();
    node.note_transport_ready(NET, true);
    node
}

#[test]
fn socket_before_any_bringup_fails_deterministically() {
    let node = ZeroTierNode::new();
    assert_eq!(node.open_socket(NET, 5).err(), Some(SocketError::LifecycleError));
}

#[test]
fn socket_before_ready_fails_at_every_stage() {
    let mut node = ZeroTierNode::new();
    node.init_set_port(0).unwrap();
    assert_eq!(node.open_socket(NET, 5).err(), Some(SocketError::LifecycleError));
    node.init_from_storage(true).unwrap();
    node.start(0).unwrap();
    // started but not yet online
    assert_eq!(node.open_socket(NET, 5).err(), Some(SocketError::LifecycleError));
    node.note_online(true);
    // online but the network is not joined
    assert_eq!(node.open_socket(NET, 5).err(), Some(SocketError::LifecycleError));
    node.net_join(NET, 0).unwrap();
    // joined but transport not yet ready
    assert!(!node.net_transport_is_ready(NET));
    assert_eq!(node.open_socket(NET, 5).err(), Some(SocketError::LifecycleError));
    // ready at last: the operation succeeds
    node.note_transport_ready(NET, true);
    assert!(node.net_transport_is_ready(NET));
    assert_eq!(node.open_socket(NET, 5).unwrap().fd, 5);
}

#[test]
fn ready_network_still_checks_the_handle() {
    let node = ready_node();
    assert_eq!(node.open_socket(NET, -1).err(), Some(SocketError::SocketCreateError));
}

#[test]
fn readiness_is_per_network() {
    let mut node = ready_node();
    let other: u64 = 0x1122334455667788;
    node.net_join(other, 0).unwrap();
    assert!(node.net_transport_is_ready(NET));
    assert!(!node.net_transport_is_ready(other));
    assert_eq!(node.open_socket(other, 5).err(), Some(SocketError::LifecycleError));
}

#[test]
fn configuration_after_start_is_rejected() {
    let mut node = ZeroTierNode::new();
    node.start(0).unwrap();
    assert_eq!(node.init_set_port(9993), Err(SocketError::LifecycleError));
    assert_eq!(node.init_from_storage(true), Err(SocketError::LifecycleError));
    assert_eq!(node.init_set_event_handler(), Err(SocketError::LifecycleError));
}

#[test]
fn unwritable_storage_fails_fast() {
    let mut node = ZeroTierNode::new();
    assert_eq!(node.init_from_storage(false), Err(SocketError::LifecycleError));
    assert_eq!(node.stage, LifecycleStage::Uninitialized);
}

#[test]
fn double_start_is_rejected() {
    let mut node = ZeroTierNode::new();
    node.start(0).unwrap();
    assert_eq!(node.start(0), Err(SocketError::LifecycleError));
}

#[test]
fn engine_start_failure_leaves_node_unstarted() {
    let mut node = ZeroTierNode::new();
    assert_eq!(node.start(-1), Err(SocketError::LifecycleError));
    assert_eq!(node.stage, LifecycleStage::Uninitialized);
}

#[test]
fn join_requires_running_node() {
    let mut node = ZeroTierNode::new();
    assert_eq!(node.net_join(NET, 0), Err(SocketError::LifecycleError));
    node.start(0).unwrap();
    assert_eq!(node.net_join(NET, -1), Err(SocketError::LifecycleError));
    assert_eq!(node.net_join(NET, 0), Ok(()));
    // joining again changes nothing and still succeeds
    assert_eq!(node.net_join(NET, 0), Ok(()));
    assert_eq!(node.networks.len(), 1);
}

#[test]
fn leave_removes_only_that_network() {
    let mut node = ready_node();
    let other: u64 = 0x1122334455667788;
    node.net_join(other, 0).unwrap();
    node.note_transport_ready(other, true);
    assert!(node.net_transport_is_ready(other));
    node.net_leave(NET, 0).unwrap();
    assert!(!node.net_transport_is_ready(NET));
    assert!(node.net_transport_is_ready(other));
    assert_eq!(node.networks.len(), 1);
}

#[test]
fn address_assignment_is_observed() {
    let mut node = ready_node();
    assert_eq!(node.addr_get(NET).err(), Some(SocketError::NoAddressAssignedError));
    let assigned = v4(10, 144, 0, 5, 0);
    node.note_addr_assigned(NET, assigned);
    assert_eq!(node.addr_get(NET), Ok(assigned));
    // an unknown network has no address either
    assert_eq!(
        node.addr_get(0xdead).err(),
        Some(SocketError::NoAddressAssignedError)
    );
}

#[test]
fn online_flag_only_while_running() {
    let mut node = ZeroTierNode::new();
    node.note_online(true);
    assert!(!node.is_online());
    node.start(0).unwrap();
    node.note_online(true);
    assert!(node.is_online());
    node.note_online(false);
    assert!(!node.is_online());
}

#[test]
fn node_id_is_recorded() {
    let mut node = ZeroTierNode::new();
    assert_eq!(node.id(), None);
    node.note_id(0xabcdef0123);
    assert_eq!(node.id(), Some(0xabcdef0123));
}

#[test]
fn stop_is_terminal() {
    let mut node = ready_node();
    assert_eq!(node.stop(0), Ok(()));
    assert_eq!(node.stage, LifecycleStage::Stopped);
    assert!(node.networks.is_empty());
    assert!(!node.is_online());
    // nothing works after stop
    assert_eq!(node.start(0), Err(SocketError::LifecycleError));
    assert_eq!(node.net_join(NET, 0), Err(SocketError::LifecycleError));
    assert_eq!(node.open_socket(NET, 5).err(), Some(SocketError::LifecycleError));
}

#[test]
fn stop_surfaces_engine_failure_but_still_stops() {
    let mut node = ready_node();
    assert_eq!(node.stop(-1), Err(SocketError::LifecycleError));
    assert_eq!(node.stage, LifecycleStage::Stopped);
}

#[test]
fn free_is_terminal_too() {
    let mut node = ready_node();
    assert_eq!(node.free(0), Ok(()));
    assert_eq!(node.stage, LifecycleStage::Stopped);
}
