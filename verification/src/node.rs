//! The node lifecycle: the overlay participant every socket depends on.
//!
//! One node per process: it is configured, started, comes online, joins one
//! or more virtual networks, and each joined network independently becomes
//! transport-ready and receives an assigned address.  Socket operations are
//! meaningless until the relevant network is ready, and the guard here makes
//! that failure deterministic.  Lifecycle transitions are monotonic — the
//! stage never moves backwards, and a stopped node is terminal.
//!
//! The engine performs the actual work; polls of engine state are fed back
//! in as recorded observations, so this state machine always decides from
//! what has actually been observed.

use vstd::prelude::*;

use crate::addr::NetworkAddress;
use crate::errors::SocketError;
use crate::socket::Socket;

verus! {

/// How far the node's life has progressed.  The order is strict:
/// configuration only before start, networks only while started, and a
/// stopped node stays stopped.
#[derive(Clone, Copy, Debug, PartialEq, Eq, Structural)]
pub enum LifecycleStage {
    /// Nothing configured yet.
    Uninitialized,
    /// Configuration recorded, engine not yet running.
    Configured,
    /// The engine is running; the node may be online and joined.
    Started,
    /// Terminal: the engine was stopped and every socket under this node
    /// is invalid.
    Stopped,
}

/// The stage's position in the one-way lifecycle order.
pub open spec fn spec_stage_index(stage: LifecycleStage) -> int {
    match stage {
        LifecycleStage::Uninitialized => 0,
        LifecycleStage::Configured => 1,
        LifecycleStage::Started => 2,
        LifecycleStage::Stopped => 3,
    }
}

/// One joined virtual network: its 64-bit identifier, whether its data
/// path has been observed transport-ready, and the address the engine has
/// assigned on it, once observed.
#[derive(Clone, Copy, Debug, PartialEq, Eq, Structural)]
pub struct NetworkMembership {
    pub net_id: u64,
    pub transport_ready: bool,
    pub addr: Option<NetworkAddress>,
}

/// The process-wide overlay participant, modelled as an explicit handle
/// object passed to socket constructors rather than ambient global state.
pub struct ZeroTierNode {
    pub stage: LifecycleStage,
    pub port: Option<u16>,
    pub storage_set: bool,
    pub handler_set: bool,
    pub online: bool,
    pub node_id: Option<u64>,
    pub networks: Vec<NetworkMembership>,
}

impl ZeroTierNode {
    /// Invariant: memberships carry distinct identifiers, and being online
    /// or holding memberships implies the engine is running.
    pub open spec fn wf(&self) -> bool {
        &&& forall|i: int, j: int|
            0 <= i < self.networks@.len() && 0 <= j < self.networks@.len() && i != j
                ==> self.networks@[i].net_id != self.networks@[j].net_id
        &&& (self.online ==> self.stage is Started)
        &&& (self.networks@.len() > 0 ==> self.stage is Started)
    }

    /// The node holds a membership in the given network.
    pub open spec fn spec_is_member(&self, net_id: u64) -> bool {
        exists|i: int| 0 <= i < self.networks@.len() && self.networks@[i].net_id == net_id
    }

    /// The membership record for the given network.
    pub open spec fn spec_membership(&self, net_id: u64) -> NetworkMembership
        recommends
            self.spec_is_member(net_id),
    {
        self.networks@[choose|i: int|
            0 <= i < self.networks@.len() && self.networks@[i].net_id == net_id]
    }

    /// The network's transport is usable for socket traffic: the node is
    /// running and online, the network is joined, and its data path has
    /// been observed ready.
    pub open spec fn spec_transport_ready(&self, net_id: u64) -> bool {
        &&& self.stage is Started
        &&& self.online
        &&& exists|i: int|
            0 <= i < self.networks@.len() && self.networks@[i].net_id == net_id
                && self.networks@[i].transport_ready
    }

    /// The address assigned on the given network, if one has been observed.
    pub open spec fn spec_assigned_addr(&self, net_id: u64) -> Option<NetworkAddress> {
        if self.spec_is_member(net_id) {
            self.spec_membership(net_id).addr
        } else {
            None
        }
    }

    /// A fresh, unconfigured node.
    pub fn new() -> (r: ZeroTierNode)
        ensures
            r.stage == LifecycleStage::Uninitialized,
            r.port == None::<u16>,
            !r.storage_set,
            !r.handler_set,
            !r.online,
            r.node_id == None::<u64>,
            r.networks@.len() == 0,
            r.wf(),
    {
        ZeroTierNode {
            stage: LifecycleStage::Uninitialized,
            port: None,
            storage_set: false,
            handler_set: false,
            online: false,
            node_id: None,
            networks: Vec::new(),
        }
    }

    /// A membership with the given identifier at a known index is the
    /// membership record of that network.
    proof fn lemma_member_at(&self, i: int, net_id: u64)
        requires
            self.wf(),
            0 <= i < self.networks@.len(),
            self.networks@[i].net_id == net_id,
        ensures
            self.spec_is_member(net_id),
            self.spec_membership(net_id) == self.networks@[i],
    {
        assert(self.spec_is_member(net_id));
        let j = choose|j: int|
            0 <= j < self.networks@.len() && self.networks@[j].net_id == net_id;
        assert(i == j);
    }

    /// The index of the membership for the given network, if any.
    fn find_network(&self, net_id: u64) -> (r: Option<usize>)
        ensures
            r matches Some(i) ==> i < self.networks@.len() && self.networks@[i as int].net_id
                == net_id,
            r is None ==> forall|j: int|
                0 <= j < self.networks@.len() ==> self.networks@[j].net_id != net_id,
    {
        let n = self.networks.len();
        let mut i: usize = 0;
        while i < n
            invariant
                n == self.networks@.len(),
                i <= n,
                forall|j: int| 0 <= j < i ==> self.networks@[j].net_id != net_id,
            decreases n - i,
        {
            if self.networks[i].net_id == net_id {
                return Some(i);
            }
            i = i + 1;
        }
        None
    }

    /// Records that an event handler was configured.  Configuration is
    /// accepted only before the engine starts; afterwards it fails fast
    /// with `LifecycleError` and changes nothing.
    pub fn init_set_event_handler(&mut self) -> (r: Result<(), SocketError>)
        requires
            old(self).wf(),
        ensures
            final(self).wf(),
            spec_stage_index(final(self).stage) >= spec_stage_index(old(self).stage),
            (old(self).stage is Uninitialized || old(self).stage is Configured) ==> r == Ok::<
                (),
                SocketError,
            >(()) && *final(self) == (ZeroTierNode {
                stage: LifecycleStage::Configured,
                handler_set: true,
                ..*old(self)
            }),
            !(old(self).stage is Uninitialized || old(self).stage is Configured) ==> r == Err::<
                (),
                SocketError,
            >(SocketError::LifecycleError) && *final(self) == *old(self),
    {
        match self.stage {
            LifecycleStage::Uninitialized | LifecycleStage::Configured => {
                self.stage = LifecycleStage::Configured;
                self.handler_set = true;
                Ok(())
            },
            _ => Err(SocketError::LifecycleError),
        }
    }

    /// Records the engine's listen port.  Accepted only before the engine
    /// starts; afterwards it fails fast with `LifecycleError` and changes
    /// nothing.
    pub fn init_set_port(&mut self, port: u16) -> (r: Result<(), SocketError>)
        requires
            old(self).wf(),
        ensures
            final(self).wf(),
            spec_stage_index(final(self).stage) >= spec_stage_index(old(self).stage),
            (old(self).stage is Uninitialized || old(self).stage is Configured) ==> r == Ok::<
                (),
                SocketError,
            >(()) && *final(self) == (ZeroTierNode {
                stage: LifecycleStage::Configured,
                port: Some(port),
                ..*old(self)
            }),
            !(old(self).stage is Uninitialized || old(self).stage is Configured) ==> r == Err::<
                (),
                SocketError,
            >(SocketError::LifecycleError) && *final(self) == *old(self),
    {
        match self.stage {
            LifecycleStage::Uninitialized | LifecycleStage::Configured => {
                self.stage = LifecycleStage::Configured;
                self.port = Some(port);
                Ok(())
            },
            _ => Err(SocketError::LifecycleError),
        }
    }

    /// Records the storage directory for the engine's persisted state.
    /// Fails fast with `LifecycleError` if the path was found unwritable
    /// or the node is already active, changing nothing.
    pub fn init_from_storage(&mut self, storage_writable: bool) -> (r: Result<(), SocketError>)
        requires
            old(self).wf(),
        ensures
            final(self).wf(),
            spec_stage_index(final(self).stage) >= spec_stage_index(old(self).stage),
            (old(self).stage is Uninitialized || old(self).stage is Configured)
                && storage_writable ==> r == Ok::<(), SocketError>(()) && *final(self) == (
            ZeroTierNode { stage: LifecycleStage::Configured, storage_set: true, ..*old(self) }),
            !((old(self).stage is Uninitialized || old(self).stage is Configured)
                && storage_writable) ==> r == Err::<(), SocketError>(SocketError::LifecycleError)
                && *final(self) == *old(self),
    {
        match self.stage {
            LifecycleStage::Uninitialized | LifecycleStage::Configured => {
                if storage_writable {
                    self.stage = LifecycleStage::Configured;
                    self.storage_set = true;
                    Ok(())
                } else {
                    Err(SocketError::LifecycleError)
                }
            },
            _ => Err(SocketError::LifecycleError),
        }
    }

    /// Judges the engine's start call: only a node that has not yet
    /// started can start, and the engine must accept; then the node is
    /// running, though not yet online.
    pub fn start(&mut self, engine_status: i32) -> (r: Result<(), SocketError>)
        requires
            old(self).wf(),
        ensures
            final(self).wf(),
            spec_stage_index(final(self).stage) >= spec_stage_index(old(self).stage),
            !(old(self).stage is Uninitialized || old(self).stage is Configured) ==> r == Err::<
                (),
                SocketError,
            >(SocketError::LifecycleError) && *final(self) == *old(self),
            (old(self).stage is Uninitialized || old(self).stage is Configured) && engine_status
                < 0 ==> r == Err::<(), SocketError>(SocketError::LifecycleError) && *final(self)
                == *old(self),
            (old(self).stage is Uninitialized || old(self).stage is Configured) && engine_status
                >= 0 ==> r == Ok::<(), SocketError>(()) && *final(self) == (ZeroTierNode {
                stage: LifecycleStage::Started,
                ..*old(self)
            }),
    {
        match self.stage {
            LifecycleStage::Uninitialized | LifecycleStage::Configured => {
                if engine_status < 0 {
                    Err(SocketError::LifecycleError)
                } else {
                    self.stage = LifecycleStage::Started;
                    Ok(())
                }
            },
            _ => Err(SocketError::LifecycleError),
        }
    }

    /// Judges the engine's stop call.  Stopping is terminal whatever the
    /// engine answered: the node is stopped, offline, and every membership
    /// is gone — application sockets must already be closed.  An engine
    /// failure still surfaces as `LifecycleError`.
    pub fn stop(&mut self, engine_status: i32) -> (r: Result<(), SocketError>)
        requires
            old(self).wf(),
        ensures
            final(self).wf(),
            spec_stage_index(final(self).stage) >= spec_stage_index(old(self).stage),
            final(self).stage == LifecycleStage::Stopped,
            !final(self).online,
            final(self).networks@.len() == 0,
            final(self).port == old(self).port,
            final(self).node_id == old(self).node_id,
            engine_status >= 0 ==> r == Ok::<(), SocketError>(()),
            engine_status < 0 ==> r == Err::<(), SocketError>(SocketError::LifecycleError),
    {
        self.stage = LifecycleStage::Stopped;
        self.online = false;
        self.networks = Vec::new();
        if engine_status >= 0 {
            Ok(())
        } else {
            Err(SocketError::LifecycleError)
        }
    }

    /// Judges the engine's free call, which releases the engine's own
    /// resources; like stopping, it leaves the node terminally stopped.
    pub fn free(&mut self, engine_status: i32) -> (r: Result<(), SocketError>)
        requires
            old(self).wf(),
        ensures
            final(self).wf(),
            spec_stage_index(final(self).stage) >= spec_stage_index(old(self).stage),
            final(self).stage == LifecycleStage::Stopped,
            !final(self).online,
            final(self).networks@.len() == 0,
            engine_status >= 0 ==> r == Ok::<(), SocketError>(()),
            engine_status < 0 ==> r == Err::<(), SocketError>(SocketError::LifecycleError),
    {
        self.stop(engine_status)
    }

    /// Records the engine's answer to an online poll.  Only a running
    /// node's flag changes; online-ness can come and go while the node
    /// runs.
    pub fn note_online(&mut self, online: bool)
        requires
            old(self).wf(),
        ensures
            final(self).wf(),
            final(self).stage == old(self).stage,
            old(self).stage is Started ==> *final(self) == (ZeroTierNode {
                online,
                ..*old(self)
            }),
            !(old(self).stage is Started) ==> *final(self) == *old(self),
    {
        if matches!(self.stage, LifecycleStage::Started) {
            self.online = online;
        }
    }

    /// Whether the node has been observed online: meaningful only while
    /// the engine runs.
    pub fn is_online(&self) -> (r: bool)
        ensures
            r == (self.stage is Started && self.online),
    {
        matches!(self.stage, LifecycleStage::Started) && self.online
    }

    /// Records the node identifier the engine reported.
    pub fn note_id(&mut self, id: u64)
        requires
            old(self).wf(),
        ensures
            final(self).wf(),
            *final(self) == (ZeroTierNode { node_id: Some(id), ..*old(self) }),
    {
        self.node_id = Some(id);
    }

    /// The node identifier, once the engine has reported one.
    pub fn id(&self) -> (r: Option<u64>)
        ensures
            r == self.node_id,
    {
        self.node_id
    }

    /// Judges the engine's join call for a network: the node must be
    /// running and the engine must accept.  A fresh membership starts
    /// neither transport-ready nor addressed; joining an already joined
    /// network changes nothing.
    pub fn net_join(&mut self, net_id: u64, engine_status: i32) -> (r: Result<(), SocketError>)
        requires
            old(self).wf(),
        ensures
            final(self).wf(),
            spec_stage_index(final(self).stage) >= spec_stage_index(old(self).stage),
            !(old(self).stage is Started) ==> r == Err::<(), SocketError>(
                SocketError::LifecycleError,
            ) && *final(self) == *old(self),
            old(self).stage is Started && engine_status < 0 ==> r == Err::<(), SocketError>(
                SocketError::LifecycleError,
            ) && *final(self) == *old(self),
            old(self).stage is Started && engine_status >= 0 && old(self).spec_is_member(net_id)
                ==> r == Ok::<(), SocketError>(()) && *final(self) == *old(self),
            old(self).stage is Started && engine_status >= 0 && !old(self).spec_is_member(net_id)
                ==> r == Ok::<(), SocketError>(()) && final(self).networks@ == old(self).networks@.push(
                NetworkMembership { net_id, transport_ready: false, addr: None },
            ) && final(self).stage == old(self).stage && final(self).online == old(self).online,
            final(self).spec_is_member(net_id) == (old(self).spec_is_member(net_id) || (old(self).stage is Started && engine_status >= 0)),
    {
        if !matches!(self.stage, LifecycleStage::Started) {
            return Err(SocketError::LifecycleError);
        }
        if engine_status < 0 {
            return Err(SocketError::LifecycleError);
        }
        match self.find_network(net_id) {
            Some(i) => {
                proof {
                    self.lemma_member_at(i as int, net_id);
                }
                Ok(())
            },
            None => {
                self.networks.push(
                    NetworkMembership { net_id, transport_ready: false, addr: None },
                );
                proof {
                    let n = self.networks@.len();
                    assert(self.networks@[n - 1].net_id == net_id);
                }
                Ok(())
            },
        }
    }

    /// Judges the engine's leave call for a network: the node must be
    /// running and the engine must accept; then the membership is gone and
    /// every other membership survives untouched.
    pub fn net_leave(&mut self, net_id: u64, engine_status: i32) -> (r: Result<(), SocketError>)
        requires
            old(self).wf(),
        ensures
            final(self).wf(),
            spec_stage_index(final(self).stage) >= spec_stage_index(old(self).stage),
            !(old(self).stage is Started) ==> r == Err::<(), SocketError>(
                SocketError::LifecycleError,
            ) && *final(self) == *old(self),
            old(self).stage is Started && engine_status < 0 ==> r == Err::<(), SocketError>(
                SocketError::LifecycleError,
            ) && *final(self) == *old(self),
            old(self).stage is Started && engine_status >= 0 ==> r == Ok::<(), SocketError>(())
                && !final(self).spec_is_member(net_id) && final(self).stage == old(self).stage
                && final(self).online == old(self).online,
            old(self).stage is Started && engine_status >= 0 ==> forall|other: u64|
                other != net_id ==> final(self).spec_is_member(other) == old(self).spec_is_member(
                    other,
                ),
            old(self).stage is Started && engine_status >= 0 ==> forall|other: u64|
                other != net_id && old(self).spec_is_member(other) ==> final(self).spec_membership(other) == old(self).spec_membership(other),
    {
        if !matches!(self.stage, LifecycleStage::Started) {
            return Err(SocketError::LifecycleError);
        }
        if engine_status < 0 {
            return Err(SocketError::LifecycleError);
        }
        let ghost pre = *self;
        match self.find_network(net_id) {
            Some(i) => {
                self.networks.remove(i);
                proof {
                    let old_seq = pre.networks@;
                    let new_seq = self.networks@;
                    assert forall|k: int| 0 <= k < new_seq.len() implies new_seq[k] == (if k
                        < i as int {
                        old_seq[k]
                    } else {
                        old_seq[k + 1]
                    }) by {}
                    assert forall|k: int| 0 <= k < new_seq.len() implies new_seq[k].net_id
                        != net_id by {
                        if k < i as int {
                            assert(old_seq[k].net_id != old_seq[i as int].net_id);
                        } else {
                            assert(old_seq[k + 1].net_id != old_seq[i as int].net_id);
                        }
                    }
                    assert(!self.spec_is_member(net_id));
                    assert forall|other: u64| other != net_id implies self.spec_is_member(other)
                        == pre.spec_is_member(other) by {
                        if pre.spec_is_member(other) {
                            let j = choose|j: int|
                                0 <= j < old_seq.len() && old_seq[j].net_id == other;
                            if j < i as int {
                                assert(new_seq[j].net_id == other);
                            } else {
                                assert(j != i as int);
                                assert(new_seq[j - 1].net_id == other);
                            }
                        }
                        if self.spec_is_member(other) {
                            let j = choose|j: int|
                                0 <= j < new_seq.len() && new_seq[j].net_id == other;
                            if j < i as int {
                                assert(old_seq[j].net_id == other);
                            } else {
                                assert(old_seq[j + 1].net_id == other);
                            }
                        }
                    }
                    assert forall|other: u64|
                        other != net_id && pre.spec_is_member(other) implies self.spec_membership(
                        other,
                    ) == pre.spec_membership(other) by {
                        let j = choose|j: int|
                            0 <= j < old_seq.len() && old_seq[j].net_id == other;
                        pre.lemma_member_at(j, other);
                        if j < i as int {
                            assert(new_seq[j].net_id == other);
                            self.lemma_member_at(j, other);
                        } else {
                            assert(j != i as int);
                            assert(new_seq[j - 1].net_id == other);
                            self.lemma_member_at(j - 1, other);
                        }
                    }
                }
                Ok(())
            },
            None => {
                Ok(())
            },
        }
    }

    /// Records the engine's answer to a transport-ready poll for a joined
    /// network; an unknown network changes nothing.
    pub fn note_transport_ready(&mut self, net_id: u64, ready: bool)
        requires
            old(self).wf(),
        ensures
            final(self).wf(),
            final(self).stage == old(self).stage,
            final(self).online == old(self).online,
            !old(self).spec_is_member(net_id) ==> *final(self) == *old(self),
            old(self).spec_is_member(net_id) ==> final(self).spec_is_member(net_id) && final(self).spec_membership(net_id) == (NetworkMembership {
                transport_ready: ready,
                ..old(self).spec_membership(net_id)
            }),
            forall|other: u64|
                other != net_id ==> final(self).spec_is_member(other) == old(self).spec_is_member(
                    other,
                ),
            forall|other: u64|
                other != net_id && old(self).spec_is_member(other) ==> final(self).spec_membership(
                    other,
                ) == old(self).spec_membership(other),
    {
        let ghost pre = *self;
        match self.find_network(net_id) {
            Some(i) => {
                let m = self.networks[i];
                self.networks[i] = NetworkMembership {
                    net_id: m.net_id,
                    transport_ready: ready,
                    addr: m.addr,
                };
                proof {
                    self.lemma_update_membership(pre, i as int, net_id);
                }
            },
            None => {},
        }
    }

    /// Records the address the engine assigned on a joined network; an
    /// unknown network changes nothing.
    pub fn note_addr_assigned(&mut self, net_id: u64, addr: NetworkAddress)
        requires
            old(self).wf(),
        ensures
            final(self).wf(),
            final(self).stage == old(self).stage,
            final(self).online == old(self).online,
            !old(self).spec_is_member(net_id) ==> *final(self) == *old(self),
            old(self).spec_is_member(net_id) ==> final(self).spec_is_member(net_id) && final(self).spec_membership(net_id) == (NetworkMembership {
                addr: Some(addr),
                ..old(self).spec_membership(net_id)
            }),
            forall|other: u64|
                other != net_id ==> final(self).spec_is_member(other) == old(self).spec_is_member(
                    other,
                ),
            forall|other: u64|
                other != net_id && old(self).spec_is_member(other) ==> final(self).spec_membership(
                    other,
                ) == old(self).spec_membership(other),
    {
        let ghost pre = *self;
        match self.find_network(net_id) {
            Some(i) => {
                let m = self.networks[i];
                self.networks[i] = NetworkMembership {
                    net_id: m.net_id,
                    transport_ready: m.transport_ready,
                    addr: Some(addr),
                };
                proof {
                    self.lemma_update_membership(pre, i as int, net_id);
                }
            },
            None => {},
        }
    }

    /// After updating the membership at a known index in place, keeping
    /// its identifier, the invariant holds and every other membership is
    /// untouched.
    proof fn lemma_update_membership(&self, pre: ZeroTierNode, i: int, net_id: u64)
        requires
            pre.wf(),
            0 <= i < pre.networks@.len(),
            pre.networks@[i].net_id == net_id,
            self.networks@.len() == pre.networks@.len(),
            self.networks@ == pre.networks@.update(i, self.networks@[i]),
            self.networks@[i].net_id == net_id,
            self.stage == pre.stage,
            self.online == pre.online,
        ensures
            self.wf(),
            self.spec_is_member(net_id),
            self.spec_membership(net_id) == self.networks@[i],
            pre.spec_membership(net_id) == pre.networks@[i],
            forall|other: u64|
                other != net_id ==> self.spec_is_member(other) == pre.spec_is_member(other),
            forall|other: u64|
                other != net_id && pre.spec_is_member(other) ==> self.spec_membership(other)
                    == pre.spec_membership(other),
    {
        assert forall|a: int, b: int|
            0 <= a < self.networks@.len() && 0 <= b < self.networks@.len() && a
                != b implies self.networks@[a].net_id != self.networks@[b].net_id by {
            assert(self.networks@[a].net_id == pre.networks@[a].net_id);
            assert(self.networks@[b].net_id == pre.networks@[b].net_id);
        }
        self.lemma_member_at(i, net_id);
        pre.lemma_member_at(i, net_id);
        assert forall|other: u64| other != net_id implies self.spec_is_member(other)
            == pre.spec_is_member(other) by {
            assert(forall|k: int|
                0 <= k < self.networks@.len() ==> self.networks@[k].net_id
                    == pre.networks@[k].net_id);
        }
        assert forall|other: u64|
            other != net_id && pre.spec_is_member(other) implies self.spec_membership(other)
            == pre.spec_membership(other) by {
            let j = choose|j: int|
                0 <= j < pre.networks@.len() && pre.networks@[j].net_id == other;
            pre.lemma_member_at(j, other);
            assert(self.networks@[j].net_id == other);
            self.lemma_member_at(j, other);
            assert(j != i);
        }
    }

    /// Whether the given network's transport has been observed usable;
    /// a non-blocking poll of recorded state.
    pub fn net_transport_is_ready(&self, net_id: u64) -> (r: bool)
        ensures
            r == self.spec_transport_ready(net_id),
    {
        if !(matches!(self.stage, LifecycleStage::Started) && self.online) {
            return false;
        }
        let n = self.networks.len();
        let mut i: usize = 0;
        while i < n
            invariant
                n == self.networks@.len(),
                i <= n,
                self.stage is Started && self.online,
                forall|j: int|
                    0 <= j < i ==> !(self.networks@[j].net_id == net_id
                        && self.networks@[j].transport_ready),
            decreases n - i,
        {
            if self.networks[i].net_id == net_id && self.networks[i].transport_ready {
                proof {
                    assert(self.networks@[i as int].net_id == net_id
                        && self.networks@[i as int].transport_ready);
                }
                return true;
            }
            i = i + 1;
        }
        false
    }

    /// The address assigned on the given network, or
    /// `NoAddressAssignedError` while the engine has not completed
    /// address assignment there.
    pub fn addr_get(&self, net_id: u64) -> (r: Result<NetworkAddress, SocketError>)
        requires
            self.wf(),
        ensures
            r == (match self.spec_assigned_addr(net_id) {
                Some(a) => Ok::<NetworkAddress, SocketError>(a),
                None => Err::<NetworkAddress, SocketError>(SocketError::NoAddressAssignedError),
            }),
    {
        match self.find_network(net_id) {
            Some(i) => {
                proof {
                    self.lemma_member_at(i as int, net_id);
                }
                match self.networks[i].addr {
                    Some(a) => Ok(a),
                    None => Err(SocketError::NoAddressAssignedError),
                }
            },
            None => Err(SocketError::NoAddressAssignedError),
        }
    }
}

/// What requesting a socket under a node yields: before the lifecycle is
/// ready on the relevant network the request fails with `LifecycleError`,
/// deterministically; once ready, the engine's handle decides as in
/// [`Socket::new`].
pub open spec fn spec_open_socket(n: ZeroTierNode, net_id: u64, fd: i32) -> Result<
    Socket,
    SocketError,
> {
    if !n.spec_transport_ready(net_id) {
        Err(SocketError::LifecycleError)
    } else if fd < 0 {
        Err(SocketError::SocketCreateError)
    } else {
        Ok(Socket { fd })
    }
}

impl ZeroTierNode {
    /// Guards socket creation with the lifecycle: a socket is handed out only
    /// when the relevant network's transport is ready, and then owns the
    /// engine handle it was given.
    pub fn open_socket(&self, net_id: u64, fd: i32) -> (r: Result<Socket, SocketError>)
        requires
            self.wf(),
        ensures
            r == spec_open_socket(*self, net_id, fd),
    {
        if !self.net_transport_is_ready(net_id) {
            Err(SocketError::LifecycleError)
        } else if fd < 0 {
            Err(SocketError::SocketCreateError)
        } else {
            Ok(Socket { fd })
        }
    }
}

/// Any socket request made before the lifecycle has reached the ready
/// state on the relevant network fails deterministically with
/// `LifecycleError` — it neither hangs nor silently succeeds, whatever
/// handle value is offered.
pub proof fn lemma_socket_requires_ready(n: ZeroTierNode, net_id: u64, fd: i32)
    requires
        !n.spec_transport_ready(net_id),
    ensures
        spec_open_socket(n, net_id, fd) == Err::<Socket, SocketError>(SocketError::LifecycleError),
{
}

} // verus!
