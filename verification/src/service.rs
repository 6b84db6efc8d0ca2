//! The network service: the behaviour of the node together with the peer
//! registry, and the events that it reports.

use vstd::prelude::*;
use crate::address::{ConnectedPoint, Multiaddr};
use crate::clock::Clock;
use crate::custom_proto::state::{
    Action, CustomProtoHandlerOut, CustomProtoOut, Instant, ProtocolId, ProtocolMessage,
};
use crate::custom_proto::transitions::{after_dial, Input};
use crate::custom_proto::table::PeerEntry;
use crate::discovery::{
    discovery_after_poll, DiscoveryBehaviour, DiscoveryModel, KnownAddress, FIRST_QUERY_PAUSE,
};
use crate::identity::{KeyView, PeerId, PublicKey};
use crate::peers::manager::{
    allowed_at, block_of, blocked_after_allowed, PeerManager, RegistryModel,
};
use crate::protocol::{
    both_after, node_event_outcome, one_after, poll_after, poll_result, Protocol, ProtocolModel,
};

verus! {

/// Event produced by the service.
#[derive(Debug)]
pub enum ServiceEvent {
    /// A custom protocol substream was opened with a node.
    OpenedCustomProtocol {
        peer_id: PeerId,
        peer_pubkey: PublicKey,
        version: u8,
        endpoint: ConnectedPoint,
    },
    /// A custom protocol substream was closed.
    ClosedCustomProtocol { peer_id: PeerId, endpoint: ConnectedPoint },
    /// A message arrived on a custom protocol substream.
    CustomMessage { peer_id: PeerId, endpoint: ConnectedPoint, message: ProtocolMessage },
    /// The substream with a node is clogged; a copy of what waits in it.
    Clogged { peer_id: PeerId, messages: Vec<ProtocolMessage> },
}

/// What a poll of the service hands out.
#[derive(Debug)]
pub enum ServicePoll {
    /// An event for the owner of the service.
    Event(ServiceEvent),
    /// An action that the swarm is to carry out.
    Swarm(Action),
    /// A query for a random identity is to be launched.
    FindRandomNode,
    /// Nothing is ready.
    NotReady,
}

/// True where `r` is what the service reports for an event of the behaviour.
///
/// An opened protocol is reported with the public key of the peer, and is
/// not reported where the registry holds no key for it. Every other event is
/// reported as it is.
pub open spec fn lifts_to(
    out: CustomProtoOut,
    keys: Map<u64, KeyView>,
    r: Option<ServiceEvent>,
) -> bool {
    match out {
        CustomProtoOut::CustomProtocolOpen { version, peer_id, endpoint } => if keys.contains_key(
            peer_id.0,
        ) {
            r matches Some(
                ServiceEvent::OpenedCustomProtocol {
                    peer_id: p,
                    peer_pubkey: k,
                    version: v,
                    endpoint: e,
                },
            ) && p == peer_id && k@ == keys[peer_id.0] && v == version && e == endpoint
        } else {
            r is None
        },
        CustomProtoOut::CustomProtocolClosed { peer_id, endpoint, .. } => r matches Some(
            ServiceEvent::ClosedCustomProtocol { peer_id: p, endpoint: e },
        ) && p == peer_id && e == endpoint,
        CustomProtoOut::CustomMessage { peer_id, endpoint, message } => r matches Some(
            ServiceEvent::CustomMessage { peer_id: p, endpoint: e, message: m },
        ) && p == peer_id && e == endpoint && m == message,
        CustomProtoOut::Clogged { peer_id, messages } => r matches Some(
            ServiceEvent::Clogged { peer_id: p, messages: m },
        ) && p == peer_id && m == messages,
    }
}

/// Turns an event of the behaviour into an event of the service.
pub fn lift_event(out: CustomProtoOut, peer_manager: &PeerManager) -> (r: Option<ServiceEvent>)
    ensures
        lifts_to(out, peer_manager@.keys, r),
{
    match out {
        CustomProtoOut::CustomProtocolOpen { version, peer_id, endpoint } => {
            match peer_manager.get_key(&peer_id) {
                Some(peer_pubkey) => Some(
                    ServiceEvent::OpenedCustomProtocol { peer_id, peer_pubkey, version, endpoint },
                ),
                None => None,
            }
        },
        CustomProtoOut::CustomProtocolClosed { peer_id, endpoint, reason } => Some(
            ServiceEvent::ClosedCustomProtocol { peer_id, endpoint },
        ),
        CustomProtoOut::CustomMessage { peer_id, endpoint, message } => Some(
            ServiceEvent::CustomMessage { peer_id, endpoint, message },
        ),
        CustomProtoOut::Clogged { peer_id, messages } => Some(
            ServiceEvent::Clogged { peer_id, messages },
        ),
    }
}

/// The abstract state of the service.
pub struct ServiceModel {
    pub protocol: ProtocolModel,
    pub registry: RegistryModel,
    pub discovery: DiscoveryModel,
    /// Events put in by hand, which are reported before any other.
    pub injected: Seq<ServiceEvent>,
}

impl ServiceModel {
    /// The invariant of the service: those of its parts.
    pub open spec fn wf(self) -> bool {
        self.protocol.wf() && self.discovery.wf()
    }
}

/// The service after the user asked at `now` to connect to a peer: the
/// registry was asked, and the behaviour was asked where the peer is allowed.
pub open spec fn connect_after(m: ServiceModel, peer: PeerId, now: Instant) -> ServiceModel {
    ServiceModel {
        protocol: if allowed_at(m.registry.blocked, peer.0, now) {
            both_after(m.protocol, peer, Input::Connect, now)
        } else {
            m.protocol
        },
        registry: RegistryModel {
            keys: m.registry.keys,
            blocked: blocked_after_allowed(m.registry.blocked, peer.0, now),
        },
        discovery: m.discovery,
        injected: m.injected,
    }
}

/// True where `after` and `r` are the state and the outcome of a poll of the
/// service in state `m` at `now`.
///
/// An event put in by hand comes first. Else the behaviour is polled: its
/// event is reported as `lifts_to` says, or not at all where it is held
/// back; its action goes to the swarm. Where the behaviour has nothing, the
/// discovery timer is looked at.
pub open spec fn poll_outcome(
    m: ServiceModel,
    after: ServiceModel,
    r: ServicePoll,
    now: Instant,
) -> bool {
    if m.injected.len() > 0 {
        &&& r matches ServicePoll::Event(e)
        &&& e == m.injected[0]
        &&& after == (ServiceModel {
            injected: m.injected.subrange(1, m.injected.len() as int),
            ..m
        })
    } else {
        &&& after.protocol == poll_after(m.protocol, now)
        &&& after.registry == m.registry
        &&& after.injected == m.injected
        &&& match poll_result(m.protocol, now) {
            Some(Action::GenerateEvent(out)) => {
                &&& after.discovery == m.discovery
                &&& match r {
                    ServicePoll::Event(e) => lifts_to(out, m.registry.keys, Some(e)),
                    ServicePoll::NotReady => lifts_to(out, m.registry.keys, None),
                    _ => false,
                }
            },
            Some(other) => {
                &&& after.discovery == m.discovery
                &&& r matches ServicePoll::Swarm(a)
                &&& a == other
            },
            None => {
                &&& after.discovery == discovery_after_poll(m.discovery, now)
                &&& if now >= m.discovery.next_query {
                    r is FindRandomNode
                } else {
                    r is NotReady
                }
            },
        }
    }
}

/// Network service.
#[derive(Debug)]
pub struct Service {
    protocol: Protocol,
    discovery: DiscoveryBehaviour,
    peer_manager: PeerManager,
    injected_events: Vec<ServiceEvent>,
    local_peer_id: PeerId,
    clock: Clock,
}

impl View for Service {
    type V = ServiceModel;

    closed spec fn view(&self) -> ServiceModel {
        ServiceModel {
            protocol: self.protocol@,
            registry: self.peer_manager@,
            discovery: self.discovery@,
            injected: self.injected_events@,
        }
    }
}

impl Service {
    /// The tables of the state machines are in order within.
    pub closed spec fn inv(&self) -> bool {
        self.protocol.inv()
    }

    /// The invariant of the service.
    pub open spec fn wf(&self) -> bool {
        self@.wf() && self.inv()
    }

    /// The identity of the local node.
    pub closed spec fn spec_peer_id(&self) -> PeerId {
        self.local_peer_id
    }

    /// A service for the local node with nothing known and nothing waiting.
    /// Its clock starts now, and the first random query is due at once.
    pub fn new(local_peer_id: PeerId) -> (s: Service)
        ensures
            s.wf(),
            s.spec_peer_id() == local_peer_id,
            s@.injected == Seq::<ServiceEvent>::empty(),
            s@.protocol.events == Seq::<CustomProtoOut>::empty(),
            s@.protocol.p2p.rows == Seq::<PeerEntry>::empty(),
            s@.protocol.dof.rows == Seq::<PeerEntry>::empty(),
            s@.protocol.p2p.events == Seq::<Action>::empty(),
            s@.protocol.dof.events == Seq::<Action>::empty(),
            s@.protocol.p2p.next_incoming_index == 0,
            s@.protocol.dof.next_incoming_index == 0,
            s@.registry == (RegistryModel { keys: Map::empty(), blocked: Map::empty() }),
            s@.discovery == (DiscoveryModel {
                user_defined: Seq::empty(),
                next_query: 0,
                pause: FIRST_QUERY_PAUSE,
                local_peer_id,
            }),
    {
        Service {
            protocol: Protocol::new(),
            discovery: DiscoveryBehaviour::new(local_peer_id, 0),
            peer_manager: PeerManager::new(),
            injected_events: Vec::new(),
            local_peer_id,
            clock: Clock::new(),
        }
    }

    /// The identity of the local node.
    #[verifier::when_used_as_spec(spec_peer_id)]
    pub fn peer_id(&self) -> (id: PeerId)
        ensures
            id == self.spec_peer_id(),
    {
        self.local_peer_id
    }

    /// The time on the clock of the service.
    pub fn now(&self) -> (t: Instant) {
        self.clock.now()
    }

    /// Stores the public key of a peer that completed the secure handshake.
    pub fn add_peer_key(&mut self, peer_id: &PeerId, public_key: &PublicKey)
        ensures
            final(self).inv() == old(self).inv(),
            final(self)@ == (ServiceModel {
                registry: RegistryModel {
                    keys: old(self)@.registry.keys.insert(peer_id.0, public_key@),
                    blocked: old(self)@.registry.blocked,
                },
                ..old(self)@
            }),
            final(self).spec_peer_id() == old(self).spec_peer_id(),
    {
        self.peer_manager.add_key(peer_id, public_key);
    }

    /// The public key of a peer, `None` where none is stored.
    pub fn peer_key(&self, peer_id: &PeerId) -> (r: Option<PublicKey>)
        ensures
            match r {
                Some(k) => self@.registry.keys.contains_key(peer_id.0) && k@
                    == self@.registry.keys[peer_id.0],
                None => !self@.registry.keys.contains_key(peer_id.0),
            },
    {
        self.peer_manager.get_key(peer_id)
    }

    /// Blocks a peer at `now`: for `timeout` milliseconds where one is given,
    /// else until it is unblocked.
    pub fn block_peer_at(&mut self, peer_id: &PeerId, timeout: Option<u64>, now: Instant)
        ensures
            final(self).inv() == old(self).inv(),
            final(self)@ == (ServiceModel {
                registry: RegistryModel {
                    keys: old(self)@.registry.keys,
                    blocked: old(self)@.registry.blocked.insert(peer_id.0, block_of(timeout, now)),
                },
                ..old(self)@
            }),
            final(self).spec_peer_id() == old(self).spec_peer_id(),
    {
        self.peer_manager.block_at(peer_id, timeout, now);
    }

    /// Lifts the block of a peer and says whether there was one.
    pub fn unblock_peer(&mut self, peer_id: &PeerId) -> (r: bool)
        ensures
            final(self).inv() == old(self).inv(),
            r == old(self)@.registry.blocked.contains_key(peer_id.0),
            final(self)@ == (ServiceModel {
                registry: RegistryModel {
                    keys: old(self)@.registry.keys,
                    blocked: old(self)@.registry.blocked.remove(peer_id.0),
                },
                ..old(self)@
            }),
            final(self).spec_peer_id() == old(self).spec_peer_id(),
    {
        self.peer_manager.unblock(peer_id)
    }

    /// Adds an address for a peer that never expires.
    pub fn add_known_address(&mut self, peer_id: PeerId, addr: Multiaddr)
        requires
            old(self).wf(),
        ensures
            final(self).wf(),
            final(self)@ == (ServiceModel {
                discovery: DiscoveryModel {
                    user_defined: if old(self)@.discovery.user_defined.contains(
                        KnownAddress { peer: peer_id, address: addr },
                    ) {
                        old(self)@.discovery.user_defined
                    } else {
                        old(self)@.discovery.user_defined.push(
                            KnownAddress { peer: peer_id, address: addr },
                        )
                    },
                    ..old(self)@.discovery
                },
                ..old(self)@
            }),
            final(self).spec_peer_id() == old(self).spec_peer_id(),
    {
        self.discovery.add_known_address(peer_id, addr);
    }

    /// True where a substream of either protocol is open with the peer.
    pub fn is_open(&self, peer_id: &PeerId) -> (b: bool)
        requires
            self.wf(),
        ensures
            b == self@.protocol.is_open(*peer_id),
    {
        self.protocol.is_open(peer_id)
    }

    /// True where the handler of either protocol is enabled for the peer.
    pub fn is_enabled(&self, peer_id: &PeerId) -> (b: bool)
        requires
            self.wf(),
        ensures
            b == self@.protocol.is_enabled(*peer_id),
    {
        self.protocol.is_enabled(peer_id)
    }

    /// Queues a dial of an address.
    pub fn connect(&mut self, multiaddr: &Multiaddr)
        requires
            old(self).wf(),
        ensures
            final(self).wf(),
            final(self)@ == (ServiceModel {
                protocol: ProtocolModel {
                    p2p: after_dial(
                        old(self)@.protocol.p2p,
                        *multiaddr,
                    ),
                    dof: after_dial(
                        old(self)@.protocol.dof,
                        *multiaddr,
                    ),
                    events: old(self)@.protocol.events,
                },
                ..old(self)@
            }),
            final(self).spec_peer_id() == old(self).spec_peer_id(),
    {
        self.protocol.connect(multiaddr);
    }

    /// The user asks at `now` to connect to a peer. A blocked peer is not
    /// connected to; the answer says whether the peer is allowed.
    pub fn connect_to_peer_at(&mut self, peer_id: &PeerId, now: Instant) -> (allowed: bool)
        requires
            old(self).wf(),
        ensures
            final(self).wf(),
            allowed == allowed_at(old(self)@.registry.blocked, peer_id.0, now),
            final(self)@ == connect_after(old(self)@, *peer_id, now),
            final(self).spec_peer_id() == old(self).spec_peer_id(),
    {
        let allowed = self.peer_manager.allowed_at(peer_id, now);
        if allowed {
            self.protocol.connect_to_peer_at(peer_id, now);
        }
        allowed
    }

    /// The user asks to connect to a peer. The clock is read once, and the
    /// request is handled as at that time.
    pub fn connect_to_peer(&mut self, peer_id: &PeerId) -> (allowed: bool)
        requires
            old(self).wf(),
        ensures
            final(self).wf(),
            exists|now: Instant|
                final(self)@ == #[trigger] connect_after(old(self)@, *peer_id, now) && allowed
                    == allowed_at(old(self)@.registry.blocked, peer_id.0, now),
            final(self).spec_peer_id() == old(self).spec_peer_id(),
    {
        let now = self.clock.now();
        self.connect_to_peer_at(peer_id, now)
    }

    /// The user asks to drop a peer of one protocol. The closing is reported
    /// once it has happened.
    pub fn disconnect_from_peer(&mut self, peer_id: &PeerId, protocol_id: &ProtocolId)
        requires
            old(self).wf(),
        ensures
            final(self).wf(),
            forall|now: Instant|
                final(self)@ == (ServiceModel {
                    protocol: #[trigger] one_after(
                        old(self)@.protocol,
                        *protocol_id,
                        *peer_id,
                        Input::Disconnect,
                        now,
                    ),
                    ..old(self)@
                }),
            final(self).spec_peer_id() == old(self).spec_peer_id(),
    {
        self.protocol.disconnect_peer(peer_id, protocol_id);
    }

    /// Sends a message to a peer on a protocol. Nothing happens where the
    /// substream is not open or no such protocol is served.
    pub fn send_message(
        &mut self,
        protocol_id: &ProtocolId,
        peer_id: &PeerId,
        message: ProtocolMessage,
    )
        requires
            old(self).wf(),
        ensures
            final(self).wf(),
            forall|now: Instant|
                final(self)@ == (ServiceModel {
                    protocol: #[trigger] one_after(
                        old(self)@.protocol,
                        *protocol_id,
                        *peer_id,
                        Input::Send(message),
                        now,
                    ),
                    ..old(self)@
                }),
            final(self).spec_peer_id() == old(self).spec_peer_id(),
    {
        self.protocol.send_message(peer_id, protocol_id, message);
    }

    /// The transport reports a connection to a peer.
    pub fn inject_connected(&mut self, peer_id: PeerId, connected_point: ConnectedPoint)
        requires
            old(self).wf(),
        ensures
            final(self).wf(),
            forall|now: Instant|
                final(self)@ == (ServiceModel {
                    protocol: #[trigger] both_after(
                        old(self)@.protocol,
                        peer_id,
                        Input::Connected(connected_point),
                        now,
                    ),
                    ..old(self)@
                }),
            final(self).spec_peer_id() == old(self).spec_peer_id(),
    {
        self.protocol.inject_connected(peer_id, connected_point);
    }

    /// The transport reports that the connection to a peer is gone.
    pub fn inject_disconnected(&mut self, peer_id: &PeerId, endpoint: ConnectedPoint)
        requires
            old(self).wf(),
        ensures
            final(self).wf(),
            forall|now: Instant|
                final(self)@ == (ServiceModel {
                    protocol: #[trigger] both_after(
                        old(self)@.protocol,
                        *peer_id,
                        Input::Disconnected,
                        now,
                    ),
                    ..old(self)@
                }),
            final(self).spec_peer_id() == old(self).spec_peer_id(),
    {
        self.protocol.inject_disconnected(peer_id, endpoint);
    }

    /// The transport reports at `now` that dialling a peer failed.
    pub fn inject_dial_failure_at(&mut self, peer_id: &PeerId, now: Instant)
        requires
            old(self).wf(),
        ensures
            final(self).wf(),
            final(self)@ == (ServiceModel {
                protocol: both_after(old(self)@.protocol, *peer_id, Input::DialFailure, now),
                ..old(self)@
            }),
            final(self).spec_peer_id() == old(self).spec_peer_id(),
    {
        self.protocol.inject_dial_failure_at(peer_id, now);
    }

    /// The handler of a peer for a protocol reports an event at `now`.
    pub fn inject_node_event_at(
        &mut self,
        source: PeerId,
        protocol_id: &ProtocolId,
        event: CustomProtoHandlerOut,
        now: Instant,
    )
        requires
            old(self).wf(),
        ensures
            final(self).wf(),
            final(self)@ == (ServiceModel { protocol: final(self)@.protocol, ..old(self)@ }),
            node_event_outcome(
                old(self)@.protocol,
                final(self)@.protocol,
                *protocol_id,
                source,
                event,
                now,
            ),
            final(self).spec_peer_id() == old(self).spec_peer_id(),
    {
        self.protocol.inject_node_event_at(source, protocol_id, event, now);
    }

    /// Puts in an event that the next poll reports before any other.
    pub fn inject_service_event(&mut self, event: ServiceEvent)
        ensures
            final(self).inv() == old(self).inv(),
            final(self)@ == (ServiceModel {
                injected: old(self)@.injected.push(event),
                ..old(self)@
            }),
            final(self).spec_peer_id() == old(self).spec_peer_id(),
    {
        self.injected_events.push(event);
    }

    /// Polls the service at `now`.
    pub fn poll_at(&mut self, now: Instant) -> (r: ServicePoll)
        requires
            old(self).wf(),
        ensures
            final(self).wf(),
            poll_outcome(old(self)@, final(self)@, r, now),
            final(self).spec_peer_id() == old(self).spec_peer_id(),
    {
        if self.injected_events.len() > 0 {
            let e = self.injected_events.remove(0);
            assert(self@.injected =~= old(self)@.injected.subrange(
                1,
                old(self)@.injected.len() as int,
            ));
            return ServicePoll::Event(e);
        }
        match self.protocol.poll_at(now) {
            Some(Action::GenerateEvent(out)) => {
                match lift_event(out, &self.peer_manager) {
                    Some(e) => ServicePoll::Event(e),
                    None => ServicePoll::NotReady,
                }
            },
            Some(other) => ServicePoll::Swarm(other),
            None => {
                if self.discovery.poll_at(now) {
                    ServicePoll::FindRandomNode
                } else {
                    ServicePoll::NotReady
                }
            },
        }
    }

    /// Polls the service. The clock is read once, and the poll is that of
    /// `poll_at` at that time.
    pub fn poll(&mut self) -> (r: ServicePoll)
        requires
            old(self).wf(),
        ensures
            final(self).wf(),
            exists|now: Instant| #[trigger] poll_outcome(old(self)@, final(self)@, r, now),
            final(self).spec_peer_id() == old(self).spec_peer_id(),
    {
        let now = self.clock.now();
        self.poll_at(now)
    }
}

} // verus!
