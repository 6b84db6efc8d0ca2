//! The state machine that keeps the state of every peer of one custom
//! protocol in step with the user, the transport and the connection handlers.

use vstd::prelude::*;
use crate::address::{ConnectedPoint, Multiaddr};
use crate::clock::{instant_after, instant_max, Clock};
use crate::custom_proto::queue::ActionQueue;
use crate::custom_proto::state::{
    Action, CloseReason, CustomProtoHandlerIn, CustomProtoHandlerOut, CustomProtoOut,
    IncomingIndex, Instant, PeerState, ProtocolId, ProtocolMessage, BAN_MILLIS,
    CLOGGED_SAMPLES,
};
use crate::custom_proto::table::{lemma_row_unique, row_of, PeerEntry, PeerTable};
use crate::custom_proto::transitions::{
    after_dial, after_input, after_node_event, apply_step, clogged_samples,
    disconnect_inner_step, front, popped, sample_of, tick_actions, tick_actions_upto, tick_rows,
    ticked, Input, ProtoModel,
};
use crate::identity::PeerId;

verus! {

/// A protocol and the wire versions that are accepted for it.
#[derive(Debug)]
pub struct RegisteredProtocol {
    id: ProtocolId,
    supported_versions: Vec<u8>,
}

impl RegisteredProtocol {
    /// The identifier of the protocol.
    pub closed spec fn spec_id(&self) -> ProtocolId {
        self.id
    }

    /// The accepted versions.
    pub closed spec fn spec_versions(&self) -> Seq<u8> {
        self.supported_versions@
    }

    /// Registers a protocol with its accepted versions.
    pub fn new(protocol: ProtocolId, versions: Vec<u8>) -> (p: RegisteredProtocol)
        ensures
            p.spec_id() == protocol,
            p.spec_versions() == versions@,
    {
        RegisteredProtocol { id: protocol, supported_versions: versions }
    }

    /// The identifier of the protocol.
    #[verifier::when_used_as_spec(spec_id)]
    pub fn id(&self) -> (id: ProtocolId)
        ensures
            id == self.spec_id(),
    {
        self.id
    }

    /// True where `version` is accepted.
    pub fn supports(&self, version: u8) -> (b: bool)
        ensures
            b == self.spec_versions().contains(version),
    {
        let mut i: usize = 0;
        while i < self.supported_versions.len()
            invariant
                i <= self.supported_versions@.len(),
                forall|k: int| 0 <= k < i ==> self.supported_versions@[k] != version,
            decreases self.supported_versions@.len() - i,
        {
            if self.supported_versions[i] == version {
                return true;
            }
            i += 1;
        }
        false
    }
}

/// True where one of the first `n` rows holds `p` with an open substream.
pub open spec fn open_before(rows: Seq<PeerEntry>, n: int, p: PeerId) -> bool {
    exists|r: int| 0 <= r < n && (#[trigger] rows[r]).id == p && rows[r].state.spec_is_open()
}

/// State machine of one custom protocol: the state of every peer, the actions
/// waiting to be handed out, and the index of the next incoming connection.
#[derive(Debug)]
pub struct CustomProto {
    protocol: RegisteredProtocol,
    peers: PeerTable,
    next_incoming_index: IncomingIndex,
    events: ActionQueue,
    clock: Clock,
}

impl View for CustomProto {
    type V = ProtoModel;

    closed spec fn view(&self) -> ProtoModel {
        ProtoModel {
            rows: self.peers.rows(),
            events: self.events@,
            next_incoming_index: self.next_incoming_index.0,
            protocol_id: self.protocol.spec_id(),
        }
    }
}

impl CustomProto {
    /// The table of peers is in order within.
    pub closed spec fn inv(&self) -> bool {
        self.peers.wf()
    }

    /// The invariant: no peer has two entries, and the table is in order
    /// within.
    pub open spec fn wf(&self) -> bool {
        self@.wf() && self.inv()
    }

    /// A state machine for `protocol` that knows no peer and has nothing
    /// queued.
    pub fn new(protocol: RegisteredProtocol) -> (p: CustomProto)
        ensures
            p.wf(),
            p@ == (ProtoModel {
                rows: Seq::empty(),
                events: Seq::empty(),
                next_incoming_index: 0,
                protocol_id: protocol.spec_id(),
            }),
    {
        CustomProto {
            protocol,
            peers: PeerTable::new(),
            next_incoming_index: IncomingIndex(0),
            events: ActionQueue::new(),
            clock: Clock::new(),
        }
    }

    /// The identifier of the protocol.
    pub fn id(&self) -> (id: ProtocolId)
        ensures
            id == self@.protocol_id,
    {
        self.protocol.id()
    }

    /// The protocols served: the one of this state machine.
    pub fn protocol_ids(&self) -> (ids: Vec<ProtocolId>)
        ensures
            ids@ == seq![self@.protocol_id],
    {
        let mut ids: Vec<ProtocolId> = Vec::new();
        ids.push(self.protocol.id());
        assert(ids@ =~= seq![self@.protocol_id]);
        ids
    }

    /// The index that the next incoming connection gets.
    pub fn next_incoming_index(&self) -> (i: IncomingIndex)
        ensures
            i.0 == self@.next_incoming_index,
    {
        self.next_incoming_index
    }

    /// The state of a peer, `None` where it has no entry.
    pub fn peer_state(&self, peer_id: &PeerId) -> (st: Option<PeerState>)
        requires
            self.wf(),
        ensures
            st == self@.state(*peer_id),
    {
        self.peers.get(*peer_id)
    }

    /// Number of actions waiting to be handed out, held at `usize::MAX`
    /// beyond it.
    pub fn pending_actions(&self) -> (n: usize)
        ensures
            n == (if self@.events.len() > usize::MAX {
                usize::MAX as int
            } else {
                self@.events.len() as int
            }),
    {
        self.events.len()
    }

    /// The connected point of a peer that has a connection.
    pub fn peer_endpoint(&self, source: &PeerId) -> (e: Option<ConnectedPoint>)
        requires
            self.wf(),
        ensures
            e == (match self@.state(*source) {
                Some(s) => s.spec_endpoint(),
                None => None,
            }),
    {
        match self.peers.get(*source) {
            Some(s) => s.endpoint(),
            None => None,
        }
    }

    /// True where a protocol substream is open with the peer.
    pub fn is_open(&self, peer_id: &PeerId) -> (b: bool)
        requires
            self.wf(),
        ensures
            b == (self@.state(*peer_id) is Some && self@.state(*peer_id)->0.spec_is_open()),
    {
        match self.peers.get(*peer_id) {
            Some(s) => s.is_open(),
            None => false,
        }
    }

    /// True where the handler of the peer is enabled.
    pub fn is_enabled(&self, peer_id: &PeerId) -> (b: bool)
        requires
            self.wf(),
        ensures
            b == (self@.state(*peer_id) is Some && self@.state(*peer_id)->0.spec_is_enabled()),
    {
        match self.peers.get(*peer_id) {
            Some(s) => s.is_enabled(),
            None => false,
        }
    }

    /// The peers with an open protocol substream, each once, in table order.
    pub fn open_peers(&self) -> (open: Vec<PeerId>)
        requires
            self.wf(),
        ensures
            forall|p: PeerId|
                open@.contains(p) <==> (#[trigger] self@.state(p) is Some && self@.state(
                    p,
                )->0.spec_is_open()),
            forall|i: int, j: int| 0 <= i < j < open@.len() ==> open@[i] != open@[j],
    {
        let mut open: Vec<PeerId> = Vec::new();
        let n = self.peers.len();
        let mut i: usize = 0;
        let ghost rows = self.peers.rows();
        while i < n
            invariant
                self.wf(),
                rows == self.peers.rows(),
                n == rows.len(),
                i <= n,
                forall|k: int|
                    0 <= k < open@.len() ==> open_before(rows, i as int, #[trigger] open@[k]),
                forall|p: PeerId| #[trigger] open_before(rows, i as int, p) ==> open@.contains(p),
                forall|a: int, b: int| 0 <= a < b < open@.len() ==> open@[a] != open@[b],
            decreases n - i,
        {
            let row = self.peers.row(i);
            let ghost before = open@;
            if row.state.is_open() {
                proof {
                    assert forall|a: int| 0 <= a < open@.len() implies open@[a] != row.id by {
                        assert(open_before(rows, i as int, open@[a]));
                    }
                }
                open.push(row.id);
            }
            proof {
                assert forall|k: int| 0 <= k < open@.len() implies open_before(
                    rows,
                    i + 1,
                    #[trigger] open@[k],
                ) by {
                    if k < before.len() {
                        assert(open_before(rows, i as int, before[k]));
                        let r = choose|r: int|
                            0 <= r < i && (#[trigger] rows[r]).id == before[k]
                                && rows[r].state.spec_is_open();
                        assert(0 <= r < i + 1 && rows[r].id == open@[k]);
                    } else {
                        assert(rows[i as int].id == open@[k]);
                    }
                }
                assert forall|p: PeerId| #[trigger] open_before(rows, i + 1, p) implies open@.contains(
                    p,
                ) by {
                    let r = choose|r: int|
                        0 <= r < i + 1 && (#[trigger] rows[r]).id == p
                            && rows[r].state.spec_is_open();
                    if r < i {
                        assert(open_before(rows, i as int, p));
                        assert(before.contains(p));
                        let w = choose|w: int| 0 <= w < before.len() && before[w] == p;
                        assert(open@[w] == p);
                    } else {
                        assert(open@[before.len() as int] == p);
                    }
                }
            }
            i += 1;
        }
        proof {
            assert forall|p: PeerId|
                open@.contains(p) <==> (#[trigger] self@.state(p) is Some && self@.state(
                    p,
                )->0.spec_is_open()) by {
                if open@.contains(p) {
                    let k = choose|k: int| 0 <= k < open@.len() && open@[k] == p;
                    assert(open_before(rows, n as int, open@[k]));
                    let r = choose|r: int|
                        0 <= r < n && (#[trigger] rows[r]).id == p && rows[r].state.spec_is_open();
                    lemma_row_unique(rows, r);
                }
                if self@.state(p) is Some && self@.state(p)->0.spec_is_open() {
                    let r = row_of(rows, p);
                    assert(rows[r].state.spec_is_open());
                    assert(open_before(rows, n as int, p));
                }
            }
        }
        open
    }

    /// Queues a dial of an address. No entry changes.
    pub fn requested_dial(&mut self, address: Multiaddr)
        requires
            old(self).wf(),
        ensures
            final(self).wf(),
            final(self)@ == after_dial(old(self)@, address),
    {
        self.events.push(Action::DialAddress { address });
    }

    /// Queues a dial of an address. No entry changes.
    pub fn connect(&mut self, multiaddr: &Multiaddr)
        requires
            old(self).wf(),
        ensures
            final(self).wf(),
            final(self)@ == after_dial(old(self)@, *multiaddr),
    {
        self.requested_dial(*multiaddr);
    }

    /// The user asks to connect to a peer, at time `now`.
    pub fn requested_connect(&mut self, peer_id: PeerId, now: Instant)
        requires
            old(self).wf(),
        ensures
            final(self).wf(),
            final(self)@ == after_input(old(self)@, peer_id, Input::Connect, now),
    {
        let ghost m = self@;
        match self.peers.get(peer_id) {
            None => {
                self.events.push(Action::DialPeer { peer_id });
                self.peers.set(peer_id, PeerState::Requested);
            },
            Some(PeerState::Banned { until, initiator }) => {
                if until > now {
                    self.peers.set(peer_id, PeerState::PendingRequest { deadline: until });
                } else {
                    self.events.push(Action::DialPeer { peer_id });
                    self.peers.set(peer_id, PeerState::Requested);
                }
            },
            Some(PeerState::Disabled { connected_point, open, banned_until }) => {
                let still_banned = match banned_until {
                    Some(banned) => banned > now,
                    None => false,
                };
                if still_banned {
                    let deadline = match banned_until {
                        Some(banned) => banned,
                        None => now,
                    };
                    self.peers.set(
                        peer_id,
                        PeerState::DisabledPendingEnable { connected_point, open, deadline },
                    );
                } else {
                    self.events.push(
                        Action::SendEvent {
                            peer_id,
                            event: CustomProtoHandlerIn::Enable(connected_point.endpoint()),
                        },
                    );
                    self.peers.set(peer_id, PeerState::Enabled { connected_point, open });
                }
            },
            Some(_) => {},
        }
        assert(self@.events =~= after_input(m, peer_id, Input::Connect, now).events);
    }

    /// The user asks to connect to a peer. The clock is read once, and the
    /// request is handled as `requested_connect` handles it at that time.
    pub fn connect_to_peer(&mut self, peer_id: &PeerId)
        requires
            old(self).wf(),
        ensures
            final(self).wf(),
            exists|now: Instant|
                final(self)@ == #[trigger] after_input(old(self)@, *peer_id, Input::Connect, now),
    {
        let now = self.clock.now();
        self.requested_connect(*peer_id, now);
    }

    /// The user asks to drop a peer, without forbidding a new connection.
    pub fn requested_disconnect(&mut self, peer_id: PeerId)
        requires
            old(self).wf(),
        ensures
            final(self).wf(),
            forall|now: Instant|
                final(self)@ == #[trigger] after_input(
                    old(self)@,
                    peer_id,
                    Input::Disconnect,
                    now,
                ),
    {
        let ghost m = self@;
        match self.peers.get(peer_id) {
            Some(PeerState::DisabledPendingEnable { connected_point, open, deadline }) => {
                self.peers.set(
                    peer_id,
                    PeerState::Disabled { connected_point, open, banned_until: Some(deadline) },
                );
            },
            Some(PeerState::Enabled { connected_point, open }) => {
                self.events.push(
                    Action::SendEvent { peer_id, event: CustomProtoHandlerIn::Disable },
                );
                self.peers.set(
                    peer_id,
                    PeerState::Disabled { connected_point, open, banned_until: None },
                );
            },
            Some(PeerState::Requested) => {
                self.peers.remove(peer_id);
            },
            Some(PeerState::PendingRequest { deadline }) => {
                self.peers.set(peer_id, PeerState::Banned { until: deadline, initiator: true });
            },
            _ => {},
        }
        assert(self@.events =~= after_input(m, peer_id, Input::Disconnect, 0).events);
    }

    /// The user asks to drop a peer of this protocol.
    pub fn disconnect_peer(&mut self, peer_id: &PeerId, protocol_id: &ProtocolId)
        requires
            old(self).wf(),
        ensures
            final(self).wf(),
            forall|now: Instant|
                final(self)@ == #[trigger] after_input(
                    old(self)@,
                    *peer_id,
                    Input::Disconnect,
                    now,
                ),
    {
        self.requested_disconnect(*peer_id);
    }

    /// Drops a peer on the state machine's own account, with a ban of `ban`
    /// milliseconds from `now` where one is given.
    pub fn disconnect_peer_inner(&mut self, peer_id: &PeerId, ban: Option<u64>, now: Instant)
        requires
            old(self).wf(),
        ensures
            final(self).wf(),
            final(self)@ == apply_step(
                old(self)@,
                *peer_id,
                disconnect_inner_step(*peer_id, old(self)@.state(*peer_id), ban, now),
            ),
    {
        let ghost m = self@;
        let peer_id = *peer_id;
        match self.peers.get(peer_id) {
            Some(PeerState::DisabledPendingEnable { connected_point, open, deadline }) => {
                let until = match ban {
                    Some(d) => instant_max(deadline, instant_after(now, d)),
                    None => deadline,
                };
                self.peers.set(
                    peer_id,
                    PeerState::Disabled { connected_point, open, banned_until: Some(until) },
                );
            },
            Some(PeerState::Enabled { connected_point, open }) => {
                self.events.push(
                    Action::SendEvent { peer_id, event: CustomProtoHandlerIn::Disable },
                );
                let banned_until = match ban {
                    Some(d) => Some(instant_after(now, d)),
                    None => None,
                };
                self.peers.set(
                    peer_id,
                    PeerState::Disabled { connected_point, open, banned_until },
                );
            },
            _ => {},
        }
        assert(self@.events =~= m.events + disconnect_inner_step(
            peer_id,
            m.state(peer_id),
            ban,
            now,
        ).actions);
    }

    /// The user hands in a message for a peer of this protocol: it is queued
    /// for the handler where the protocol is open, and dropped otherwise.
    pub fn send_message(
        &mut self,
        peer_id: &PeerId,
        protocol_id: &ProtocolId,
        message: ProtocolMessage,
    )
        requires
            old(self).wf(),
        ensures
            final(self).wf(),
            forall|now: Instant|
                final(self)@ == #[trigger] after_input(
                    old(self)@,
                    *peer_id,
                    Input::Send(message),
                    now,
                ),
    {
        let ghost m = self@;
        if !self.is_open(peer_id) {
            assert(self@.events =~= after_input(m, *peer_id, Input::Send(message), 0).events);
            return ;
        }
        self.events.push(
            Action::SendEvent {
                peer_id: *peer_id,
                event: CustomProtoHandlerIn::SendCustomMessage { message },
            },
        );
        assert(self@.events =~= after_input(m, *peer_id, Input::Send(message), 0).events);
    }

    /// The transport reports a connection to a peer.
    pub fn inject_connected(&mut self, peer_id: PeerId, connected_point: ConnectedPoint)
        requires
            old(self).wf(),
        ensures
            final(self).wf(),
            forall|now: Instant|
                final(self)@ == #[trigger] after_input(
                    old(self)@,
                    peer_id,
                    Input::Connected(connected_point),
                    now,
                ),
    {
        let ghost m = self@;
        let enable = Action::SendEvent {
            peer_id,
            event: CustomProtoHandlerIn::Enable(connected_point.endpoint()),
        };
        let enabled = PeerState::Enabled { connected_point, open: false };
        match self.peers.get(peer_id) {
            Some(PeerState::Requested) | Some(PeerState::PendingRequest { .. }) => {
                self.events.push(enable);
                self.peers.set(peer_id, enabled);
            },
            None | Some(PeerState::Banned { .. }) => {
                if connected_point.is_dialer() {
                    self.events.push(enable);
                    self.peers.set(peer_id, enabled);
                } else {
                    match self.next_incoming_index.0.checked_add(1) {
                        Some(v) => {
                            self.next_incoming_index = IncomingIndex(v);
                            self.events.push(enable);
                            self.peers.set(peer_id, enabled);
                        },
                        None => {},
                    }
                }
            },
            Some(_) => {},
        }
        assert(self@.events =~= after_input(
            m,
            peer_id,
            Input::Connected(connected_point),
            0,
        ).events);
    }

    /// The transport reports that the connection to a peer is gone.
    pub fn inject_disconnected(&mut self, peer_id: &PeerId, endpoint: ConnectedPoint)
        requires
            old(self).wf(),
        ensures
            final(self).wf(),
            forall|now: Instant|
                final(self)@ == #[trigger] after_input(
                    old(self)@,
                    *peer_id,
                    Input::Disconnected,
                    now,
                ),
    {
        let ghost m = self@;
        let peer_id = *peer_id;
        match self.peers.get(peer_id) {
            None => {},
            Some(PeerState::Disabled { connected_point, open, banned_until }) => {
                match banned_until {
                    Some(until) => {
                        self.peers.set(
                            peer_id,
                            PeerState::Banned { until, initiator: connected_point.is_dialer() },
                        );
                    },
                    None => {
                        self.peers.remove(peer_id);
                    },
                }
                if open {
                    self.events.push(
                        Action::GenerateEvent(
                            CustomProtoOut::CustomProtocolClosed {
                                peer_id,
                                endpoint: connected_point,
                                reason: CloseReason::Disconnected,
                            },
                        ),
                    );
                }
            },
            Some(PeerState::DisabledPendingEnable { connected_point, open, deadline }) => {
                self.peers.set(
                    peer_id,
                    PeerState::Banned { until: deadline, initiator: connected_point.is_dialer() },
                );
                if open {
                    self.events.push(
                        Action::GenerateEvent(
                            CustomProtoOut::CustomProtocolClosed {
                                peer_id,
                                endpoint: connected_point,
                                reason: CloseReason::Disconnected,
                            },
                        ),
                    );
                }
            },
            Some(PeerState::Enabled { connected_point, open }) => {
                self.peers.remove(peer_id);
                if open {
                    self.events.push(
                        Action::GenerateEvent(
                            CustomProtoOut::CustomProtocolClosed {
                                peer_id,
                                endpoint: connected_point,
                                reason: CloseReason::Disconnected,
                            },
                        ),
                    );
                }
            },
            Some(_) => {
                self.peers.remove(peer_id);
            },
        }
        assert(self@.events =~= after_input(m, peer_id, Input::Disconnected, 0).events);
    }

    /// The transport reports that an address could not be reached. Nothing
    /// changes.
    pub fn inject_addr_reach_failure(&mut self, peer_id: Option<&PeerId>, addr: &Multiaddr)
        ensures
            final(self)@ == old(self)@,
            final(self).inv() == old(self).inv(),
    {
    }

    /// Discovered peers are of no concern to this state machine. Nothing
    /// changes.
    pub fn add_discovered_nodes(&mut self, peer_ids: Vec<PeerId>)
        ensures
            final(self)@ == old(self)@,
            final(self).inv() == old(self).inv(),
    {
    }

    /// The addresses that this state machine knows of a peer: none.
    pub fn addresses_of_peer(&mut self, peer_id: &PeerId) -> (addrs: Vec<Multiaddr>)
        ensures
            final(self)@ == old(self)@,
            final(self).inv() == old(self).inv(),
            addrs@ == Seq::<Multiaddr>::empty(),
    {
        Vec::new()
    }

    /// The transport reports at `now` that dialling a peer failed.
    pub fn inject_dial_failure_at(&mut self, peer_id: &PeerId, now: Instant)
        requires
            old(self).wf(),
        ensures
            final(self).wf(),
            final(self)@ == after_input(old(self)@, *peer_id, Input::DialFailure, now),
    {
        let ghost m = self@;
        let peer_id = *peer_id;
        match self.peers.get(peer_id) {
            Some(PeerState::Requested) | Some(PeerState::PendingRequest { .. }) => {
                self.peers.set(
                    peer_id,
                    PeerState::Banned { until: instant_after(now, BAN_MILLIS), initiator: true },
                );
            },
            _ => {},
        }
        assert(self@.events =~= after_input(m, peer_id, Input::DialFailure, now).events);
    }

    /// The transport reports that dialling a peer failed. The clock is read
    /// once, and the failure is handled as at that time.
    pub fn inject_dial_failure(&mut self, peer_id: &PeerId)
        requires
            old(self).wf(),
        ensures
            final(self).wf(),
            exists|now: Instant|
                final(self)@ == #[trigger] after_input(
                    old(self)@,
                    *peer_id,
                    Input::DialFailure,
                    now,
                ),
    {
        let now = self.clock.now();
        self.inject_dial_failure_at(peer_id, now);
    }

    /// The handler of a peer reports an event at `now`. Of the messages of a
    /// clogged report the first `CLOGGED_SAMPLES` are passed on.
    pub fn inject_node_event_at(
        &mut self,
        source: PeerId,
        event: CustomProtoHandlerOut,
        now: Instant,
    )
        requires
            old(self).wf(),
        ensures
            final(self).wf(),
            after_node_event(old(self)@, final(self)@, source, event, now),
    {
        let ghost m = self@;
        let ghost ev = event;
        let ghost none: Vec<ProtocolMessage> = arbitrary();
        let ghost after = after_input(m, source, Input::Node { event: ev, shown: none }, now);
        match event {
            CustomProtoHandlerOut::CustomProtocolClosed { reason } => {
                match self.peers.get(source) {
                    Some(PeerState::Enabled { connected_point, open }) => {
                        self.events.push(
                            Action::GenerateEvent(
                                CustomProtoOut::CustomProtocolClosed {
                                    peer_id: source,
                                    endpoint: connected_point,
                                    reason: CloseReason::Handler(reason),
                                },
                            ),
                        );
                        self.events.push(
                            Action::SendEvent {
                                peer_id: source,
                                event: CustomProtoHandlerIn::Disable,
                            },
                        );
                        self.peers.set(
                            source,
                            PeerState::Disabled {
                                connected_point,
                                open: false,
                                banned_until: None,
                            },
                        );
                    },
                    Some(PeerState::Disabled { connected_point, open, banned_until }) => {
                        self.events.push(
                            Action::GenerateEvent(
                                CustomProtoOut::CustomProtocolClosed {
                                    peer_id: source,
                                    endpoint: connected_point,
                                    reason: CloseReason::Handler(reason),
                                },
                            ),
                        );
                        self.peers.set(
                            source,
                            PeerState::Disabled { connected_point, open: false, banned_until },
                        );
                    },
                    Some(PeerState::DisabledPendingEnable { connected_point, open, deadline }) => {
                        self.events.push(
                            Action::GenerateEvent(
                                CustomProtoOut::CustomProtocolClosed {
                                    peer_id: source,
                                    endpoint: connected_point,
                                    reason: CloseReason::Handler(reason),
                                },
                            ),
                        );
                        self.peers.set(
                            source,
                            PeerState::DisabledPendingEnable {
                                connected_point,
                                open: false,
                                deadline,
                            },
                        );
                    },
                    _ => {},
                }
                assert(self@.events =~= after.events);
            },
            CustomProtoHandlerOut::CustomProtocolOpen { version } => {
                match self.peers.get(source) {
                    Some(PeerState::Enabled { connected_point, open }) => {
                        if !open {
                            self.peers.set(
                                source,
                                PeerState::Enabled { connected_point, open: true },
                            );
                            self.events.push(
                                Action::GenerateEvent(
                                    CustomProtoOut::CustomProtocolOpen {
                                        version,
                                        peer_id: source,
                                        endpoint: connected_point,
                                    },
                                ),
                            );
                        }
                    },
                    Some(PeerState::Disabled { connected_point, open, banned_until }) => {
                        if !open {
                            self.peers.set(
                                source,
                                PeerState::Disabled { connected_point, open: true, banned_until },
                            );
                            self.events.push(
                                Action::GenerateEvent(
                                    CustomProtoOut::CustomProtocolOpen {
                                        version,
                                        peer_id: source,
                                        endpoint: connected_point,
                                    },
                                ),
                            );
                        }
                    },
                    Some(PeerState::DisabledPendingEnable { connected_point, open, deadline }) => {
                        if !open {
                            self.peers.set(
                                source,
                                PeerState::DisabledPendingEnable {
                                    connected_point,
                                    open: true,
                                    deadline,
                                },
                            );
                            self.events.push(
                                Action::GenerateEvent(
                                    CustomProtoOut::CustomProtocolOpen {
                                        version,
                                        peer_id: source,
                                        endpoint: connected_point,
                                    },
                                ),
                            );
                        }
                    },
                    _ => {},
                }
                assert(self@.events =~= after.events);
            },
            CustomProtoHandlerOut::CustomMessage { message } => {
                match self.peer_endpoint(&source) {
                    Some(endpoint) => {
                        self.events.push(
                            Action::GenerateEvent(
                                CustomProtoOut::CustomMessage { peer_id: source, endpoint, message },
                            ),
                        );
                    },
                    None => {},
                }
                assert(self@.events =~= after.events);
            },
            CustomProtoHandlerOut::Clogged { messages } => {
                let ghost all = messages@;
                let mut shown = messages;
                if shown.len() > CLOGGED_SAMPLES {
                    shown.truncate(CLOGGED_SAMPLES);
                }
                assert(shown@ =~= clogged_samples(all));
                let ghost kept = shown;
                let ghost capped = after_input(
                    m,
                    source,
                    Input::Node { event: ev, shown: kept },
                    now,
                );
                self.events.push(
                    Action::GenerateEvent(
                        CustomProtoOut::Clogged { peer_id: source, messages: shown },
                    ),
                );
                assert(self@.events =~= capped.events);
                assert(sample_of(ev, kept) && self@ == capped);
                return ;
            },
            CustomProtoHandlerOut::ProtocolError { is_severe, error } => {
                if is_severe {
                    self.disconnect_peer_inner(&source, Some(BAN_MILLIS), now);
                } else {
                    assert(self@.events =~= after.events);
                }
            },
        }
        assert(sample_of(ev, none) && self@ == after);
    }

    /// The handler of a peer reports an event. The clock is read once, and the
    /// event is handled as at that time.
    pub fn inject_node_event(&mut self, source: PeerId, event: CustomProtoHandlerOut)
        requires
            old(self).wf(),
        ensures
            final(self).wf(),
            exists|now: Instant| #[trigger]
                after_node_event(old(self)@, final(self)@, source, event, now),
    {
        let now = self.clock.now();
        self.inject_node_event_at(source, event, now);
    }

    /// Looks at every timer at `now`, in table order, then hands out the
    /// oldest queued action, if there is one.
    pub fn poll_at(&mut self, now: Instant) -> (r: Option<Action>)
        requires
            old(self).wf(),
        ensures
            final(self).wf(),
            final(self)@ == popped(ticked(old(self)@, now)),
            r == front(ticked(old(self)@, now)),
    {
        let ghost m = self@;
        let n = self.peers.len();
        let mut i: usize = 0;
        while i < n
            invariant
                self.wf(),
                n == m.rows.len(),
                i <= n,
                self@.rows.len() == n,
                self@.next_incoming_index == m.next_incoming_index,
                self@.protocol_id == m.protocol_id,
                forall|k: int| 0 <= k < i ==> self@.rows[k] == tick_rows(m.rows, now)[k],
                forall|k: int| i <= k < n ==> self@.rows[k] == m.rows[k],
                self@.events == m.events + tick_actions_upto(m.rows, i as int, now),
            decreases n - i,
        {
            let row = self.peers.row(i);
            let ghost before = self@.events;
            match row.state {
                PeerState::PendingRequest { deadline } => {
                    if deadline > now {
                    } else {
                        self.events.push(Action::DialPeer { peer_id: row.id });
                        self.peers.set_row(i, PeerState::Requested);
                    }
                },
                PeerState::DisabledPendingEnable { connected_point, open, deadline } => {
                    if deadline > now {
                    } else {
                        self.events.push(
                            Action::SendEvent {
                                peer_id: row.id,
                                event: CustomProtoHandlerIn::Enable(connected_point.endpoint()),
                            },
                        );
                        self.peers.set_row(i, PeerState::Enabled { connected_point, open });
                    }
                },
                _ => {},
            }
            proof {
                assert(self@.events =~= before + tick_actions(row.id, row.state, now));
                assert(self@.events =~= m.events + tick_actions_upto(m.rows, i + 1, now));
                assert(self@.rows[i as int] == tick_rows(m.rows, now)[i as int]);
            }
            i += 1;
        }
        proof {
            assert(self@.rows =~= tick_rows(m.rows, now));
        }
        if !self.events.is_empty() {
            let a = self.events.pop_front();
            assert(self@.events =~= popped(ticked(m, now)).events);
            Some(a)
        } else {
            None
        }
    }

    /// Looks at every timer and hands out the oldest queued action, if there
    /// is one. The clock is read once, and the timers are judged at that time.
    pub fn poll(&mut self) -> (r: Option<Action>)
        requires
            old(self).wf(),
        ensures
            final(self).wf(),
            exists|now: Instant|
                final(self)@ == popped(#[trigger] ticked(old(self)@, now)) && r == front(
                    ticked(old(self)@, now),
                ),
    {
        let now = self.clock.now();
        self.poll_at(now)
    }
}

} // verus!
