//! The behaviour that serves several custom protocols at once: every query is
//! asked of each protocol, every transport report goes to each, and what
//! names a protocol goes to the one that serves it.

use vstd::prelude::*;
use crate::address::{ConnectedPoint, Multiaddr};
use crate::custom_proto::behaviour::{CustomProto, RegisteredProtocol};
use crate::custom_proto::state::{
    Action, CustomProtoHandlerOut, CustomProtoOut, Instant, ProtocolId, ProtocolMessage,
};
use crate::custom_proto::table::PeerEntry;
use crate::custom_proto::transitions::{
    after_dial, after_input, after_node_event, front, popped, ticked, Input, ProtoModel,
};
use crate::identity::PeerId;

verus! {

/// The bytes of the identifier of the peer-to-peer protocol: `p2p`.
pub open spec fn p2p_id() -> Seq<u8> {
    seq![0x70u8, 0x32u8, 0x70u8]
}

/// The bytes of the identifier of the demand-offer protocol: `dof`.
pub open spec fn dof_id() -> Seq<u8> {
    seq![0x64u8, 0x6fu8, 0x66u8]
}

/// The identifier of the peer-to-peer protocol.
pub fn p2p_protocol_id() -> (id: ProtocolId)
    ensures
        id@ == p2p_id(),
{
    let id: ProtocolId = [0x70u8, 0x32u8, 0x70u8];
    assert(id@ =~= p2p_id());
    id
}

/// The identifier of the demand-offer protocol.
pub fn dof_protocol_id() -> (id: ProtocolId)
    ensures
        id@ == dof_id(),
{
    let id: ProtocolId = [0x64u8, 0x6fu8, 0x66u8];
    assert(id@ =~= dof_id());
    id
}

/// Compares two protocol identifiers byte by byte.
pub fn same_protocol(a: &ProtocolId, b: &ProtocolId) -> (r: bool)
    ensures
        r == (a@ == b@),
{
    let r = a[0] == b[0] && a[1] == b[1] && a[2] == b[2];
    proof {
        if r {
            assert(a@ =~= b@);
        }
    }
    r
}

/// The abstract state of the behaviour.
pub struct ProtocolModel {
    /// The state machine of the peer-to-peer protocol.
    pub p2p: ProtoModel,
    /// The state machine of the demand-offer protocol.
    pub dof: ProtoModel,
    /// The events waiting to be reported, oldest first.
    pub events: Seq<CustomProtoOut>,
}

impl ProtocolModel {
    /// Both state machines hold at most one entry for each peer and serve
    /// their own protocol.
    pub open spec fn wf(self) -> bool {
        &&& self.p2p.wf()
        &&& self.dof.wf()
        &&& self.p2p.protocol_id@ == p2p_id()
        &&& self.dof.protocol_id@ == dof_id()
    }

    /// True where a substream of either protocol is open with the peer.
    pub open spec fn is_open(self, peer: PeerId) -> bool {
        (self.p2p.state(peer) is Some && self.p2p.state(peer)->0.spec_is_open()) || (self.dof.state(
            peer,
        ) is Some && self.dof.state(peer)->0.spec_is_open())
    }

    /// True where the handler of either protocol is enabled for the peer.
    pub open spec fn is_enabled(self, peer: PeerId) -> bool {
        (self.p2p.state(peer) is Some && self.p2p.state(peer)->0.spec_is_enabled()) || (
        self.dof.state(peer) is Some && self.dof.state(peer)->0.spec_is_enabled())
    }
}

/// The behaviour after an input went to both protocols.
pub open spec fn both_after(
    m: ProtocolModel,
    peer: PeerId,
    input: Input,
    now: Instant,
) -> ProtocolModel {
    ProtocolModel {
        p2p: after_input(m.p2p, peer, input, now),
        dof: after_input(m.dof, peer, input, now),
        events: m.events,
    }
}

/// The behaviour after an input went to the protocol that `id` names: to the
/// peer-to-peer protocol, else to the demand-offer protocol, else nowhere.
pub open spec fn one_after(
    m: ProtocolModel,
    id: ProtocolId,
    peer: PeerId,
    input: Input,
    now: Instant,
) -> ProtocolModel {
    if id@ == m.p2p.protocol_id@ {
        ProtocolModel { p2p: after_input(m.p2p, peer, input, now), dof: m.dof, events: m.events }
    } else if id@ == m.dof.protocol_id@ {
        ProtocolModel { p2p: m.p2p, dof: after_input(m.dof, peer, input, now), events: m.events }
    } else {
        m
    }
}

/// True where `after` is the behaviour after the handler of `peer` for the
/// protocol that `id` names reported `event` at `now`: the report went to the
/// peer-to-peer protocol, else to the demand-offer protocol, else nowhere,
/// and nothing else changed.
pub open spec fn node_event_outcome(
    m: ProtocolModel,
    after: ProtocolModel,
    id: ProtocolId,
    peer: PeerId,
    event: CustomProtoHandlerOut,
    now: Instant,
) -> bool {
    if id@ == m.p2p.protocol_id@ {
        &&& after_node_event(m.p2p, after.p2p, peer, event, now)
        &&& after.dof == m.dof
        &&& after.events == m.events
    } else if id@ == m.dof.protocol_id@ {
        &&& after_node_event(m.dof, after.dof, peer, event, now)
        &&& after.p2p == m.p2p
        &&& after.events == m.events
    } else {
        after == m
    }
}

/// The waiting events after a polled action was looked at: an event that a
/// protocol reports joins them.
pub open spec fn absorbed(events: Seq<CustomProtoOut>, a: Option<Action>) -> Seq<CustomProtoOut> {
    match a {
        Some(Action::GenerateEvent(e)) => events.push(e),
        _ => events,
    }
}

/// True where a polled action is one for the swarm: anything but a report.
pub open spec fn for_swarm(a: Option<Action>) -> bool {
    a is Some && !(a->0 is GenerateEvent)
}

/// What one poll at `now` hands out.
///
/// The peer-to-peer protocol is polled, then the demand-offer protocol. The
/// first action for the swarm is handed out at once. A report joins the
/// waiting events, and the oldest waiting event is handed out at the end.
pub open spec fn poll_result(m: ProtocolModel, now: Instant) -> Option<Action> {
    let a1 = front(ticked(m.p2p, now));
    let a2 = front(ticked(m.dof, now));
    let events = absorbed(absorbed(m.events, a1), a2);
    if for_swarm(a1) {
        a1
    } else if for_swarm(a2) {
        a2
    } else if events.len() > 0 {
        Some(Action::GenerateEvent(events[0]))
    } else {
        None
    }
}

/// The behaviour after one poll at `now`.
pub open spec fn poll_after(m: ProtocolModel, now: Instant) -> ProtocolModel {
    let a1 = front(ticked(m.p2p, now));
    let a2 = front(ticked(m.dof, now));
    let p2p = popped(ticked(m.p2p, now));
    let dof = popped(ticked(m.dof, now));
    let events = absorbed(absorbed(m.events, a1), a2);
    if for_swarm(a1) {
        ProtocolModel { p2p, dof: m.dof, events: m.events }
    } else if for_swarm(a2) {
        ProtocolModel { p2p, dof, events: absorbed(m.events, a1) }
    } else if events.len() > 0 {
        ProtocolModel { p2p, dof, events: events.subrange(1, events.len() as int) }
    } else {
        ProtocolModel { p2p, dof, events }
    }
}

/// The behaviour of the node: the peer-to-peer and the demand-offer protocol.
#[derive(Debug)]
pub struct Protocol {
    golem_p2p: CustomProto,
    golem_dof: CustomProto,
    events: Vec<CustomProtoOut>,
}

impl View for Protocol {
    type V = ProtocolModel;

    closed spec fn view(&self) -> ProtocolModel {
        ProtocolModel { p2p: self.golem_p2p@, dof: self.golem_dof@, events: self.events@ }
    }
}

impl Protocol {
    /// The tables of both state machines are in order within.
    pub closed spec fn inv(&self) -> bool {
        self.golem_p2p.inv() && self.golem_dof.inv()
    }

    /// The invariant of the behaviour.
    pub open spec fn wf(&self) -> bool {
        self@.wf() && self.inv()
    }

    /// A behaviour that serves both protocols in version 1, knows no peer
    /// and has nothing waiting.
    pub fn new() -> (p: Protocol)
        ensures
            p.wf(),
            p@.p2p.rows == Seq::<PeerEntry>::empty(),
            p@.dof.rows == Seq::<PeerEntry>::empty(),
            p@.p2p.events == Seq::<Action>::empty(),
            p@.dof.events == Seq::<Action>::empty(),
            p@.p2p.next_incoming_index == 0,
            p@.dof.next_incoming_index == 0,
            p@.events == Seq::<CustomProtoOut>::empty(),
    {
        let mut v1: Vec<u8> = Vec::new();
        v1.push(1u8);
        let mut v2: Vec<u8> = Vec::new();
        v2.push(1u8);
        Protocol {
            golem_p2p: CustomProto::new(RegisteredProtocol::new(p2p_protocol_id(), v1)),
            golem_dof: CustomProto::new(RegisteredProtocol::new(dof_protocol_id(), v2)),
            events: Vec::new(),
        }
    }

    /// The protocols served, the peer-to-peer protocol first.
    pub fn protocol_ids(&self) -> (ids: Vec<ProtocolId>)
        ensures
            ids@ == seq![self@.p2p.protocol_id, self@.dof.protocol_id],
    {
        let mut ids: Vec<ProtocolId> = Vec::new();
        ids.push(self.golem_p2p.id());
        ids.push(self.golem_dof.id());
        assert(ids@ =~= seq![self@.p2p.protocol_id, self@.dof.protocol_id]);
        ids
    }

    /// The peers with an open substream of either protocol, each once.
    pub fn open_peers(&self) -> (open: Vec<PeerId>)
        requires
            self.wf(),
        ensures
            forall|p: PeerId| open@.contains(p) <==> #[trigger] self@.is_open(p),
            forall|i: int, j: int| 0 <= i < j < open@.len() ==> open@[i] != open@[j],
    {
        let mut open = self.golem_p2p.open_peers();
        let more = self.golem_dof.open_peers();
        let ghost first = open@;
        let mut i: usize = 0;
        while i < more.len()
            invariant
                self.wf(),
                i <= more@.len(),
                forall|p: PeerId|
                    more@.contains(p) <==> (#[trigger] self@.dof.state(p) is Some
                        && self@.dof.state(p)->0.spec_is_open()),
                forall|p: PeerId|
                    first.contains(p) <==> (#[trigger] self@.p2p.state(p) is Some
                        && self@.p2p.state(p)->0.spec_is_open()),
                forall|p: PeerId|
                    #[trigger] open@.contains(p) <==> (first.contains(p) || exists|k: int|
                        0 <= k < i && more@[k] == p),
                forall|a: int, b: int| 0 <= a < b < open@.len() ==> open@[a] != open@[b],
                forall|a: int, b: int| 0 <= a < b < more@.len() ==> more@[a] != more@[b],
            decreases more@.len() - i,
        {
            let p = more[i];
            let ghost before = open@;
            if !self.golem_p2p.is_open(&p) {
                proof {
                    assert(!first.contains(p));
                    assert forall|a: int| 0 <= a < before.len() implies before[a] != p by {
                        if before[a] == p {
                            assert(before.contains(p));
                            let k = choose|k: int| 0 <= k < i && more@[k] == p;
                            assert(more@[k] != more@[i as int]);
                        }
                    }
                }
                open.push(p);
            } else {
                assert(first.contains(p));
            }
            proof {
                assert forall|q: PeerId| #[trigger]
                    open@.contains(q) <==> (first.contains(q) || exists|k: int|
                        0 <= k < i + 1 && more@[k] == q) by {
                    if open@.contains(q) {
                        let w = choose|w: int| 0 <= w < open@.len() && open@[w] == q;
                        if w < before.len() {
                            assert(before[w] == q);
                            assert(before.contains(q));
                        } else {
                            assert(more@[i as int] == q);
                        }
                    }
                    if before.contains(q) {
                        let w = choose|w: int| 0 <= w < before.len() && before[w] == q;
                        assert(open@[w] == q);
                    }
                    if exists|k: int| 0 <= k < i + 1 && more@[k] == q {
                        let k = choose|k: int| 0 <= k < i + 1 && more@[k] == q;
                        if k == i {
                            if !first.contains(q) {
                                assert(open@[before.len() as int] == q);
                            }
                        }
                    }
                }
            }
            i += 1;
        }
        proof {
            assert forall|p: PeerId| open@.contains(p) <==> #[trigger] self@.is_open(p) by {
                if more@.contains(p) {
                    let k = choose|k: int| 0 <= k < more@.len() && more@[k] == p;
                    assert(0 <= k < i && more@[k] == p);
                }
                if exists|k: int| 0 <= k < i && more@[k] == p {
                    let k = choose|k: int| 0 <= k < i && more@[k] == p;
                    assert(more@.contains(p));
                }
            }
        }
        open
    }

    /// True where a substream of either protocol is open with the peer.
    pub fn is_open(&self, peer_id: &PeerId) -> (b: bool)
        requires
            self.wf(),
        ensures
            b == self@.is_open(*peer_id),
    {
        self.golem_p2p.is_open(peer_id) || self.golem_dof.is_open(peer_id)
    }

    /// True where the handler of either protocol is enabled for the peer.
    pub fn is_enabled(&self, peer_id: &PeerId) -> (b: bool)
        requires
            self.wf(),
        ensures
            b == self@.is_enabled(*peer_id),
    {
        self.golem_p2p.is_enabled(peer_id) || self.golem_dof.is_enabled(peer_id)
    }

    /// Queues a dial of an address with each protocol.
    pub fn connect(&mut self, multiaddr: &Multiaddr)
        requires
            old(self).wf(),
        ensures
            final(self).wf(),
            final(self)@ == (ProtocolModel {
                p2p: after_dial(old(self)@.p2p, *multiaddr),
                dof: after_dial(old(self)@.dof, *multiaddr),
                events: old(self)@.events,
            }),
    {
        self.golem_p2p.connect(multiaddr);
        self.golem_dof.connect(multiaddr);
    }

    /// The user asks at `now` to connect to a peer: each protocol is asked.
    pub fn connect_to_peer_at(&mut self, peer_id: &PeerId, now: Instant)
        requires
            old(self).wf(),
        ensures
            final(self).wf(),
            final(self)@ == both_after(old(self)@, *peer_id, Input::Connect, now),
    {
        self.golem_p2p.requested_connect(*peer_id, now);
        self.golem_dof.requested_connect(*peer_id, now);
    }

    /// The user asks to drop a peer of one protocol.
    pub fn disconnect_peer(&mut self, peer_id: &PeerId, protocol_id: &ProtocolId)
        requires
            old(self).wf(),
        ensures
            final(self).wf(),
            forall|now: Instant|
                final(self)@ == #[trigger] one_after(
                    old(self)@,
                    *protocol_id,
                    *peer_id,
                    Input::Disconnect,
                    now,
                ),
    {
        let p2p = self.golem_p2p.id();
        let dof = self.golem_dof.id();
        if same_protocol(protocol_id, &p2p) {
            self.golem_p2p.disconnect_peer(peer_id, protocol_id);
            assert(self@ == one_after(old(self)@, *protocol_id, *peer_id, Input::Disconnect, 0));
            return ;
        }
        if same_protocol(protocol_id, &dof) {
            self.golem_dof.disconnect_peer(peer_id, protocol_id);
            assert(self@ == one_after(old(self)@, *protocol_id, *peer_id, Input::Disconnect, 0));
            return ;
        }
    }

    /// The user hands in a message for a peer: it goes to the protocol that
    /// `protocol_id` names, and is dropped where none does.
    pub fn send_message(
        &mut self,
        peer_id: &PeerId,
        protocol_id: &ProtocolId,
        message: ProtocolMessage,
    )
        requires
            old(self).wf(),
        ensures
            final(self).wf(),
            forall|now: Instant|
                final(self)@ == #[trigger] one_after(
                    old(self)@,
                    *protocol_id,
                    *peer_id,
                    Input::Send(message),
                    now,
                ),
    {
        let p2p = self.golem_p2p.id();
        let dof = self.golem_dof.id();
        if same_protocol(protocol_id, &p2p) {
            self.golem_p2p.send_message(peer_id, protocol_id, message);
            assert(self@ == one_after(old(self)@, *protocol_id, *peer_id, Input::Send(message), 0));
            return ;
        }
        if same_protocol(protocol_id, &dof) {
            self.golem_dof.send_message(peer_id, protocol_id, message);
            assert(self@ == one_after(old(self)@, *protocol_id, *peer_id, Input::Send(message), 0));
            return ;
        }
    }

    /// The transport reports a connection to a peer: each protocol is told.
    pub fn inject_connected(&mut self, peer_id: PeerId, connected_point: ConnectedPoint)
        requires
            old(self).wf(),
        ensures
            final(self).wf(),
            forall|now: Instant|
                final(self)@ == #[trigger] both_after(
                    old(self)@,
                    peer_id,
                    Input::Connected(connected_point),
                    now,
                ),
    {
        self.golem_p2p.inject_connected(peer_id, connected_point);
        self.golem_dof.inject_connected(peer_id, connected_point);
        assert(self@ == both_after(old(self)@, peer_id, Input::Connected(connected_point), 0));
    }

    /// The transport reports that the connection to a peer is gone: each
    /// protocol is told.
    pub fn inject_disconnected(&mut self, peer_id: &PeerId, endpoint: ConnectedPoint)
        requires
            old(self).wf(),
        ensures
            final(self).wf(),
            forall|now: Instant|
                final(self)@ == #[trigger] both_after(
                    old(self)@,
                    *peer_id,
                    Input::Disconnected,
                    now,
                ),
    {
        self.golem_p2p.inject_disconnected(peer_id, endpoint);
        self.golem_dof.inject_disconnected(peer_id, endpoint);
        assert(self@ == both_after(old(self)@, *peer_id, Input::Disconnected, 0));
    }

    /// The transport reports at `now` that dialling a peer failed: each
    /// protocol is told.
    pub fn inject_dial_failure_at(&mut self, peer_id: &PeerId, now: Instant)
        requires
            old(self).wf(),
        ensures
            final(self).wf(),
            final(self)@ == both_after(old(self)@, *peer_id, Input::DialFailure, now),
    {
        self.golem_p2p.inject_dial_failure_at(peer_id, now);
        self.golem_dof.inject_dial_failure_at(peer_id, now);
    }

    /// The handler of a peer for the protocol that `protocol_id` names
    /// reports an event at `now`.
    pub fn inject_node_event_at(
        &mut self,
        source: PeerId,
        protocol_id: &ProtocolId,
        event: CustomProtoHandlerOut,
        now: Instant,
    )
        requires
            old(self).wf(),
        ensures
            final(self).wf(),
            node_event_outcome(old(self)@, final(self)@, *protocol_id, source, event, now),
    {
        let p2p = self.golem_p2p.id();
        let dof = self.golem_dof.id();
        if same_protocol(protocol_id, &p2p) {
            self.golem_p2p.inject_node_event_at(source, event, now);
        } else if same_protocol(protocol_id, &dof) {
            self.golem_dof.inject_node_event_at(source, event, now);
        }
    }

    /// Discovered peers are of no concern to the protocols. Nothing changes.
    pub fn add_discovered_nodes(&mut self, peer_ids: Vec<PeerId>)
        ensures
            final(self)@ == old(self)@,
            final(self).inv() == old(self).inv(),
    {
    }

    /// An event that a protocol reports joins the waiting events.
    pub fn inject_event(&mut self, event: CustomProtoOut)
        ensures
            final(self).inv() == old(self).inv(),
            final(self)@ == (ProtocolModel {
                p2p: old(self)@.p2p,
                dof: old(self)@.dof,
                events: old(self)@.events.push(event),
            }),
    {
        self.events.push(event);
    }

    /// Polls both protocols at `now` and hands out one action, if there is
    /// one.
    pub fn poll_at(&mut self, now: Instant) -> (r: Option<Action>)
        requires
            old(self).wf(),
        ensures
            final(self).wf(),
            final(self)@ == poll_after(old(self)@, now),
            r == poll_result(old(self)@, now),
    {
        match self.golem_p2p.poll_at(now) {
            Some(Action::GenerateEvent(e)) => {
                self.events.push(e);
            },
            Some(other) => {
                return Some(other);
            },
            None => {},
        }
        match self.golem_dof.poll_at(now) {
            Some(Action::GenerateEvent(e)) => {
                self.events.push(e);
            },
            Some(other) => {
                return Some(other);
            },
            None => {},
        }
        if self.events.len() > 0 {
            let e = self.events.remove(0);
            assert(self@.events =~= poll_after(old(self)@, now).events);
            Some(Action::GenerateEvent(e))
        } else {
            None
        }
    }
}

} // verus!
