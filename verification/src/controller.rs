//! The controller: takes the requests of the client, drives the service, and
//! puts the events for the client in the order in which they arise.

use vstd::prelude::*;
use crate::address::{ConnectedPoint, Multiaddr};
use crate::custom_proto::state::{
    Action, CustomProtoHandlerOut, Instant, ProtocolId, ProtocolMessage, CLOGGED_SAMPLES,
};
use crate::custom_proto::transitions::{after_dial, clogged_samples, Input};
use crate::identity::{PeerId, PublicKey};
use crate::message::{from_protocol, to_protocol, UserMessage};
use crate::peers::manager::RegistryModel;
use crate::protocol::{both_after, node_event_outcome, one_after, ProtocolModel};
use crate::service::{
    connect_after, poll_outcome, Service, ServiceEvent, ServiceModel, ServicePoll,
};

verus! {

/// Event for the client.
#[derive(Clone, Debug, PartialEq, Eq)]
pub enum NetworkEvent {
    /// The node listens on these addresses.
    Listening(Vec<Multiaddr>),
    /// The node stopped.
    Terminated,
    /// A peer connected.
    Connected(PeerId, PublicKey, ConnectedPoint),
    /// A peer disconnected.
    Disconnected(PeerId, ConnectedPoint),
    /// A message arrived from a peer.
    Message(PeerId, ConnectedPoint, UserMessage),
    /// A peer does not keep up with what is sent to it; one waiting message.
    Clogged(PeerId, Option<UserMessage>),
}

/// Kind of an event for the client.
#[derive(Clone, Copy, Debug, PartialEq, Eq)]
pub enum EventId {
    Listening,
    Terminated,
    Connected,
    Disconnected,
    Message,
    Clogged,
}

impl EventId {
    /// The number under which the kind is reported to the client.
    pub open spec fn spec_code(&self) -> u32 {
        match *self {
            EventId::Listening => 10,
            EventId::Terminated => 11,
            EventId::Connected => 100,
            EventId::Disconnected => 110,
            EventId::Message => 200,
            EventId::Clogged => 300,
        }
    }

    /// The number under which the kind is reported to the client.
    #[verifier::when_used_as_spec(spec_code)]
    pub fn code(&self) -> (c: u32)
        ensures
            c == self.spec_code(),
    {
        match self {
            EventId::Listening => 10,
            EventId::Terminated => 11,
            EventId::Connected => 100,
            EventId::Disconnected => 110,
            EventId::Message => 200,
            EventId::Clogged => 300,
        }
    }
}

impl NetworkEvent {
    /// The kind of the event.
    pub open spec fn spec_id(&self) -> EventId {
        match *self {
            NetworkEvent::Listening(_) => EventId::Listening,
            NetworkEvent::Terminated => EventId::Terminated,
            NetworkEvent::Connected(..) => EventId::Connected,
            NetworkEvent::Disconnected(..) => EventId::Disconnected,
            NetworkEvent::Message(..) => EventId::Message,
            NetworkEvent::Clogged(..) => EventId::Clogged,
        }
    }

    /// The kind of the event.
    #[verifier::when_used_as_spec(spec_id)]
    pub fn id(&self) -> (id: EventId)
        ensures
            id == self.spec_id(),
    {
        match self {
            NetworkEvent::Listening(_) => EventId::Listening,
            NetworkEvent::Terminated => EventId::Terminated,
            NetworkEvent::Connected(..) => EventId::Connected,
            NetworkEvent::Disconnected(..) => EventId::Disconnected,
            NetworkEvent::Message(..) => EventId::Message,
            NetworkEvent::Clogged(..) => EventId::Clogged,
        }
    }
}

/// Request of the client.
#[derive(Clone, Debug, PartialEq, Eq)]
pub enum ClientRequest {
    Connect(Multiaddr),
    ConnectToPeer(PeerId),
    DisconnectPeer(PeerId, ProtocolId),
    SendMessage(PeerId, UserMessage),
    Stop,
}

/// Why the controller could not be started.
#[derive(Clone, Copy, Debug, PartialEq, Eq)]
pub enum StartError {
    /// None of the listen addresses could be bound.
    AddrNotAvailable,
}

/// An address that the node was asked to listen on, and the address that
/// was bound for it, if one was. The two differ where the transport chose
/// what was left open, such as the port for a request of port 0.
#[derive(Clone, Copy, Debug, PartialEq, Eq)]
pub struct ListenAttempt {
    pub asked: Multiaddr,
    pub bound: Option<Multiaddr>,
}

/// The addresses that were bound in the first `n` attempts, in the order of
/// the attempts.
pub open spec fn bound_among(attempts: Seq<ListenAttempt>, n: int) -> Seq<Multiaddr>
    decreases n,
{
    if n <= 0 {
        Seq::empty()
    } else if attempts[n - 1].bound is Some {
        bound_among(attempts, n - 1).push(attempts[n - 1].bound->0)
    } else {
        bound_among(attempts, n - 1)
    }
}

/// The addresses that the node listens on: for each attempt that succeeded
/// the address that was bound, not the one that was asked for, in the order
/// of the attempts. Fails exactly where none was bound.
pub fn listening_addresses(attempts: &Vec<ListenAttempt>) -> (r: Result<Vec<Multiaddr>, StartError>)
    ensures
        bound_among(attempts@, attempts@.len() as int).len() > 0 ==> r is Ok && r->Ok_0@
            == bound_among(attempts@, attempts@.len() as int),
        bound_among(attempts@, attempts@.len() as int).len() == 0 ==> r is Err && r->Err_0
            == StartError::AddrNotAvailable,
{
    let mut listen_addresses: Vec<Multiaddr> = Vec::new();
    let mut i: usize = 0;
    while i < attempts.len()
        invariant
            i <= attempts@.len(),
            listen_addresses@ == bound_among(attempts@, i as int),
        decreases attempts@.len() - i,
    {
        let a = attempts[i];
        match a.bound {
            Some(address) => {
                listen_addresses.push(address);
            },
            None => {},
        }
        i += 1;
    }
    if listen_addresses.len() == 0 {
        return Err(StartError::AddrNotAvailable);
    }
    Ok(listen_addresses)
}

/// What one turn of the controller leaves for its driver to do.
#[derive(Debug)]
pub enum Turn {
    /// The swarm is to carry out this action.
    Swarm(Action),
    /// A query for a random identity is to be launched.
    FindRandomNode,
    /// Events were put for the client, or nothing was ready.
    Idle,
}

/// The events for the client that an event of the service becomes.
pub open spec fn events_for_client(event: ServiceEvent) -> Seq<NetworkEvent> {
    match event {
        ServiceEvent::OpenedCustomProtocol { peer_id, peer_pubkey, endpoint, .. } => seq![
            NetworkEvent::Connected(peer_id, peer_pubkey, endpoint),
        ],
        ServiceEvent::ClosedCustomProtocol { peer_id, endpoint } => seq![
            NetworkEvent::Disconnected(peer_id, endpoint),
        ],
        ServiceEvent::CustomMessage { peer_id, endpoint, message } => seq![
            NetworkEvent::Message(peer_id, endpoint, from_protocol(message)),
        ],
        ServiceEvent::Clogged { peer_id, messages } => Seq::new(
            clogged_samples(messages@).len(),
            |i: int| NetworkEvent::Clogged(peer_id, Some(from_protocol(messages@[i]))),
        ),
    }
}

/// Turns an event of the service into the events for the client.
pub fn client_events(event: ServiceEvent) -> (out: Vec<NetworkEvent>)
    ensures
        out@ == events_for_client(event),
{
    let mut out: Vec<NetworkEvent> = Vec::new();
    match event {
        ServiceEvent::OpenedCustomProtocol { peer_id, peer_pubkey, version, endpoint } => {
            out.push(NetworkEvent::Connected(peer_id, peer_pubkey, endpoint));
            assert(out@ =~= events_for_client(event));
        },
        ServiceEvent::ClosedCustomProtocol { peer_id, endpoint } => {
            out.push(NetworkEvent::Disconnected(peer_id, endpoint));
            assert(out@ =~= events_for_client(event));
        },
        ServiceEvent::CustomMessage { peer_id, endpoint, message } => {
            out.push(
                NetworkEvent::Message(
                    peer_id,
                    endpoint,
                    UserMessage::from_protocol_message(message),
                ),
            );
            assert(out@ =~= events_for_client(event));
        },
        ServiceEvent::Clogged { peer_id, messages } => {
            let ghost all = messages@;
            let mut rest = messages;
            if rest.len() > CLOGGED_SAMPLES {
                rest.truncate(CLOGGED_SAMPLES);
            }
            let ghost shown = rest@;
            assert(shown =~= clogged_samples(all));
            while rest.len() > 0
                invariant
                    shown.len() <= all.len(),
                    forall|k: int| 0 <= k < shown.len() ==> shown[k] == all[k],
                    out@.len() + rest@.len() == shown.len(),
                    forall|k: int|
                        0 <= k < rest@.len() ==> rest@[k] == shown[out@.len() as int + k],
                    forall|k: int|
                        0 <= k < out@.len() ==> out@[k] == NetworkEvent::Clogged(
                            peer_id,
                            Some(from_protocol(all[k])),
                        ),
                decreases rest@.len(),
            {
                let m = rest.remove(0);
                let shown_message = UserMessage::from_protocol_message(m);
                out.push(NetworkEvent::Clogged(peer_id, Some(shown_message)));
            }
            assert(out@ =~= events_for_client(event));
        },
    }
    out
}

/// However many messages wait in a clogged substream, at most
/// `CLOGGED_SAMPLES` of them are shown to the client, each in an event of its
/// own, and they are the first ones in their order.
pub proof fn law_clogged_cap(peer_id: PeerId, messages: Vec<ProtocolMessage>)
    ensures
        events_for_client(ServiceEvent::Clogged { peer_id, messages }).len() <= CLOGGED_SAMPLES,
        events_for_client(ServiceEvent::Clogged { peer_id, messages }).len() <= messages@.len(),
        forall|i: int|
            0 <= i < events_for_client(ServiceEvent::Clogged { peer_id, messages }).len()
                ==> #[trigger] events_for_client(ServiceEvent::Clogged { peer_id, messages })[i]
                == NetworkEvent::Clogged(peer_id, Some(from_protocol(messages@[i]))),
{
}

/// Every event of the service other than a clogged report becomes one event
/// for the client.
pub proof fn law_one_event_each(event: ServiceEvent)
    requires
        !(event is Clogged),
    ensures
        events_for_client(event).len() == 1,
{
}

/// True where `e` announces the listen addresses `addrs`.
pub open spec fn is_listening(e: NetworkEvent, addrs: Seq<Multiaddr>) -> bool {
    e is Listening && e->Listening_0@ == addrs
}

/// True where `after` is what the client has been sent once `more` was put
/// behind `before`: the announcement of the listen addresses goes ahead of the
/// first event ever.
pub open spec fn extends_with(
    before: Seq<NetworkEvent>,
    after: Seq<NetworkEvent>,
    addrs: Seq<Multiaddr>,
    more: Seq<NetworkEvent>,
) -> bool {
    if before.len() > 0 {
        after == before + more
    } else {
        &&& after.len() == 1 + more.len()
        &&& is_listening(after[0], addrs)
        &&& after.subrange(1, after.len() as int) == more
    }
}

/// The abstract state of the controller.
pub struct ControllerModel {
    pub service: ServiceModel,
    /// The addresses that the node listens on.
    pub listen_addresses: Seq<Multiaddr>,
    /// Every event that was ever put for the client, oldest first.
    pub sent: Seq<NetworkEvent>,
    /// The events that the client has not taken yet, oldest first.
    pub waiting: Seq<NetworkEvent>,
    /// True once the controller was stopped.
    pub shutting_down: bool,
}

impl ControllerModel {
    /// The invariant of the controller.
    ///
    /// The first event ever put for the client announces the listen
    /// addresses. Once the controller is stopped, the last event is the one
    /// that says so. The waiting events are the newest of those sent.
    pub open spec fn wf(self) -> bool {
        &&& self.service.wf()
        &&& self.sent.len() > 0 ==> is_listening(self.sent[0], self.listen_addresses)
        &&& self.shutting_down ==> self.sent.len() > 0 && self.sent.last() is Terminated
        &&& self.waiting.len() <= self.sent.len()
        &&& self.waiting == self.sent.subrange(
            self.sent.len() - self.waiting.len(),
            self.sent.len() as int,
        )
    }
}

/// True where `after` is the controller once `more` was put for the client
/// in state `before`, with nothing else changed.
pub open spec fn put_for_client(
    before: ControllerModel,
    after: ControllerModel,
    more: Seq<NetworkEvent>,
) -> bool {
    &&& extends_with(before.sent, after.sent, before.listen_addresses, more)
    &&& after.waiting == before.waiting + after.sent.subrange(
        before.sent.len() as int,
        after.sent.len() as int,
    )
    &&& after.service == before.service
    &&& after.listen_addresses == before.listen_addresses
    &&& after.shutting_down == before.shutting_down
}

/// The service after a request of the client was passed on at `now`.
pub open spec fn service_after_request(
    m: ServiceModel,
    request: ClientRequest,
    now: Instant,
) -> ServiceModel {
    match request {
        ClientRequest::Connect(address) => ServiceModel {
            protocol: ProtocolModel {
                p2p: after_dial(m.protocol.p2p, address),
                dof: after_dial(m.protocol.dof, address),
                events: m.protocol.events,
            },
            ..m
        },
        ClientRequest::ConnectToPeer(peer) => connect_after(m, peer, now),
        ClientRequest::DisconnectPeer(peer, protocol_id) => ServiceModel {
            protocol: one_after(m.protocol, protocol_id, peer, Input::Disconnect, now),
            ..m
        },
        ClientRequest::SendMessage(peer, message) => ServiceModel {
            protocol: one_after(
                m.protocol,
                message.spec_protocol_id(),
                peer,
                Input::Send(to_protocol(message)),
                now,
            ),
            ..m
        },
        ClientRequest::Stop => m,
    }
}

/// True where `after` is the controller after the report of a handler was
/// handed to the behaviour at `now`: the behaviour took the report as
/// `node_event_outcome` says, and nothing else changed.
pub open spec fn node_event_relayed(
    before: ControllerModel,
    after: ControllerModel,
    id: ProtocolId,
    peer: PeerId,
    event: CustomProtoHandlerOut,
    now: Instant,
) -> bool {
    &&& after == (ControllerModel {
        service: ServiceModel { protocol: after.service.protocol, ..before.service },
        ..before
    })
    &&& node_event_outcome(before.service.protocol, after.service.protocol, id, peer, event, now)
}

/// True where `after` and `go_on` are the state and the answer of the
/// controller in state `before` to a request at `now`.
///
/// A stopped controller ignores every request. `Stop` stops the controller
/// and puts the closing event for the client; any other request is passed on
/// to the service.
pub open spec fn request_outcome(
    before: ControllerModel,
    after: ControllerModel,
    request: ClientRequest,
    now: Instant,
    go_on: bool,
) -> bool {
    if before.shutting_down {
        after == before && !go_on
    } else if request is Stop {
        &&& !go_on
        &&& put_for_client(
            before,
            ControllerModel { shutting_down: false, ..after },
            seq![NetworkEvent::Terminated],
        )
        &&& after.shutting_down
    } else {
        &&& go_on
        &&& after == (ControllerModel {
            service: service_after_request(before.service, request, now),
            ..before
        })
    }
}

/// Copies a list of addresses.
pub fn copy_addresses(src: &Vec<Multiaddr>) -> (out: Vec<Multiaddr>)
    ensures
        out@ == src@,
{
    let mut out: Vec<Multiaddr> = Vec::new();
    let mut i: usize = 0;
    while i < src.len()
        invariant
            i <= src@.len(),
            out@ == src@.subrange(0, i as int),
        decreases src@.len() - i,
    {
        out.push(src[i]);
        i += 1;
        assert(out@ =~= src@.subrange(0, i as int));
    }
    assert(out@ =~= src@);
    out
}

/// The controller of the network service.
pub struct NetworkController {
    network_service: Service,
    listen_addresses: Vec<Multiaddr>,
    outbox: Vec<NetworkEvent>,
    sent: Ghost<Seq<NetworkEvent>>,
    started: bool,
    shutting_down: bool,
}

impl View for NetworkController {
    type V = ControllerModel;

    closed spec fn view(&self) -> ControllerModel {
        ControllerModel {
            service: self.network_service@,
            listen_addresses: self.listen_addresses@,
            sent: self.sent@,
            waiting: self.outbox@,
            shutting_down: self.shutting_down,
        }
    }
}

impl NetworkController {
    /// The flag that says whether an event was put before is right.
    pub closed spec fn flag_ok(&self) -> bool {
        self.started == (self.sent@.len() > 0) && self.network_service.inv()
    }

    /// The invariant of the controller.
    pub open spec fn wf(&self) -> bool {
        self@.wf() && self.flag_ok()
    }

    /// A controller for a started service. Fails exactly where no listen
    /// address was bound.
    pub fn new(service: Service, listen_addresses: Vec<Multiaddr>) -> (r: Result<
        NetworkController,
        StartError,
    >)
        requires
            service.wf(),
        ensures
            listen_addresses@.len() == 0 ==> r is Err && r->Err_0 == StartError::AddrNotAvailable,
            listen_addresses@.len() > 0 ==> r is Ok && r->Ok_0.wf() && r->Ok_0@ == (
            ControllerModel {
                service: service@,
                listen_addresses: listen_addresses@,
                sent: Seq::empty(),
                waiting: Seq::empty(),
                shutting_down: false,
            }),
    {
        if listen_addresses.len() == 0 {
            return Err(StartError::AddrNotAvailable);
        }
        let c = NetworkController {
            network_service: service,
            listen_addresses,
            outbox: Vec::new(),
            sent: Ghost(Seq::empty()),
            started: false,
            shutting_down: false,
        };
        assert(c@.waiting =~= c@.sent.subrange(0, 0));
        Ok(c)
    }

    /// True once the controller was stopped.
    pub fn is_shutting_down(&self) -> (b: bool)
        ensures
            b == self@.shutting_down,
    {
        self.shutting_down
    }

    /// The addresses that the node listens on.
    pub fn listen_addresses(&self) -> (addrs: Vec<Multiaddr>)
        ensures
            addrs@ == self@.listen_addresses,
    {
        copy_addresses(&self.listen_addresses)
    }

    /// Puts events for the client, behind the announcement of the listen
    /// addresses where they are the first ever.
    fn emit(&mut self, events: Vec<NetworkEvent>)
        requires
            old(self).wf(),
            !old(self)@.shutting_down,
        ensures
            final(self)@.wf(),
            final(self).flag_ok(),
            final(self)@.sent.len() > 0,
            put_for_client(old(self)@, final(self)@, events@),
    {
        let ghost before = self@;
        if !self.started {
            let e = NetworkEvent::Listening(copy_addresses(&self.listen_addresses));
            self.outbox.push(e);
            self.sent = Ghost(self.sent@.push(e));
            self.started = true;
            assert(self.outbox@ =~= self.sent@);
        }
        let ghost mid = self.sent@;
        let ghost mid_out = self.outbox@;
        let mut more = events;
        self.outbox.append(&mut more);
        self.sent = Ghost(mid + events@);
        proof {
            let after = self@;
            assert(after.sent[0] == mid[0]);
            assert(after.waiting =~= after.sent.subrange(
                after.sent.len() - after.waiting.len(),
                after.sent.len() as int,
            ));
            assert(after.waiting =~= before.waiting + after.sent.subrange(
                before.sent.len() as int,
                after.sent.len() as int,
            ));
            if before.sent.len() == 0 {
                assert(after.sent.subrange(1, after.sent.len() as int) =~= events@);
            }
        }
    }

    /// Puts the announcement of the listen addresses for the client, unless
    /// an event was put before.
    pub fn announce(&mut self)
        requires
            old(self).wf(),
        ensures
            final(self).wf(),
            final(self)@.sent.len() > 0,
            put_for_client(old(self)@, final(self)@, Seq::empty()),
    {
        if !self.started {
            let e = NetworkEvent::Listening(copy_addresses(&self.listen_addresses));
            self.outbox.push(e);
            self.sent = Ghost(self.sent@.push(e));
            self.started = true;
            assert(self.outbox@ =~= self.sent@);
            assert(self@.sent.subrange(1, 1) =~= Seq::<NetworkEvent>::empty());
            assert(self@.waiting =~= old(self)@.waiting + self@.sent.subrange(0, 1));
        } else {
            assert(self@.sent =~= old(self)@.sent + Seq::<NetworkEvent>::empty());
            assert(self@.waiting =~= old(self)@.waiting + self@.sent.subrange(
                self@.sent.len() as int,
                self@.sent.len() as int,
            ));
        }
    }

    /// Takes the events that wait for the client, oldest first.
    pub fn take_events(&mut self) -> (events: Vec<NetworkEvent>)
        requires
            old(self).wf(),
        ensures
            final(self).wf(),
            events@ == old(self)@.waiting,
            final(self)@ == (ControllerModel { waiting: Seq::empty(), ..old(self)@ }),
    {
        let mut events: Vec<NetworkEvent> = Vec::new();
        events.append(&mut self.outbox);
        assert(self@.waiting =~= self@.sent.subrange(
            self@.sent.len() as int,
            self@.sent.len() as int,
        ));
        events
    }

    /// Stops the controller: the closing event is put for the client and
    /// every later request is ignored. Stopping twice is stopping once.
    pub fn stop(&mut self)
        requires
            old(self).wf(),
        ensures
            final(self).wf(),
            forall|now: Instant| #[trigger]
                request_outcome(old(self)@, final(self)@, ClientRequest::Stop, now, false),
    {
        if self.shutting_down {
            return ;
        }
        let mut events: Vec<NetworkEvent> = Vec::new();
        events.push(NetworkEvent::Terminated);
        assert(events@ =~= seq![NetworkEvent::Terminated]);
        self.emit(events);
        self.shutting_down = true;
        proof {
            let s = self@.sent;
            if old(self)@.sent.len() > 0 {
                assert(s.last() == NetworkEvent::Terminated);
            } else {
                assert(s.subrange(1, s.len() as int)[0] == NetworkEvent::Terminated);
            }
        }
    }

    /// Passes a dial of an address on to the service.
    pub fn connect(&mut self, address: Multiaddr)
        requires
            old(self).wf(),
        ensures
            final(self).wf(),
            forall|now: Instant|
                final(self)@ == (ControllerModel {
                    service: #[trigger] service_after_request(
                        old(self)@.service,
                        ClientRequest::Connect(address),
                        now,
                    ),
                    ..old(self)@
                }),
    {
        self.network_service.connect(&address);
    }

    /// Asks the service at `now` to connect to a peer.
    pub fn connect_to_peer_at(&mut self, peer_id: PeerId, now: Instant)
        requires
            old(self).wf(),
        ensures
            final(self).wf(),
            final(self)@ == (ControllerModel {
                service: service_after_request(
                    old(self)@.service,
                    ClientRequest::ConnectToPeer(peer_id),
                    now,
                ),
                ..old(self)@
            }),
    {
        let _ = self.network_service.connect_to_peer_at(&peer_id, now);
    }

    /// Asks the service to connect to a peer. The clock of the service is
    /// read once, and the request is handled as at that time.
    pub fn connect_to_peer(&mut self, peer_id: PeerId)
        requires
            old(self).wf(),
        ensures
            final(self).wf(),
            exists|now: Instant|
                final(self)@ == (ControllerModel {
                    service: #[trigger] service_after_request(
                        old(self)@.service,
                        ClientRequest::ConnectToPeer(peer_id),
                        now,
                    ),
                    ..old(self)@
                }),
    {
        let now = self.network_service.now();
        self.connect_to_peer_at(peer_id, now);
    }

    /// Asks the service to drop a peer of a protocol.
    pub fn disconnect_peer(&mut self, peer_id: PeerId, protocol_id: ProtocolId)
        requires
            old(self).wf(),
        ensures
            final(self).wf(),
            forall|now: Instant|
                final(self)@ == (ControllerModel {
                    service: #[trigger] service_after_request(
                        old(self)@.service,
                        ClientRequest::DisconnectPeer(peer_id, protocol_id),
                        now,
                    ),
                    ..old(self)@
                }),
    {
        self.network_service.disconnect_from_peer(&peer_id, &protocol_id);
    }

    /// Hands a message for a peer to the service, for the protocol that the
    /// message names.
    pub fn send_message(&mut self, peer_id: PeerId, message: UserMessage)
        requires
            old(self).wf(),
        ensures
            final(self).wf(),
            forall|now: Instant|
                final(self)@ == (ControllerModel {
                    service: #[trigger] service_after_request(
                        old(self)@.service,
                        ClientRequest::SendMessage(peer_id, message),
                        now,
                    ),
                    ..old(self)@
                }),
    {
        let protocol_id = message.protocol_id();
        self.network_service.send_message(&protocol_id, &peer_id, message.into_protocol_message());
    }

    /// Stores the public key of a peer that completed the secure handshake.
    pub fn add_peer_key(&mut self, peer_id: &PeerId, public_key: &PublicKey)
        requires
            old(self).wf(),
        ensures
            final(self).wf(),
            final(self)@ == (ControllerModel {
                service: ServiceModel {
                    registry: RegistryModel {
                        keys: old(self)@.service.registry.keys.insert(peer_id.0, public_key@),
                        blocked: old(self)@.service.registry.blocked,
                    },
                    ..old(self)@.service
                },
                ..old(self)@
            }),
    {
        self.network_service.add_peer_key(peer_id, public_key);
    }

    /// The transport reports a connection to a peer.
    pub fn inject_connected(&mut self, peer_id: PeerId, connected_point: ConnectedPoint)
        requires
            old(self).wf(),
        ensures
            final(self).wf(),
            forall|now: Instant|
                final(self)@ == (ControllerModel {
                    service: ServiceModel {
                        protocol: #[trigger] both_after(
                            old(self)@.service.protocol,
                            peer_id,
                            Input::Connected(connected_point),
                            now,
                        ),
                        ..old(self)@.service
                    },
                    ..old(self)@
                }),
    {
        self.network_service.inject_connected(peer_id, connected_point);
    }

    /// The transport reports that the connection to a peer is gone.
    pub fn inject_disconnected(&mut self, peer_id: &PeerId, endpoint: ConnectedPoint)
        requires
            old(self).wf(),
        ensures
            final(self).wf(),
            forall|now: Instant|
                final(self)@ == (ControllerModel {
                    service: ServiceModel {
                        protocol: #[trigger] both_after(
                            old(self)@.service.protocol,
                            *peer_id,
                            Input::Disconnected,
                            now,
                        ),
                        ..old(self)@.service
                    },
                    ..old(self)@
                }),
    {
        self.network_service.inject_disconnected(peer_id, endpoint);
    }

    /// The transport reports at `now` that dialling a peer failed.
    pub fn inject_dial_failure_at(&mut self, peer_id: &PeerId, now: Instant)
        requires
            old(self).wf(),
        ensures
            final(self).wf(),
            final(self)@ == (ControllerModel {
                service: ServiceModel {
                    protocol: both_after(
                        old(self)@.service.protocol,
                        *peer_id,
                        Input::DialFailure,
                        now,
                    ),
                    ..old(self)@.service
                },
                ..old(self)@
            }),
    {
        self.network_service.inject_dial_failure_at(peer_id, now);
    }

    /// The transport reports that dialling a peer failed. The clock of the
    /// service is read once, and the failure is handled as at that time.
    pub fn inject_dial_failure(&mut self, peer_id: &PeerId)
        requires
            old(self).wf(),
        ensures
            final(self).wf(),
            exists|now: Instant|
                final(self)@ == (ControllerModel {
                    service: ServiceModel {
                        protocol: #[trigger] both_after(
                            old(self)@.service.protocol,
                            *peer_id,
                            Input::DialFailure,
                            now,
                        ),
                        ..old(self)@.service
                    },
                    ..old(self)@
                }),
    {
        let now = self.network_service.now();
        self.inject_dial_failure_at(peer_id, now);
    }

    /// The handler of a peer for a protocol reports an event at `now`.
    pub fn inject_node_event_at(
        &mut self,
        source: PeerId,
        protocol_id: &ProtocolId,
        event: CustomProtoHandlerOut,
        now: Instant,
    )
        requires
            old(self).wf(),
        ensures
            final(self).wf(),
            node_event_relayed(old(self)@, final(self)@, *protocol_id, source, event, now),
    {
        self.network_service.inject_node_event_at(source, protocol_id, event, now);
    }

    /// The handler of a peer for a protocol reports an event. The clock of
    /// the service is read once, and the event is handled as at that time.
    pub fn inject_node_event(
        &mut self,
        source: PeerId,
        protocol_id: &ProtocolId,
        event: CustomProtoHandlerOut,
    )
        requires
            old(self).wf(),
        ensures
            final(self).wf(),
            exists|now: Instant| #[trigger]
                node_event_relayed(old(self)@, final(self)@, *protocol_id, source, event, now),
    {
        let now = self.network_service.now();
        self.inject_node_event_at(source, protocol_id, event, now);
    }

    /// Handles a request of the client at `now` and says whether more
    /// requests are to be handled.
    pub fn dispatch_request_at(&mut self, request: ClientRequest, now: Instant) -> (go_on: bool)
        requires
            old(self).wf(),
        ensures
            final(self).wf(),
            request_outcome(old(self)@, final(self)@, request, now, go_on),
    {
        if self.shutting_down {
            return false;
        }
        match request {
            ClientRequest::Connect(multiaddr) => {
                self.connect(multiaddr);
                true
            },
            ClientRequest::ConnectToPeer(peer_id) => {
                self.connect_to_peer_at(peer_id, now);
                true
            },
            ClientRequest::DisconnectPeer(peer_id, protocol_id) => {
                self.disconnect_peer(peer_id, protocol_id);
                assert(self@ == (ControllerModel {
                    service: service_after_request(old(self)@.service, request, now),
                    ..old(self)@
                }));
                true
            },
            ClientRequest::SendMessage(peer_id, message) => {
                self.send_message(peer_id, message);
                assert(self@ == (ControllerModel {
                    service: service_after_request(old(self)@.service, request, now),
                    ..old(self)@
                }));
                true
            },
            ClientRequest::Stop => {
                self.stop();
                assert(request_outcome(old(self)@, self@, ClientRequest::Stop, now, false));
                false
            },
        }
    }

    /// Handles a request of the client and says whether more requests are to
    /// be handled. The clock of the service is read once, and the request is
    /// handled as at that time.
    pub fn dispatch_requests(&mut self, request: ClientRequest) -> (go_on: bool)
        requires
            old(self).wf(),
        ensures
            final(self).wf(),
            exists|now: Instant| #[trigger]
                request_outcome(old(self)@, final(self)@, request, now, go_on),
    {
        let now = self.network_service.now();
        self.dispatch_request_at(request, now)
    }

    /// Puts what an event of the service becomes for the client. A stopped
    /// controller puts nothing.
    pub fn dispatch_event(&mut self, event: ServiceEvent)
        requires
            old(self).wf(),
        ensures
            final(self).wf(),
            old(self)@.shutting_down ==> final(self)@ == old(self)@,
            !old(self)@.shutting_down ==> put_for_client(
                old(self)@,
                final(self)@,
                events_for_client(event),
            ),
    {
        if self.shutting_down {
            return ;
        }
        let events = client_events(event);
        self.emit(events);
    }

    /// A peer connected: the client is told, unless the controller was
    /// stopped.
    pub fn on_peer_connected(
        &mut self,
        peer_id: PeerId,
        peer_pubkey: PublicKey,
        connected_point: ConnectedPoint,
    )
        requires
            old(self).wf(),
        ensures
            final(self).wf(),
            old(self)@.shutting_down ==> final(self)@ == old(self)@,
            !old(self)@.shutting_down ==> put_for_client(
                old(self)@,
                final(self)@,
                seq![NetworkEvent::Connected(peer_id, peer_pubkey, connected_point)],
            ),
    {
        if self.shutting_down {
            return ;
        }
        let mut events: Vec<NetworkEvent> = Vec::new();
        events.push(NetworkEvent::Connected(peer_id, peer_pubkey, connected_point));
        assert(events@ =~= seq![NetworkEvent::Connected(peer_id, peer_pubkey, connected_point)]);
        self.emit(events);
    }

    /// A peer disconnected: the client is told, unless the controller was
    /// stopped.
    pub fn on_peer_disconnected(&mut self, peer_id: PeerId, connected_point: ConnectedPoint)
        requires
            old(self).wf(),
        ensures
            final(self).wf(),
            old(self)@.shutting_down ==> final(self)@ == old(self)@,
            !old(self)@.shutting_down ==> put_for_client(
                old(self)@,
                final(self)@,
                seq![NetworkEvent::Disconnected(peer_id, connected_point)],
            ),
    {
        if self.shutting_down {
            return ;
        }
        let mut events: Vec<NetworkEvent> = Vec::new();
        events.push(NetworkEvent::Disconnected(peer_id, connected_point));
        assert(events@ =~= seq![NetworkEvent::Disconnected(peer_id, connected_point)]);
        self.emit(events);
    }

    /// A peer does not keep up: the client is told, with one waiting message
    /// where there is one, unless the controller was stopped.
    pub fn on_peer_clogged(&mut self, peer_id: PeerId, msg: Option<UserMessage>)
        requires
            old(self).wf(),
        ensures
            final(self).wf(),
            old(self)@.shutting_down ==> final(self)@ == old(self)@,
            !old(self)@.shutting_down ==> put_for_client(
                old(self)@,
                final(self)@,
                seq![NetworkEvent::Clogged(peer_id, msg)],
            ),
    {
        if self.shutting_down {
            return ;
        }
        let mut events: Vec<NetworkEvent> = Vec::new();
        events.push(NetworkEvent::Clogged(peer_id, msg));
        assert(events@ =~= seq![NetworkEvent::Clogged(peer_id, msg)]);
        self.emit(events);
    }

    /// A message arrived: the client is told, unless the controller was
    /// stopped.
    pub fn on_message(
        &mut self,
        peer_id: PeerId,
        connected_point: ConnectedPoint,
        message: UserMessage,
    )
        requires
            old(self).wf(),
        ensures
            final(self).wf(),
            old(self)@.shutting_down ==> final(self)@ == old(self)@,
            !old(self)@.shutting_down ==> put_for_client(
                old(self)@,
                final(self)@,
                seq![NetworkEvent::Message(peer_id, connected_point, message)],
            ),
    {
        if self.shutting_down {
            return ;
        }
        let mut events: Vec<NetworkEvent> = Vec::new();
        events.push(NetworkEvent::Message(peer_id, connected_point, message));
        assert(events@ =~= seq![NetworkEvent::Message(peer_id, connected_point, message)]);
        self.emit(events);
    }

    /// One turn of the event task at `now`: the listen addresses are
    /// announced if they were not, the service is polled, and its event is
    /// put for the client. What is left for the driver is returned. A stopped
    /// controller does nothing.
    pub fn dispatch_events_at(&mut self, now: Instant) -> (turn: Turn)
        requires
            old(self).wf(),
        ensures
            final(self).wf(),
            old(self)@.shutting_down ==> final(self)@ == old(self)@ && turn is Idle,
            !old(self)@.shutting_down ==> turn_outcome(old(self)@, final(self)@, turn, now),
    {
        if self.shutting_down {
            return Turn::Idle;
        }
        self.announce();
        let ghost mid = self@;
        let polled = self.network_service.poll_at(now);
        let ghost r = polled;
        let ghost s0 = old(self)@.sent;
        let ghost s1 = mid.sent;
        proof {
            if s0.len() > 0 {
                assert(s1 =~= s0);
            }
        }
        match polled {
            ServicePoll::Event(e) => {
                let events = client_events(e);
                self.emit(events);
                proof {
                    let s2 = self@.sent;
                    assert(s2 == s1 + events_for_client(e));
                    if s0.len() == 0 {
                        assert(s2.subrange(1, s2.len() as int) =~= events_for_client(e));
                    } else {
                        assert(s2 =~= s0 + events_for_client(e));
                    }
                    assert(s2.subrange(s0.len() as int, s2.len() as int) =~= s1.subrange(
                        s0.len() as int,
                        s1.len() as int,
                    ) + s2.subrange(s1.len() as int, s2.len() as int));
                    assert(self@.waiting =~= old(self)@.waiting + s2.subrange(
                        s0.len() as int,
                        s2.len() as int,
                    ));
                    assert(poll_outcome(old(self)@.service, self@.service, r, now));
                    assert(turn_outcome(old(self)@, self@, Turn::Idle, now));
                }
                Turn::Idle
            },
            ServicePoll::Swarm(a) => {
                proof {
                    assert(poll_outcome(old(self)@.service, self@.service, r, now));
                    assert(turn_outcome(old(self)@, self@, Turn::Swarm(a), now));
                }
                Turn::Swarm(a)
            },
            ServicePoll::FindRandomNode => {
                proof {
                    assert(poll_outcome(old(self)@.service, self@.service, r, now));
                    assert(turn_outcome(old(self)@, self@, Turn::FindRandomNode, now));
                }
                Turn::FindRandomNode
            },
            ServicePoll::NotReady => {
                proof {
                    assert(poll_outcome(old(self)@.service, self@.service, r, now));
                    assert(turn_outcome(old(self)@, self@, Turn::Idle, now));
                }
                Turn::Idle
            },
        }
    }

    /// One turn of the event task. The clock of the service is read once, and
    /// the turn is that of `dispatch_events_at` at that time.
    pub fn dispatch_events(&mut self) -> (turn: Turn)
        requires
            old(self).wf(),
        ensures
            final(self).wf(),
            old(self)@.shutting_down ==> final(self)@ == old(self)@ && turn is Idle,
            !old(self)@.shutting_down ==> exists|now: Instant| #[trigger]
                turn_outcome(old(self)@, final(self)@, turn, now),
    {
        let now = self.network_service.now();
        self.dispatch_events_at(now)
    }
}

/// True where `after` and `turn` are the state and the outcome of one turn
/// of the event task of a running controller in state `before` at `now`.
///
/// The service is polled once. Its event is put for the client as
/// `events_for_client` says; its action and its query are left to the driver. The
/// listen addresses are announced ahead of everything.
pub open spec fn turn_outcome(
    before: ControllerModel,
    after: ControllerModel,
    turn: Turn,
    now: Instant,
) -> bool {
    &&& after.listen_addresses == before.listen_addresses
    &&& after.shutting_down == before.shutting_down
    &&& after.sent.len() > 0
    &&& after.waiting == before.waiting + after.sent.subrange(
        before.sent.len() as int,
        after.sent.len() as int,
    )
    &&& exists|r: ServicePoll|
        {
            &&& #[trigger] poll_outcome(before.service, after.service, r, now)
            &&& match r {
                ServicePoll::Event(e) => turn is Idle && extends_with(
                    before.sent,
                    after.sent,
                    before.listen_addresses,
                    events_for_client(e),
                ),
                ServicePoll::Swarm(a) => turn == Turn::Swarm(a) && extends_with(
                    before.sent,
                    after.sent,
                    before.listen_addresses,
                    Seq::empty(),
                ),
                ServicePoll::FindRandomNode => turn is FindRandomNode && extends_with(
                    before.sent,
                    after.sent,
                    before.listen_addresses,
                    Seq::empty(),
                ),
                ServicePoll::NotReady => turn is Idle && extends_with(
                    before.sent,
                    after.sent,
                    before.listen_addresses,
                    Seq::empty(),
                ),
            }
        }
}

/// The announcement of the listen addresses goes ahead of every other event:
/// whatever is put for the client, the first event ever sent announces the
/// listen addresses.
pub proof fn law_listening_first(
    before: ControllerModel,
    after: ControllerModel,
    more: Seq<NetworkEvent>,
)
    requires
        before.wf(),
        put_for_client(before, after, more),
        after.sent.len() > 0,
    ensures
        is_listening(after.sent[0], after.listen_addresses),
        before.sent.len() > 0 ==> after.sent[0] == before.sent[0],
{
}

/// A stopped controller ignores every request, and the closing event stays
/// the last one sent.
pub proof fn law_stopped_stays_stopped(
    before: ControllerModel,
    after: ControllerModel,
    request: ClientRequest,
    now: Instant,
    go_on: bool,
)
    requires
        before.wf(),
        before.shutting_down,
        request_outcome(before, after, request, now, go_on),
    ensures
        after == before,
        !go_on,
        after.sent.last() is Terminated,
{
}

/// Stopping a running controller puts the closing event last.
pub proof fn law_stop_puts_terminated_last(
    before: ControllerModel,
    after: ControllerModel,
    now: Instant,
    go_on: bool,
)
    requires
        before.wf(),
        !before.shutting_down,
        request_outcome(before, after, ClientRequest::Stop, now, go_on),
    ensures
        after.shutting_down,
        after.sent.len() > 0,
        after.sent.last() == NetworkEvent::Terminated,
        is_listening(after.sent[0], after.listen_addresses),
{
    let s = after.sent;
    if before.sent.len() > 0 {
        assert(s.last() == NetworkEvent::Terminated);
    } else {
        assert(s.subrange(1, s.len() as int)[0] == NetworkEvent::Terminated);
    }
}

} // verus!
