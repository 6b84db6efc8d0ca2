use golem_net::address::{ConnectedPoint, Endpoint, Host, Multiaddr, PortLayer};
use golem_net::custom_proto::state::{
    Action, CustomProtoHandlerIn, CustomProtoHandlerOut, CustomProtoOut, ProtocolMessage,
};
use golem_net::identity::{PeerId, PublicKey};
use golem_net::protocol::{dof_protocol_id, p2p_protocol_id, same_protocol, Protocol};
use golem_net::service::{lift_event, Service, ServiceEvent, ServicePoll};
use golem_net::peers::manager::PeerManager;

const P2P: [u8; 3] = *b"p2p";
const DOF: [u8; 3] = *b"dof";
const FWD: [u8; 3] = *b"fwd";

fn addr(port: u16) -> Multiaddr {
    Multiaddr { host: Host::Ip4(0x7f00_0001), layer: PortLayer::Tcp, port, ws: false, peer: None }
}

fn dialer() -> ConnectedPoint {
    ConnectedPoint::Dialer { address: addr(4001) }
}

fn drain(p: &mut Protocol, now: u64) -> Vec<Action> {
    let mut out = Vec::new();
    while let Some(a) = p.poll_at(now) {
        out.push(a);
    }
    out
}

fn open_on(p: &mut Protocol, id: &[u8; 3], peer: PeerId) {
    p.inject_connected(peer, dialer());
    p.inject_node_event_at(peer, id, CustomProtoHandlerOut::CustomProtocolOpen { version: 1 }, 0);
    drain(p, 0);
}

#[test]
fn protocol_ids_are_p2p_then_dof() {
    assert_eq!(p2p_protocol_id(), P2P);
    assert_eq!(dof_protocol_id(), DOF);
    assert_eq!(Protocol::new().protocol_ids(), vec![P2P, DOF]);
    assert!(same_protocol(&P2P, &P2P));
    assert!(!same_protocol(&P2P, &DOF));
    assert!(!same_protocol(b"p2q", &P2P));
    assert!(!same_protocol(b"q2p", &P2P));
    assert!(!same_protocol(b"pxp", &P2P));
}

#[test]
fn connect_to_peer_asks_each_protocol() {
    let mut p = Protocol::new();
    let peer = PeerId(1);
    p.connect_to_peer_at(&peer, 0);
    assert_eq!(
        drain(&mut p, 0),
        vec![Action::DialPeer { peer_id: peer }, Action::DialPeer { peer_id: peer }]
    );
    p.connect(&addr(3));
    assert_eq!(
        drain(&mut p, 0),
        vec![Action::DialAddress { address: addr(3) }, Action::DialAddress { address: addr(3) }]
    );
}

#[test]
fn connection_report_goes_to_each_protocol() {
    let mut p = Protocol::new();
    let peer = PeerId(1);
    p.inject_connected(peer, dialer());
    assert!(p.is_enabled(&peer));
    assert!(!p.is_open(&peer));
    let enable =
        Action::SendEvent { peer_id: peer, event: CustomProtoHandlerIn::Enable(Endpoint::Dialer) };
    assert_eq!(drain(&mut p, 0), vec![enable.clone(), enable]);
    p.inject_disconnected(&peer, dialer());
    assert!(!p.is_enabled(&peer));
}

#[test]
fn open_on_either_protocol_counts_as_open() {
    let mut p = Protocol::new();
    open_on(&mut p, &DOF, PeerId(1));
    open_on(&mut p, &P2P, PeerId(2));
    open_on(&mut p, &P2P, PeerId(3));
    open_on(&mut p, &DOF, PeerId(3));
    assert!(p.is_open(&PeerId(1)));
    assert!(p.is_open(&PeerId(2)));
    assert!(p.is_open(&PeerId(3)));
    assert!(!p.is_open(&PeerId(4)));
    // Each open peer once: those of the first protocol, then the others.
    assert_eq!(p.open_peers(), vec![PeerId(2), PeerId(3), PeerId(1)]);
}

#[test]
fn handler_event_reaches_the_named_protocol_and_is_reported() {
    let mut p = Protocol::new();
    let peer = PeerId(1);
    p.inject_connected(peer, dialer());
    drain(&mut p, 0);
    p.inject_node_event_at(peer, &DOF, CustomProtoHandlerOut::CustomProtocolOpen { version: 2 }, 0);
    assert_eq!(
        drain(&mut p, 0),
        vec![Action::GenerateEvent(CustomProtoOut::CustomProtocolOpen {
            version: 2,
            peer_id: peer,
            endpoint: dialer(),
        })]
    );
    p.inject_node_event_at(peer, &FWD, CustomProtoHandlerOut::CustomProtocolOpen { version: 2 }, 0);
    assert_eq!(drain(&mut p, 0), vec![]);
}

#[test]
fn message_goes_to_the_protocol_it_names() {
    let mut p = Protocol::new();
    let peer = PeerId(1);
    open_on(&mut p, &DOF, peer);
    p.send_message(&peer, &P2P, ProtocolMessage::Blob(P2P, vec![1]));
    assert_eq!(drain(&mut p, 0), vec![]);
    p.send_message(&peer, &FWD, ProtocolMessage::Blob(FWD, vec![1]));
    assert_eq!(drain(&mut p, 0), vec![]);
    p.send_message(&peer, &DOF, ProtocolMessage::Blob(DOF, vec![1]));
    assert_eq!(
        drain(&mut p, 0),
        vec![Action::SendEvent {
            peer_id: peer,
            event: CustomProtoHandlerIn::SendCustomMessage {
                message: ProtocolMessage::Blob(DOF, vec![1]),
            },
        }]
    );
}

#[test]
fn disconnect_goes_to_the_protocol_it_names() {
    let mut p = Protocol::new();
    let peer = PeerId(1);
    p.inject_connected(peer, dialer());
    drain(&mut p, 0);
    p.disconnect_peer(&peer, &FWD);
    assert_eq!(drain(&mut p, 0), vec![]);
    p.disconnect_peer(&peer, &P2P);
    assert_eq!(
        drain(&mut p, 0),
        vec![Action::SendEvent { peer_id: peer, event: CustomProtoHandlerIn::Disable }]
    );
    // The other protocol still has the peer enabled.
    assert!(p.is_enabled(&peer));
    p.disconnect_peer(&peer, &DOF);
    assert!(!p.is_enabled(&peer));
}

#[test]
fn injected_event_waits_behind_actions_for_the_swarm() {
    let mut p = Protocol::new();
    let event = CustomProtoOut::Clogged { peer_id: PeerId(1), messages: vec![] };
    p.inject_event(event.clone());
    p.connect_to_peer_at(&PeerId(2), 0);
    assert_eq!(p.poll_at(0), Some(Action::DialPeer { peer_id: PeerId(2) }));
    assert_eq!(p.poll_at(0), Some(Action::DialPeer { peer_id: PeerId(2) }));
    assert_eq!(p.poll_at(0), Some(Action::GenerateEvent(event)));
    assert_eq!(p.poll_at(0), None);
}

#[test]
fn dial_failure_bans_on_each_protocol() {
    let mut p = Protocol::new();
    let peer = PeerId(1);
    p.connect_to_peer_at(&peer, 0);
    drain(&mut p, 0);
    p.inject_dial_failure_at(&peer, 0);
    p.connect_to_peer_at(&peer, 1);
    assert_eq!(drain(&mut p, 4999), vec![]);
    assert_eq!(
        drain(&mut p, 5000),
        vec![Action::DialPeer { peer_id: peer }, Action::DialPeer { peer_id: peer }]
    );
}

#[test]
fn opened_protocol_is_lifted_with_the_key() {
    let mut keys = PeerManager::new();
    let peer = PeerId(1);
    let out = CustomProtoOut::CustomProtocolOpen { version: 1, peer_id: peer, endpoint: dialer() };
    assert!(lift_event(out.clone(), &keys).is_none());
    keys.add_key(&peer, &PublicKey::Ed25519(vec![7; 32]));
    match lift_event(out, &keys) {
        Some(ServiceEvent::OpenedCustomProtocol { peer_id, peer_pubkey, version, endpoint }) => {
            assert_eq!(peer_id, peer);
            assert_eq!(peer_pubkey, PublicKey::Ed25519(vec![7; 32]));
            assert_eq!(version, 1);
            assert_eq!(endpoint, dialer());
        }
        other => panic!("unexpected {:?}", other),
    }
}

#[test]
fn other_events_are_lifted_as_they_are() {
    let keys = PeerManager::new();
    let peer = PeerId(1);
    let m = ProtocolMessage::Blob(P2P, vec![1, 2]);
    match lift_event(
        CustomProtoOut::CustomMessage { peer_id: peer, endpoint: dialer(), message: m.clone() },
        &keys,
    ) {
        Some(ServiceEvent::CustomMessage { peer_id, endpoint, message }) => {
            assert_eq!((peer_id, endpoint, message), (peer, dialer(), m.clone()));
        }
        other => panic!("unexpected {:?}", other),
    }
    match lift_event(CustomProtoOut::Clogged { peer_id: peer, messages: vec![m.clone()] }, &keys) {
        Some(ServiceEvent::Clogged { peer_id, messages }) => {
            assert_eq!((peer_id, messages), (peer, vec![m]));
        }
        other => panic!("unexpected {:?}", other),
    }
    match lift_event(
        CustomProtoOut::CustomProtocolClosed {
            peer_id: peer,
            endpoint: dialer(),
            reason: golem_net::custom_proto::state::CloseReason::Disconnected,
        },
        &keys,
    ) {
        Some(ServiceEvent::ClosedCustomProtocol { peer_id, endpoint }) => {
            assert_eq!((peer_id, endpoint), (peer, dialer()));
        }
        other => panic!("unexpected {:?}", other),
    }
}

#[test]
fn service_holds_back_an_open_without_a_key() {
    let mut s = Service::new(PeerId(100));
    assert_eq!(s.peer_id(), PeerId(100));
    let peer = PeerId(1);
    // The first poll launches the first random query.
    assert!(matches!(s.poll_at(0), ServicePoll::FindRandomNode));
    assert!(matches!(s.poll_at(0), ServicePoll::NotReady));
    s.inject_connected(peer, dialer());
    assert!(matches!(s.poll_at(0), ServicePoll::Swarm(Action::SendEvent { .. })));
    assert!(matches!(s.poll_at(0), ServicePoll::Swarm(Action::SendEvent { .. })));
    s.inject_node_event_at(peer, &P2P, CustomProtoHandlerOut::CustomProtocolOpen { version: 1 }, 0);
    assert!(s.is_open(&peer));
    assert!(s.is_enabled(&peer));
    assert!(matches!(s.poll_at(0), ServicePoll::NotReady));
    s.add_peer_key(&peer, &PublicKey::Rsa(vec![1]));
    s.inject_node_event_at(peer, &DOF, CustomProtoHandlerOut::CustomProtocolOpen { version: 1 }, 0);
    match s.poll_at(0) {
        ServicePoll::Event(ServiceEvent::OpenedCustomProtocol { peer_id, peer_pubkey, .. }) => {
            assert_eq!(peer_id, peer);
            assert_eq!(peer_pubkey, PublicKey::Rsa(vec![1]));
        }
        other => panic!("unexpected {:?}", other),
    }
}

#[test]
fn service_reports_injected_events_first() {
    let mut s = Service::new(PeerId(100));
    s.connect(&addr(1));
    s.inject_service_event(ServiceEvent::ClosedCustomProtocol {
        peer_id: PeerId(1),
        endpoint: dialer(),
    });
    assert!(matches!(
        s.poll_at(0),
        ServicePoll::Event(ServiceEvent::ClosedCustomProtocol { .. })
    ));
    assert!(matches!(s.poll_at(0), ServicePoll::Swarm(Action::DialAddress { .. })));
}

#[test]
fn service_connects_to_allowed_peers() {
    let mut s = Service::new(PeerId(100));
    assert!(s.connect_to_peer_at(&PeerId(1), 5));
    assert!(matches!(s.poll_at(5), ServicePoll::Swarm(Action::DialPeer { peer_id: PeerId(1) })));
    assert!(s.connect_to_peer(&PeerId(2)));
    s.disconnect_from_peer(&PeerId(1), &P2P);
    s.send_message(&P2P, &PeerId(1), ProtocolMessage::Blob(P2P, vec![]));
    s.inject_dial_failure_at(&PeerId(1), 5);
    s.inject_disconnected(&PeerId(1), dialer());
    s.add_known_address(PeerId(1), addr(1));
    let _ = s.now();
    let _ = s.poll();
}

#[test]
fn blocked_peer_is_not_connected_to() {
    let mut s = Service::new(PeerId(100));
    let peer = PeerId(1);
    s.add_peer_key(&peer, &PublicKey::Rsa(vec![1, 2]));
    assert_eq!(s.peer_key(&peer), Some(PublicKey::Rsa(vec![1, 2])));
    assert_eq!(s.peer_key(&PeerId(2)), None);
    assert!(matches!(s.poll_at(0), ServicePoll::FindRandomNode));
    s.block_peer_at(&peer, Some(1_000), 0);
    assert!(!s.connect_to_peer_at(&peer, 999));
    assert!(matches!(s.poll_at(999), ServicePoll::NotReady));
    assert!(!s.is_enabled(&peer));
    // Once the block has run out the peer is dialled, on each protocol.
    assert!(s.connect_to_peer_at(&peer, 1_001));
    assert!(matches!(s.poll_at(1_001), ServicePoll::Swarm(Action::DialPeer { peer_id: PeerId(1) })));
    assert!(!s.unblock_peer(&peer));
    s.block_peer_at(&peer, None, 2_000);
    assert!(!s.connect_to_peer_at(&peer, u64::MAX));
    assert!(s.unblock_peer(&peer));
    assert!(s.connect_to_peer_at(&peer, 2_000));
}

#[test]
fn discovered_nodes_change_nothing() {
    let mut p = Protocol::new();
    p.add_discovered_nodes(vec![PeerId(1), PeerId(1)]);
    assert!(!p.is_enabled(&PeerId(1)));
    assert_eq!(drain(&mut p, 0), vec![]);
}
