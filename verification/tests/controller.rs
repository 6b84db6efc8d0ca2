use golem_net::address::{ConnectedPoint, Endpoint, Host, Multiaddr, PortLayer};
use golem_net::controller::{
    client_events, copy_addresses, listening_addresses, ClientRequest, EventId, ListenAttempt,
    NetworkController, NetworkEvent, StartError, Turn,
};
use golem_net::custom_proto::state::{
    Action, CustomProtoHandlerIn, CustomProtoHandlerOut, ProtocolMessage, CLOGGED_SAMPLES,
};
use golem_net::identity::{PeerId, PublicKey};
use golem_net::message::{NetworkMessage, UserMessage};
use golem_net::service::{Service, ServiceEvent};

const P2P: [u8; 3] = *b"p2p";

fn addr(port: u16) -> Multiaddr {
    Multiaddr { host: Host::Ip4(0x7f00_0001), layer: PortLayer::Tcp, port, ws: false, peer: None }
}

fn dialer() -> ConnectedPoint {
    ConnectedPoint::Dialer { address: addr(4001) }
}

fn controller() -> NetworkController {
    match NetworkController::new(Service::new(PeerId(100)), vec![addr(4000)]) {
        Ok(c) => c,
        Err(e) => panic!("start failed: {:?}", e),
    }
}

fn blob(n: u8) -> ProtocolMessage {
    ProtocolMessage::Blob(P2P, vec![n])
}

#[test]
fn start_without_a_bound_address_fails() {
    match NetworkController::new(Service::new(PeerId(1)), vec![]) {
        Err(e) => assert_eq!(e, StartError::AddrNotAvailable),
        Ok(_) => panic!("started without an address"),
    }
}

#[test]
fn listening_is_the_first_event() {
    let mut c = controller();
    assert_eq!(c.listen_addresses(), vec![addr(4000)]);
    assert!(matches!(c.dispatch_events_at(0), Turn::FindRandomNode));
    assert_eq!(c.take_events(), vec![NetworkEvent::Listening(vec![addr(4000)])]);
    assert!(matches!(c.dispatch_events_at(0), Turn::Idle));
    assert_eq!(c.take_events(), vec![]);
}

#[test]
fn listening_goes_ahead_of_an_early_event() {
    let mut c = controller();
    c.dispatch_event(ServiceEvent::ClosedCustomProtocol { peer_id: PeerId(1), endpoint: dialer() });
    c.announce();
    assert_eq!(
        c.take_events(),
        vec![
            NetworkEvent::Listening(vec![addr(4000)]),
            NetworkEvent::Disconnected(PeerId(1), dialer()),
        ]
    );
}

#[test]
fn clogged_shows_at_most_five_messages() {
    let messages: Vec<ProtocolMessage> = (0..8u8).map(blob).collect();
    let out = client_events(ServiceEvent::Clogged { peer_id: PeerId(1), messages });
    assert_eq!(CLOGGED_SAMPLES, 5);
    assert_eq!(
        out,
        (0..5u8)
            .map(|n| NetworkEvent::Clogged(PeerId(1), Some(UserMessage::Blob(P2P, vec![n]))))
            .collect::<Vec<_>>()
    );
}

#[test]
fn clogged_with_few_messages_shows_them_all() {
    let out = client_events(ServiceEvent::Clogged { peer_id: PeerId(1), messages: vec![blob(1), blob(2)] });
    assert_eq!(
        out,
        vec![
            NetworkEvent::Clogged(PeerId(1), Some(UserMessage::Blob(P2P, vec![1]))),
            NetworkEvent::Clogged(PeerId(1), Some(UserMessage::Blob(P2P, vec![2]))),
        ]
    );
    assert_eq!(client_events(ServiceEvent::Clogged { peer_id: PeerId(1), messages: vec![] }), vec![]);
}

#[test]
fn service_events_become_client_events() {
    let key = PublicKey::Ed25519(vec![3; 32]);
    assert_eq!(
        client_events(ServiceEvent::OpenedCustomProtocol {
            peer_id: PeerId(1),
            peer_pubkey: key.clone(),
            version: 1,
            endpoint: dialer(),
        }),
        vec![NetworkEvent::Connected(PeerId(1), key, dialer())]
    );
    assert_eq!(
        client_events(ServiceEvent::ClosedCustomProtocol { peer_id: PeerId(1), endpoint: dialer() }),
        vec![NetworkEvent::Disconnected(PeerId(1), dialer())]
    );
    assert_eq!(
        client_events(ServiceEvent::CustomMessage {
            peer_id: PeerId(1),
            endpoint: dialer(),
            message: ProtocolMessage::Blob(P2P, vec![1, 2]),
        }),
        vec![NetworkEvent::Message(PeerId(1), dialer(), UserMessage::Blob(P2P, vec![1, 2]))]
    );
}

#[test]
fn stop_puts_terminated_last_and_later_requests_are_ignored() {
    let mut c = controller();
    assert!(c.dispatch_request_at(ClientRequest::ConnectToPeer(PeerId(1)), 0));
    assert!(!c.is_shutting_down());
    assert!(!c.dispatch_request_at(ClientRequest::Stop, 0));
    assert!(c.is_shutting_down());
    assert_eq!(
        c.take_events(),
        vec![NetworkEvent::Listening(vec![addr(4000)]), NetworkEvent::Terminated]
    );
    assert!(!c.dispatch_request_at(ClientRequest::ConnectToPeer(PeerId(2)), 1));
    assert!(!c.dispatch_requests(ClientRequest::Connect(addr(1))));
    assert!(!c.dispatch_request_at(ClientRequest::Stop, 1));
    c.stop();
    c.dispatch_event(ServiceEvent::ClosedCustomProtocol { peer_id: PeerId(1), endpoint: dialer() });
    assert!(matches!(c.dispatch_events_at(2), Turn::Idle));
    assert!(matches!(c.dispatch_events(), Turn::Idle));
    assert_eq!(c.take_events(), vec![]);
}

#[test]
fn requests_reach_the_service() {
    let mut c = controller();
    assert!(c.dispatch_request_at(ClientRequest::Connect(addr(9)), 0));
    match c.dispatch_events_at(0) {
        Turn::Swarm(Action::DialAddress { address }) => assert_eq!(address, addr(9)),
        other => panic!("unexpected {:?}", other),
    }
    assert!(matches!(c.dispatch_events_at(0), Turn::Swarm(Action::DialAddress { .. })));
    assert!(c.dispatch_request_at(ClientRequest::ConnectToPeer(PeerId(1)), 0));
    assert!(matches!(
        c.dispatch_events_at(0),
        Turn::Swarm(Action::DialPeer { peer_id: PeerId(1) })
    ));
    assert!(matches!(
        c.dispatch_events_at(0),
        Turn::Swarm(Action::DialPeer { peer_id: PeerId(1) })
    ));
    assert!(c.dispatch_request_at(ClientRequest::DisconnectPeer(PeerId(1), P2P), 0));
    assert!(c.dispatch_request_at(
        ClientRequest::SendMessage(PeerId(1), UserMessage::Blob(P2P, vec![1])),
        0
    ));
    assert!(c.dispatch_requests(ClientRequest::ConnectToPeer(PeerId(3))));
}

#[test]
fn handlers_put_their_event_for_the_client() {
    let mut c = controller();
    let key = PublicKey::Rsa(vec![1]);
    c.on_peer_connected(PeerId(1), key.clone(), dialer());
    c.on_message(PeerId(1), dialer(), UserMessage::Blob(P2P, vec![1, 2]));
    c.on_peer_clogged(PeerId(1), None);
    c.on_peer_disconnected(PeerId(1), dialer());
    assert_eq!(
        c.take_events(),
        vec![
            NetworkEvent::Listening(vec![addr(4000)]),
            NetworkEvent::Connected(PeerId(1), key, dialer()),
            NetworkEvent::Message(PeerId(1), dialer(), UserMessage::Blob(P2P, vec![1, 2])),
            NetworkEvent::Clogged(PeerId(1), None),
            NetworkEvent::Disconnected(PeerId(1), dialer()),
        ]
    );
}

#[test]
fn user_message_keeps_protocol_and_payload_on_the_wire() {
    let u = UserMessage::Blob(P2P, vec![1, 2]);
    assert_eq!(u.protocol_id(), P2P);
    let p = u.clone().into_protocol_message();
    assert_eq!(p, ProtocolMessage::Blob(P2P, vec![1, 2]));
    assert_eq!(p.protocol_id(), P2P);
    assert_eq!(UserMessage::from_protocol_message(p), u);
    assert_eq!(NetworkMessage::Blob(vec![1]), NetworkMessage::Blob(vec![1]));
    assert_eq!(copy_addresses(&vec![addr(1), addr(2)]), vec![addr(1), addr(2)]);
}

#[test]
fn message_travels_from_handler_to_client() {
    let mut c = controller();
    let mut s = Service::new(PeerId(100));
    let peer = PeerId(1);
    s.add_peer_key(&peer, &PublicKey::Ed25519(vec![1; 32]));
    s.inject_connected(peer, dialer());
    s.inject_node_event_at(peer, &P2P, CustomProtoHandlerOut::CustomProtocolOpen { version: 1 }, 0);
    s.inject_node_event_at(
        peer,
        &P2P,
        CustomProtoHandlerOut::CustomMessage { message: ProtocolMessage::Blob(P2P, vec![1, 2]) },
        0,
    );
    let mut polled = Vec::new();
    for _ in 0..8 {
        if let golem_net::service::ServicePoll::Event(e) = s.poll_at(0) {
            polled.push(e);
        }
    }
    for e in polled {
        c.dispatch_event(e);
    }
    assert_eq!(
        c.take_events(),
        vec![
            NetworkEvent::Listening(vec![addr(4000)]),
            NetworkEvent::Connected(peer, PublicKey::Ed25519(vec![1; 32]), dialer()),
            NetworkEvent::Message(peer, dialer(), UserMessage::Blob(P2P, vec![1, 2])),
        ]
    );
}

/// Runs the event task until it has nothing left and returns what it left
/// for the swarm.
fn turns(c: &mut NetworkController, now: u64) -> Vec<Action> {
    let mut actions = Vec::new();
    loop {
        match c.dispatch_events_at(now) {
            Turn::Swarm(a) => actions.push(a),
            Turn::FindRandomNode => {}
            Turn::Idle => {
                if let Turn::Idle = c.dispatch_events_at(now) {
                    break;
                }
            }
        }
    }
    actions
}

#[test]
fn two_nodes_connect_exchange_and_disconnect() {
    let (a_id, b_id) = (PeerId(1), PeerId(2));
    let (a_key, b_key) = (PublicKey::Ed25519(vec![0xa; 32]), PublicKey::Ed25519(vec![0xb; 32]));
    let a_listen = addr(4000);
    let b_from = addr(50_000);
    let mut a = NetworkController::new(Service::new(a_id), vec![a_listen]).unwrap_or_else(|e| {
        panic!("start failed: {:?}", e)
    });
    let mut b = NetworkController::new(Service::new(b_id), vec![addr(4100)]).unwrap_or_else(|e| {
        panic!("start failed: {:?}", e)
    });
    assert_eq!(turns(&mut a, 0), vec![]);
    assert_eq!(a.take_events(), vec![NetworkEvent::Listening(vec![a_listen])]);
    assert_eq!(turns(&mut b, 0), vec![]);
    assert_eq!(b.take_events(), vec![NetworkEvent::Listening(vec![addr(4100)])]);

    // B dials the address that A listens on.
    assert!(b.dispatch_request_at(ClientRequest::Connect(a_listen), 1));
    let dials = turns(&mut b, 1);
    assert_eq!(dials[0], Action::DialAddress { address: a_listen });

    // The transport completes the handshake and reports the connection.
    let at_a = ConnectedPoint::Listener { listen_addr: a_listen, send_back_addr: b_from };
    let at_b = ConnectedPoint::Dialer { address: a_listen };
    a.add_peer_key(&b_id, &b_key);
    b.add_peer_key(&a_id, &a_key);
    a.inject_connected(b_id, at_a);
    b.inject_connected(a_id, at_b);
    let enable_a = turns(&mut a, 2);
    assert_eq!(
        enable_a[0],
        Action::SendEvent { peer_id: b_id, event: CustomProtoHandlerIn::Enable(Endpoint::Listener) }
    );
    let enable_b = turns(&mut b, 2);
    assert_eq!(
        enable_b[0],
        Action::SendEvent { peer_id: a_id, event: CustomProtoHandlerIn::Enable(Endpoint::Dialer) }
    );

    // The handlers open the substream on both sides.
    a.inject_node_event_at(b_id, &P2P, CustomProtoHandlerOut::CustomProtocolOpen { version: 1 }, 3);
    b.inject_node_event_at(a_id, &P2P, CustomProtoHandlerOut::CustomProtocolOpen { version: 1 }, 3);
    turns(&mut a, 3);
    turns(&mut b, 3);
    assert_eq!(a.take_events(), vec![NetworkEvent::Connected(b_id, b_key, at_a)]);
    assert_eq!(b.take_events(), vec![NetworkEvent::Connected(a_id, a_key, at_b)]);

    // A sends a blob; it travels as a handler event and arrives at B.
    let message = UserMessage::Blob(P2P, vec![1, 2]);
    assert!(a.dispatch_request_at(ClientRequest::SendMessage(b_id, message.clone()), 4));
    let sent = turns(&mut a, 4);
    let on_wire = match &sent[..] {
        [Action::SendEvent { peer_id, event: CustomProtoHandlerIn::SendCustomMessage { message } }] => {
            assert_eq!(*peer_id, b_id);
            message.clone()
        }
        other => panic!("unexpected {:?}", other),
    };
    b.inject_node_event_at(a_id, &P2P, CustomProtoHandlerOut::CustomMessage { message: on_wire }, 4);
    turns(&mut b, 4);
    assert_eq!(b.take_events(), vec![NetworkEvent::Message(a_id, at_b, message)]);

    // A drops B; the handlers close and both sides see the disconnection.
    assert!(a.dispatch_request_at(ClientRequest::DisconnectPeer(b_id, P2P), 5));
    assert_eq!(
        turns(&mut a, 5),
        vec![Action::SendEvent { peer_id: b_id, event: CustomProtoHandlerIn::Disable }]
    );
    a.inject_node_event_at(
        b_id,
        &P2P,
        CustomProtoHandlerOut::CustomProtocolClosed { reason: "disabled".to_string() },
        5,
    );
    b.inject_node_event_at(
        a_id,
        &P2P,
        CustomProtoHandlerOut::CustomProtocolClosed { reason: "eof".to_string() },
        5,
    );
    turns(&mut a, 5);
    turns(&mut b, 5);
    assert_eq!(a.take_events(), vec![NetworkEvent::Disconnected(b_id, at_a)]);
    assert_eq!(b.take_events(), vec![NetworkEvent::Disconnected(a_id, at_b)]);
}

#[test]
fn failed_dial_defers_the_next_one_by_five_seconds() {
    let mut c = controller();
    let peer = PeerId(9);
    assert!(c.dispatch_request_at(ClientRequest::ConnectToPeer(peer), 0));
    assert_eq!(
        turns(&mut c, 0),
        vec![Action::DialPeer { peer_id: peer }, Action::DialPeer { peer_id: peer }]
    );
    c.inject_dial_failure_at(&peer, 100);
    assert!(c.dispatch_request_at(ClientRequest::ConnectToPeer(peer), 101));
    assert_eq!(turns(&mut c, 101), vec![]);
    assert_eq!(turns(&mut c, 5_099), vec![]);
    assert_eq!(
        turns(&mut c, 5_100),
        vec![Action::DialPeer { peer_id: peer }, Action::DialPeer { peer_id: peer }]
    );
    // Nothing but the announcement reached the client.
    assert_eq!(c.take_events(), vec![NetworkEvent::Listening(vec![addr(4000)])]);
    c.inject_dial_failure(&peer);
    c.inject_node_event(
        peer,
        &P2P,
        CustomProtoHandlerOut::ProtocolError { is_severe: false, error: "e".to_string() },
    );
    c.inject_disconnected(&peer, dialer());
}

#[test]
fn stopped_controller_tells_the_client_nothing_more() {
    let mut c = controller();
    c.stop();
    c.take_events();
    c.on_peer_connected(PeerId(1), PublicKey::Rsa(vec![1]), dialer());
    c.on_message(PeerId(1), dialer(), UserMessage::Blob(P2P, vec![1]));
    c.on_peer_clogged(PeerId(1), None);
    c.on_peer_disconnected(PeerId(1), dialer());
    c.announce();
    assert_eq!(c.take_events(), vec![]);
    c.connect_to_peer(PeerId(1));
}

#[test]
fn events_are_reported_under_their_codes() {
    let key = PublicKey::Rsa(vec![1]);
    let m = UserMessage::Blob(P2P, vec![1]);
    assert_eq!(NetworkEvent::Listening(vec![]).id().code(), 10);
    assert_eq!(NetworkEvent::Terminated.id().code(), 11);
    assert_eq!(NetworkEvent::Connected(PeerId(1), key, dialer()).id().code(), 100);
    assert_eq!(NetworkEvent::Disconnected(PeerId(1), dialer()).id().code(), 110);
    assert_eq!(NetworkEvent::Message(PeerId(1), dialer(), m).id().code(), 200);
    assert_eq!(NetworkEvent::Clogged(PeerId(1), None).id().code(), 300);
    assert_eq!(EventId::Clogged.code(), 300);
}

#[test]
fn node_listens_on_the_addresses_that_were_bound() {
    let attempts = vec![
        ListenAttempt { asked: addr(1), bound: None },
        ListenAttempt { asked: addr(2), bound: Some(addr(2)) },
        ListenAttempt { asked: addr(3), bound: None },
        ListenAttempt { asked: addr(4), bound: Some(addr(4)) },
    ];
    assert_eq!(listening_addresses(&attempts), Ok(vec![addr(2), addr(4)]));
}

#[test]
fn node_does_not_start_where_nothing_was_bound() {
    assert_eq!(listening_addresses(&vec![]), Err(StartError::AddrNotAvailable));
    let attempts = vec![ListenAttempt { asked: addr(1), bound: None }];
    assert_eq!(listening_addresses(&attempts), Err(StartError::AddrNotAvailable));
}

#[test]
fn client_sees_the_port_that_was_bound_for_port_zero() {
    let attempts = vec![ListenAttempt { asked: addr(0), bound: Some(addr(49_152)) }];
    let bound = match listening_addresses(&attempts) {
        Ok(b) => b,
        Err(e) => panic!("start failed: {:?}", e),
    };
    assert_eq!(bound, vec![addr(49_152)]);
    let mut c = match NetworkController::new(Service::new(PeerId(1)), bound) {
        Ok(c) => c,
        Err(e) => panic!("start failed: {:?}", e),
    };
    c.announce();
    match &c.take_events()[..] {
        [NetworkEvent::Listening(addrs)] => {
            assert_eq!(addrs.len(), 1);
            assert_ne!(addrs[0].port, 0);
            assert_eq!(addrs[0], addr(49_152));
        }
        other => panic!("unexpected {:?}", other),
    }
}

#[test]
fn clogged_substream_reaches_the_client_with_five_samples() {
    let mut c = controller();
    let peer = PeerId(1);
    c.add_peer_key(&peer, &PublicKey::Rsa(vec![1]));
    c.inject_connected(peer, dialer());
    c.inject_node_event_at(peer, &P2P, CustomProtoHandlerOut::CustomProtocolOpen { version: 1 }, 0);
    turns(&mut c, 0);
    c.take_events();
    let messages: Vec<ProtocolMessage> = (0..9u8).map(blob).collect();
    c.inject_node_event_at(peer, &P2P, CustomProtoHandlerOut::Clogged { messages }, 1);
    turns(&mut c, 1);
    assert_eq!(
        c.take_events(),
        (0..5u8)
            .map(|n| NetworkEvent::Clogged(peer, Some(UserMessage::Blob(P2P, vec![n]))))
            .collect::<Vec<_>>()
    );
}
