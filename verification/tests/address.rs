use golem_net::address::{
    connected_point_to_tuple, multiaddr_to_host_port, sa_from_tcp_multiaddr,
    sa_to_tcp_multiaddr, split_peer_address, AddrError, ConnectedPoint, ConnectedPointId,
    Endpoint, Host, Multiaddr, ParseErr, PortLayer,
};
use golem_net::identity::PeerId;

fn addr(layer: PortLayer, port: u16) -> Multiaddr {
    Multiaddr { host: Host::Ip4(0x7f00_0001), layer, port, ws: false, peer: None }
}

#[test]
fn tcp_address_gives_host_and_port() {
    let a = addr(PortLayer::Tcp, 4001);
    assert_eq!(multiaddr_to_host_port(&a), Some((Host::Ip4(0x7f00_0001), 4001)));
    assert_eq!(sa_from_tcp_multiaddr(&a), Ok((Host::Ip4(0x7f00_0001), 4001)));
}

#[test]
fn what_follows_the_port_is_ignored() {
    let a = Multiaddr {
        host: Host::Ip6(1),
        layer: PortLayer::Tcp,
        port: 9,
        ws: true,
        peer: Some(PeerId(5)),
    };
    assert_eq!(multiaddr_to_host_port(&a), Some((Host::Ip6(1), 9)));
}

#[test]
fn other_port_layers_have_no_socket_form() {
    for layer in [PortLayer::Udp, PortLayer::Sctp, PortLayer::Dccp, PortLayer::Onion] {
        let a = addr(layer, 1);
        assert_eq!(multiaddr_to_host_port(&a), None);
        assert_eq!(sa_from_tcp_multiaddr(&a), Err(AddrError::InvalidMultiaddr));
    }
}

#[test]
fn tcp_address_round_trips() {
    let a = sa_to_tcp_multiaddr(Host::Ip4(0x0a00_0001), 80);
    assert_eq!(a, addr_with(Host::Ip4(0x0a00_0001), 80));
    assert_eq!(multiaddr_to_host_port(&a), Some((Host::Ip4(0x0a00_0001), 80)));
}

fn addr_with(host: Host, port: u16) -> Multiaddr {
    Multiaddr { host, layer: PortLayer::Tcp, port, ws: false, peer: None }
}

#[test]
fn dialer_tuple_has_the_remote_address_only() {
    let cp = ConnectedPoint::Dialer { address: addr(PortLayer::Tcp, 10) };
    assert_eq!(
        connected_point_to_tuple(cp),
        (ConnectedPointId::Dialer, Some((Host::Ip4(0x7f00_0001), 10)), None)
    );
    assert_eq!(cp.endpoint(), Endpoint::Dialer);
    assert!(cp.is_dialer());
}

#[test]
fn listener_tuple_has_send_back_then_listen_address() {
    let cp = ConnectedPoint::Listener {
        listen_addr: addr(PortLayer::Tcp, 1),
        send_back_addr: addr(PortLayer::Tcp, 2),
    };
    assert_eq!(
        connected_point_to_tuple(cp),
        (
            ConnectedPointId::Listener,
            Some((Host::Ip4(0x7f00_0001), 2)),
            Some((Host::Ip4(0x7f00_0001), 1)),
        )
    );
    assert_eq!(cp.endpoint(), Endpoint::Listener);
    assert!(!cp.is_dialer());
}

#[test]
fn same_compares_every_component() {
    let a = addr(PortLayer::Tcp, 1);
    assert!(a.same(&a));
    assert!(!a.same(&addr(PortLayer::Tcp, 2)));
    assert!(!a.same(&addr(PortLayer::Udp, 1)));
    assert!(!a.same(&Multiaddr { ws: true, ..a }));
    assert!(!a.same(&Multiaddr { peer: Some(PeerId(1)), ..a }));
    assert!(!a.same(&Multiaddr { host: Host::Ip4(1), ..a }));
    assert!(!a.same(&Multiaddr { host: Host::Ip6(0x7f00_0001), ..a }));
    let b = Multiaddr { peer: Some(PeerId(1)), ..a };
    assert!(b.same(&b));
    assert!(!b.same(&Multiaddr { peer: Some(PeerId(2)), ..a }));
}

#[test]
fn connected_point_kinds_have_their_codes() {
    assert_eq!(ConnectedPointId::Dialer.code(), 0);
    assert_eq!(ConnectedPointId::Listener.code(), 1);
}

#[test]
fn address_with_a_peer_is_split() {
    let plain = Multiaddr { ws: true, ..addr(PortLayer::Tcp, 30333) };
    let with_peer = Multiaddr { peer: Some(PeerId(7)), ..plain };
    assert_eq!(split_peer_address(with_peer), Ok((PeerId(7), plain)));
}

#[test]
fn address_without_a_peer_is_refused() {
    assert_eq!(split_peer_address(addr(PortLayer::Tcp, 30333)), Err(ParseErr::PeerIdMissing));
}
