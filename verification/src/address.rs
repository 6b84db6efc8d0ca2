//! Network addresses and the two ends of a connection.

use vstd::prelude::*;
use crate::identity::PeerId;

verus! {

/// The network-layer component of an address.
#[derive(Clone, Copy, Debug, PartialEq, Eq, Hash)]
pub enum Host {
    /// An IPv4 address, its four octets in network order as one number.
    Ip4(u32),
    /// An IPv6 address, its sixteen octets in network order as one number.
    Ip6(u128),
}

/// The protocol of the port layer of an address.
#[derive(Clone, Copy, Debug, PartialEq, Eq, Hash)]
pub enum PortLayer {
    Tcp,
    Udp,
    Sctp,
    Dccp,
    Onion,
}

/// A composed network address: a host, one port-layer component, and
/// optionally a WebSocket layer and the identity of the peer behind it.
#[derive(Clone, Copy, Debug, PartialEq, Eq, Hash)]
pub struct Multiaddr {
    pub host: Host,
    pub layer: PortLayer,
    pub port: u16,
    pub ws: bool,
    pub peer: Option<PeerId>,
}

/// Which side opened a connection.
#[derive(Clone, Copy, Debug, PartialEq, Eq, Hash)]
pub enum Endpoint {
    /// The local node dialled.
    Dialer,
    /// The remote node dialled.
    Listener,
}

/// How a connection to a peer came about.
#[derive(Clone, Copy, Debug, PartialEq, Eq, Hash)]
pub enum ConnectedPoint {
    /// The local node dialled `address`.
    Dialer { address: Multiaddr },
    /// The remote node reached `listen_addr`; answers go to `send_back_addr`.
    Listener { listen_addr: Multiaddr, send_back_addr: Multiaddr },
}

/// Why an address has no socket form.
#[derive(Clone, Copy, Debug, PartialEq, Eq)]
pub enum AddrError {
    /// The port layer of the address is not TCP.
    InvalidMultiaddr,
}

/// Why an address does not name a peer.
#[derive(Clone, Copy, Debug, PartialEq, Eq)]
pub enum ParseErr {
    /// The address does not end in an identity.
    PeerIdMissing,
}

/// Numeric code under which the kind of a connected point is reported.
#[derive(Clone, Copy, Debug, PartialEq, Eq)]
pub enum ConnectedPointId {
    Dialer,
    Listener,
}

impl ConnectedPointId {
    /// The number that stands for the kind: 0 for a dialer, 1 for a listener.
    pub open spec fn spec_code(&self) -> u32 {
        match *self {
            ConnectedPointId::Dialer => 0,
            ConnectedPointId::Listener => 1,
        }
    }

    /// The number that stands for the kind.
    #[verifier::when_used_as_spec(spec_code)]
    pub fn code(&self) -> (c: u32)
        ensures
            c == self.spec_code(),
    {
        match self {
            ConnectedPointId::Dialer => 0,
            ConnectedPointId::Listener => 1,
        }
    }
}

impl Host {
    /// True where both are the same host.
    pub fn same(&self, other: &Host) -> (r: bool)
        ensures
            r == (*self == *other),
    {
        match (self, other) {
            (Host::Ip4(a), Host::Ip4(b)) => *a == *b,
            (Host::Ip6(a), Host::Ip6(b)) => *a == *b,
            _ => false,
        }
    }
}

impl PortLayer {
    /// True where both are the same protocol.
    pub fn same(&self, other: &PortLayer) -> (r: bool)
        ensures
            r == (*self == *other),
    {
        match (self, other) {
            (PortLayer::Tcp, PortLayer::Tcp) => true,
            (PortLayer::Udp, PortLayer::Udp) => true,
            (PortLayer::Sctp, PortLayer::Sctp) => true,
            (PortLayer::Dccp, PortLayer::Dccp) => true,
            (PortLayer::Onion, PortLayer::Onion) => true,
            _ => false,
        }
    }
}

impl Multiaddr {
    /// True where both addresses have the same components.
    pub fn same(&self, other: &Multiaddr) -> (r: bool)
        ensures
            r == (*self == *other),
    {
        let peers = match (self.peer, other.peer) {
            (Some(a), Some(b)) => a.0 == b.0,
            (None, None) => true,
            _ => false,
        };
        self.host.same(&other.host) && self.layer.same(&other.layer) && self.port == other.port
            && self.ws == other.ws && peers
    }
}

impl ConnectedPoint {
    /// The side that opened the connection.
    pub open spec fn side(self) -> Endpoint {
        match self {
            ConnectedPoint::Dialer { .. } => Endpoint::Dialer,
            ConnectedPoint::Listener { .. } => Endpoint::Listener,
        }
    }

    /// The side that opened the connection.
    pub fn endpoint(&self) -> (e: Endpoint)
        ensures
            e == self.side(),
    {
        match self {
            ConnectedPoint::Dialer { .. } => Endpoint::Dialer,
            ConnectedPoint::Listener { .. } => Endpoint::Listener,
        }
    }

    /// True where the local node dialled.
    pub fn is_dialer(&self) -> (b: bool)
        ensures
            b == (self.side() == Endpoint::Dialer),
    {
        match self {
            ConnectedPoint::Dialer { .. } => true,
            ConnectedPoint::Listener { .. } => false,
        }
    }
}

/// The host and port of an address whose port layer is TCP; `None` for any
/// other address.
pub open spec fn tcp_socket_of(addr: Multiaddr) -> Option<(Host, u16)> {
    match addr.layer {
        PortLayer::Tcp => Some((addr.host, addr.port)),
        _ => None,
    }
}

/// The address `/ip/<host>/tcp/<port>` with nothing behind it.
pub open spec fn tcp_multiaddr_of(host: Host, port: u16) -> Multiaddr {
    Multiaddr { host, layer: PortLayer::Tcp, port, ws: false, peer: None }
}

/// Builds the TCP address of a host and a port.
pub fn sa_to_tcp_multiaddr(host: Host, port: u16) -> (addr: Multiaddr)
    ensures
        addr == tcp_multiaddr_of(host, port),
{
    Multiaddr { host, layer: PortLayer::Tcp, port, ws: false, peer: None }
}

/// Reads host and port from an address. Succeeds exactly on the addresses
/// whose port layer is TCP; what follows the port is ignored.
pub fn sa_from_tcp_multiaddr(multiaddr: &Multiaddr) -> (r: Result<(Host, u16), AddrError>)
    ensures
        match tcp_socket_of(*multiaddr) {
            Some(hp) => r == Ok::<(Host, u16), AddrError>(hp),
            None => r == Err::<(Host, u16), AddrError>(AddrError::InvalidMultiaddr),
        },
{
    match multiaddr.layer {
        PortLayer::Tcp => Ok((multiaddr.host, multiaddr.port)),
        _ => Err(AddrError::InvalidMultiaddr),
    }
}

/// Host and port of a TCP address, `None` for any other.
pub fn multiaddr_to_host_port(multiaddr: &Multiaddr) -> (r: Option<(Host, u16)>)
    ensures
        r == tcp_socket_of(*multiaddr),
{
    match sa_from_tcp_multiaddr(multiaddr) {
        Ok(hp) => Some(hp),
        Err(_) => None,
    }
}

/// The peer that an address names at its end and the address before it;
/// `None` where the address names no peer.
pub open spec fn peer_and_address(addr: Multiaddr) -> Option<(PeerId, Multiaddr)> {
    match addr.peer {
        Some(who) => Some((who, Multiaddr { peer: None, ..addr })),
        None => None,
    }
}

/// Splits an address into the peer that it names at its end and the address
/// before it. Fails exactly where the address names no peer.
pub fn split_peer_address(addr: Multiaddr) -> (r: Result<(PeerId, Multiaddr), ParseErr>)
    ensures
        match peer_and_address(addr) {
            Some(pair) => r == Ok::<(PeerId, Multiaddr), ParseErr>(pair),
            None => r == Err::<(PeerId, Multiaddr), ParseErr>(ParseErr::PeerIdMissing),
        },
{
    match addr.peer {
        Some(who) => Ok(
            (
                who,
                Multiaddr {
                    host: addr.host,
                    layer: addr.layer,
                    port: addr.port,
                    ws: addr.ws,
                    peer: None,
                },
            ),
        ),
        None => Err(ParseErr::PeerIdMissing),
    }
}

/// What is reported of a connected point: its kind, the remote address and,
/// for an inbound connection, the local address that was reached.
pub open spec fn connected_point_tuple(cp: ConnectedPoint) -> (
    ConnectedPointId,
    Option<(Host, u16)>,
    Option<(Host, u16)>,
) {
    match cp {
        ConnectedPoint::Dialer { address } => (
            ConnectedPointId::Dialer,
            tcp_socket_of(address),
            None,
        ),
        ConnectedPoint::Listener { listen_addr, send_back_addr } => (
            ConnectedPointId::Listener,
            tcp_socket_of(send_back_addr),
            tcp_socket_of(listen_addr),
        ),
    }
}

/// Flattens a connected point for reporting.
pub fn connected_point_to_tuple(connected_point: ConnectedPoint) -> (r: (
    ConnectedPointId,
    Option<(Host, u16)>,
    Option<(Host, u16)>,
))
    ensures
        r == connected_point_tuple(connected_point),
{
    match connected_point {
        ConnectedPoint::Dialer { address } => (
            ConnectedPointId::Dialer,
            multiaddr_to_host_port(&address),
            None,
        ),
        ConnectedPoint::Listener { listen_addr, send_back_addr } => (
            ConnectedPointId::Listener,
            multiaddr_to_host_port(&send_back_addr),
            multiaddr_to_host_port(&listen_addr),
        ),
    }
}

/// A TCP address read back from its own host and port is the same host and
/// port.
pub proof fn law_tcp_address_round_trip(host: Host, port: u16)
    ensures
        tcp_socket_of(tcp_multiaddr_of(host, port)) == Some((host, port)),
{
}

} // verus!
