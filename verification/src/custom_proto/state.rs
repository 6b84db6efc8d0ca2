//! The states a peer can be in and what the state machine emits.

use vstd::prelude::*;
use crate::address::{ConnectedPoint, Endpoint, Multiaddr};
use crate::identity::PeerId;

verus! {

/// Identifier of a protocol: three bytes.
pub type ProtocolId = [u8; 3];

/// A point in time: milliseconds on the monotonic clock of the process.
pub type Instant = u64;

/// How long a peer is kept from being dialled after a failed dial or a severe
/// protocol error, in milliseconds.
pub const BAN_MILLIS: u64 = 5000;

/// At most this many of the messages that wait in a clogged substream are
/// passed on with the report of it.
pub const CLOGGED_SAMPLES: usize = 5;

/// Index handed to an incoming connection.
#[derive(Clone, Copy, Debug, PartialEq, Eq, Hash)]
pub struct IncomingIndex(pub u64);

/// A message on a custom protocol substream.
#[derive(Clone, Debug, PartialEq, Eq)]
pub enum ProtocolMessage {
    /// An opaque payload scoped to a protocol.
    Blob(ProtocolId, Vec<u8>),
}

/// State of a peer that has an entry in the table. A peer without an entry is
/// neither connected nor requested.
#[derive(Clone, Copy, Debug, PartialEq, Eq)]
pub enum PeerState {
    /// No outbound dial is made to the peer before `until`; inbound
    /// connections are still accepted.
    Banned { until: Instant, initiator: bool },
    /// The user asked to connect; the dial starts at `deadline`.
    PendingRequest { deadline: Instant },
    /// The user asked to connect and the peer is being dialled.
    Requested,
    /// A connection exists but the protocol handler is not enabled.
    Disabled { connected_point: ConnectedPoint, open: bool, banned_until: Option<Instant> },
    /// As `Disabled`; the handler is enabled at `deadline`.
    DisabledPendingEnable { connected_point: ConnectedPoint, open: bool, deadline: Instant },
    /// A connection exists and the handler is enabled; `open` says whether the
    /// protocol substream is live.
    Enabled { connected_point: ConnectedPoint, open: bool },
}

/// Why a custom protocol substream was reported closed.
#[derive(Clone, Debug, PartialEq, Eq)]
pub enum CloseReason {
    /// The transport reported that the connection is gone.
    Disconnected,
    /// The connection handler closed the substream and gave this reason.
    Handler(String),
}

/// Event sent to the connection handler of a peer.
#[derive(Clone, Debug, PartialEq, Eq)]
pub enum CustomProtoHandlerIn {
    /// Start opening the protocol; the side says who opened the connection.
    Enable(Endpoint),
    /// Stop the protocol.
    Disable,
    /// Send a message on the open substream.
    SendCustomMessage { message: ProtocolMessage },
}

/// Event received from the connection handler of a peer.
#[derive(Clone, Debug, PartialEq, Eq)]
pub enum CustomProtoHandlerOut {
    /// The substream was opened with the given protocol version.
    CustomProtocolOpen { version: u8 },
    /// The substream was closed.
    CustomProtocolClosed { reason: String },
    /// A message arrived.
    CustomMessage { message: ProtocolMessage },
    /// The outbound buffer is beyond its soft limit; a copy of what it holds.
    Clogged { messages: Vec<ProtocolMessage> },
    /// The remote violated the protocol.
    ProtocolError { is_severe: bool, error: String },
}

/// Event that the state machine reports to its owner.
#[derive(Clone, Debug, PartialEq, Eq)]
pub enum CustomProtoOut {
    /// A custom protocol was opened with the remote.
    CustomProtocolOpen { version: u8, peer_id: PeerId, endpoint: ConnectedPoint },
    /// A custom protocol was closed.
    CustomProtocolClosed { peer_id: PeerId, endpoint: ConnectedPoint, reason: CloseReason },
    /// A message was received on a custom protocol substream.
    CustomMessage { peer_id: PeerId, endpoint: ConnectedPoint, message: ProtocolMessage },
    /// The substream to the peer is clogged.
    Clogged { peer_id: PeerId, messages: Vec<ProtocolMessage> },
}

/// Marks the events that a behaviour reports to its owner.
pub trait BehaviourEvent {
}

impl BehaviourEvent for CustomProtoOut {
}

/// What the state machine asks the swarm to do.
#[derive(Clone, Debug, PartialEq, Eq)]
pub enum Action {
    /// Dial an address.
    DialAddress { address: Multiaddr },
    /// Dial a peer at whatever addresses are known for it.
    DialPeer { peer_id: PeerId },
    /// Hand an event to the connection handler of a peer.
    SendEvent { peer_id: PeerId, event: CustomProtoHandlerIn },
    /// Report an event to the owner.
    GenerateEvent(CustomProtoOut),
}

impl CloseReason {
    /// The reason as text: what the handler gave, or the words for a
    /// connection that the transport reported gone.
    pub open spec fn spec_text(&self) -> Seq<char> {
        match *self {
            CloseReason::Disconnected => "Disconnected by libp2p"@,
            CloseReason::Handler(reason) => reason@,
        }
    }

    /// The reason as text.
    pub fn text(&self) -> (t: String)
        ensures
            t@ == self.spec_text(),
    {
        match self {
            CloseReason::Disconnected => "Disconnected by libp2p".to_owned(),
            CloseReason::Handler(reason) => reason.as_str().to_owned(),
        }
    }
}

impl PeerState {
    /// True where a protocol substream is open with the peer.
    pub open spec fn spec_is_open(&self) -> bool {
        match *self {
            PeerState::Banned { .. } => false,
            PeerState::PendingRequest { .. } => false,
            PeerState::Requested => false,
            PeerState::Disabled { open, .. } => open,
            PeerState::DisabledPendingEnable { open, .. } => open,
            PeerState::Enabled { open, .. } => open,
        }
    }

    /// True where the handler of the peer is enabled.
    pub open spec fn spec_is_enabled(&self) -> bool {
        *self is Enabled
    }

    /// The connected point of a peer that has a connection.
    pub open spec fn spec_endpoint(&self) -> Option<ConnectedPoint> {
        match *self {
            PeerState::Enabled { connected_point, .. } => Some(connected_point),
            PeerState::Disabled { connected_point, .. } => Some(connected_point),
            PeerState::DisabledPendingEnable { connected_point, .. } => Some(connected_point),
            _ => None,
        }
    }

    /// True where a protocol substream is open with the peer.
    #[verifier::when_used_as_spec(spec_is_open)]
    pub fn is_open(&self) -> (b: bool)
        ensures
            b == self.spec_is_open(),
    {
        match self {
            PeerState::Banned { .. } => false,
            PeerState::PendingRequest { .. } => false,
            PeerState::Requested => false,
            PeerState::Disabled { open, .. } => *open,
            PeerState::DisabledPendingEnable { open, .. } => *open,
            PeerState::Enabled { open, .. } => *open,
        }
    }

    /// True where the handler of the peer is enabled.
    #[verifier::when_used_as_spec(spec_is_enabled)]
    pub fn is_enabled(&self) -> (b: bool)
        ensures
            b == self.spec_is_enabled(),
    {
        match self {
            PeerState::Enabled { .. } => true,
            _ => false,
        }
    }

    /// The connected point of a peer that has a connection.
    #[verifier::when_used_as_spec(spec_endpoint)]
    pub fn endpoint(&self) -> (e: Option<ConnectedPoint>)
        ensures
            e == self.spec_endpoint(),
    {
        match self {
            PeerState::Enabled { connected_point, .. } => Some(*connected_point),
            PeerState::Disabled { connected_point, .. } => Some(*connected_point),
            PeerState::DisabledPendingEnable { connected_point, .. } => Some(*connected_point),
            _ => None,
        }
    }
}

} // verus!
