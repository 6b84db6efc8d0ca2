//! Messages that users exchange over a custom protocol.

use vstd::prelude::*;
use crate::custom_proto::state::{ProtocolId, ProtocolMessage};

verus! {

/// A message of the user.
#[derive(Clone, Debug, PartialEq, Eq)]
pub enum UserMessage {
    /// An opaque payload scoped to a protocol.
    Blob(ProtocolId, Vec<u8>),
}

/// A message of the single-protocol form of the network layer.
#[derive(Clone, Debug, PartialEq, Eq)]
pub enum NetworkMessage {
    /// An opaque payload.
    Blob(Vec<u8>),
}

/// A value that travels as bytes.
pub trait SerializableMessage: Sized {
    /// The bytes that stand for the value.
    fn into_bytes(self) -> Vec<u8>;

    /// The value that the bytes stand for.
    fn from_bytes(bytes: &[u8]) -> Result<Self, ()>;
}

impl SerializableMessage for Vec<u8> {
    fn into_bytes(self) -> (out: Vec<u8>)
        ensures
            out == self,
    {
        self
    }

    fn from_bytes(bytes: &[u8]) -> (r: Result<Self, ()>)
        ensures
            r is Ok,
            r->Ok_0@ == bytes@,
    {
        Ok(vstd::slice::slice_to_vec(bytes))
    }
}

/// The message on the wire that carries a message of the user: the same
/// protocol and the same payload.
pub open spec fn to_protocol(m: UserMessage) -> ProtocolMessage {
    match m {
        UserMessage::Blob(id, bytes) => ProtocolMessage::Blob(id, bytes),
    }
}

/// The message of the user that a message on the wire carries.
pub open spec fn from_protocol(m: ProtocolMessage) -> UserMessage {
    match m {
        ProtocolMessage::Blob(id, bytes) => UserMessage::Blob(id, bytes),
    }
}

impl UserMessage {
    /// The protocol that the message belongs to.
    pub open spec fn spec_protocol_id(&self) -> ProtocolId {
        match *self {
            UserMessage::Blob(id, _) => id,
        }
    }

    /// The protocol that the message belongs to.
    #[verifier::when_used_as_spec(spec_protocol_id)]
    pub fn protocol_id(&self) -> (id: ProtocolId)
        ensures
            id == self.spec_protocol_id(),
    {
        match self {
            UserMessage::Blob(id, _) => *id,
        }
    }

    /// The message as it goes on the wire.
    pub fn into_protocol_message(self) -> (m: ProtocolMessage)
        ensures
            m == to_protocol(self),
    {
        match self {
            UserMessage::Blob(protocol_id, bytes) => ProtocolMessage::Blob(protocol_id, bytes),
        }
    }

    /// The message that came over the wire.
    pub fn from_protocol_message(message: ProtocolMessage) -> (m: UserMessage)
        ensures
            m == from_protocol(message),
    {
        match message {
            ProtocolMessage::Blob(protocol_id, bytes) => UserMessage::Blob(protocol_id, bytes),
        }
    }
}

/// A message survives the wire form in both directions.
pub proof fn law_wire_form_round_trip(u: UserMessage, p: ProtocolMessage)
    ensures
        from_protocol(to_protocol(u)) == u,
        to_protocol(from_protocol(p)) == p,
{
}

impl ProtocolMessage {
    /// The protocol that the message belongs to.
    pub open spec fn spec_protocol_id(&self) -> ProtocolId {
        match *self {
            ProtocolMessage::Blob(id, _) => id,
        }
    }

    /// The protocol that the message belongs to.
    #[verifier::when_used_as_spec(spec_protocol_id)]
    pub fn protocol_id(&self) -> (id: ProtocolId)
        ensures
            id == self.spec_protocol_id(),
    {
        match self {
            ProtocolMessage::Blob(id, _) => *id,
        }
    }
}

} // verus!
