//! Core of a peer-to-peer networking substrate: the per-peer protocol state
//! machine, the peer registry, the length-prefixed framing codec, and the
//! controller that turns requests of the client into calls on the service and
//! events of the service into events for the client.
//!
//! Time is a number of milliseconds on a monotonic clock; a peer identity is a
//! process-local handle; an address is a record of its components. Every
//! function that depends on the time comes in two forms: one that takes the
//! time as an argument, and one that reads the clock and then does the same.

pub mod address;
pub mod clock;
pub mod codec;
pub mod controller;
pub mod identity;
pub mod custom_proto;
pub mod discovery;
pub mod message;
pub mod peers;
pub mod protocol;
pub mod service;

use vstd::prelude::*;

verus! {

/// Name under which the protocol family is announced to remote nodes.
pub const PROTOCOL_NAME: &'static str = "golem";

/// Version of the protocol family.
pub const PROTOCOL_VERSION: &'static str = "1.0";

/// Target under which the networking layer logs.
pub const LOG_TARGET: &'static str = "golem-libp2p";

} // verus!
