//! The per-peer state machine of one custom protocol.

pub mod behaviour;
pub mod index;
pub mod laws;
pub mod queue;
pub mod state;
pub mod table;
pub mod transitions;
