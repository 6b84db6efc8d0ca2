//! What is known of remote peers.

pub mod manager;
