//! Length-prefixed framing of opaque payloads.

pub mod buffer;
pub mod error;
pub mod frame;
