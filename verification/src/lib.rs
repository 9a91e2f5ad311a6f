//! Host-side capture library for the Cynthion USB analyzer.
//!
//! The verified core covers the wire-level encodings (speed masks, the
//! one-byte capture state), the decisions of the capability probe, the
//! capture engine's event-handling state machine with its cooperative
//! cancellation protocol, the length-prefixed packet deframer, and the
//! reporting rules for stopping a capture session.

pub mod engine;
pub mod probe;
pub mod session;
pub mod speed;
pub mod state;
pub mod stream;
