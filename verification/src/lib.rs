//! Server-side core of a censorship-resistant tunneling service.
//!
//! Two disguised transports — a byte-stream protocol shaped like HTTPS/WebSocket
//! traffic and a datagram protocol shaped like encrypted QUIC — stand behind one
//! dispatch layer, one reversible traffic-obfuscation pipeline, and a fail-closed
//! kill-switch state machine.

use vstd::prelude::*;

pub mod dispatcher;
pub mod obfuscation;
pub mod protocols;
pub mod security;

verus! {

/// Adds two integers together.
pub fn add(a: i32, b: i32) -> (r: i32)
    requires
        i32::MIN <= a + b <= i32::MAX,
    ensures
        r == a + b,
{
    a + b
}

} // verus!
