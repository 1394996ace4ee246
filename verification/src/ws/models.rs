//! Payloads exchanged over the gateway.

use vstd::prelude::*;

use crate::utils::constants::gateway::Opcode;

verus! {

/// A gateway payload: an opcode, optional data, and for dispatches a
/// sequence number and an event name.
pub struct GatewayPayload<T> {
    pub op: Opcode,
    pub d: Option<T>,
    pub s: Option<u64>,
    pub t: Option<String>,
}

impl<T> GatewayPayload<T> {
    /// A payload with opcode `op` and data `d`, without sequence number or
    /// event name.
    pub fn new(op: Opcode, d: Option<T>) -> (p: Self)
        ensures
            p.op == op,
            p.d == d,
            p.s is None,
            p.t is None,
    {
        GatewayPayload { op, d, s: None, t: None }
    }
}

/// The data of the `Hello` payload: how often the client must heartbeat.
#[derive(Debug, Clone, Copy, PartialEq, Eq, Structural)]
pub struct HelloPayload {
    pub heartbeat_interval: u32,
}

/// What the client says about itself when identifying; either may be missing.
pub struct ClientProperties {
    pub os: Option<String>,
    pub browser: Option<String>,
}

/// The data of an `Identify` payload: the token and the client's
/// properties.
pub struct IdentifyPayload {
    pub token: String,
    pub properties: ClientProperties,
}

} // verus!
