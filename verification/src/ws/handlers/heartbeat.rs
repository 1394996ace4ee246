//! Answering heartbeats.

use vstd::prelude::*;

use crate::state::{advanced, Sessions};
use crate::utils::constants::gateway::Opcode;
use crate::ws::models::GatewayPayload;

verus! {

/// Answers a heartbeat on connection `session_id`: the acknowledgement to
/// send, which takes the connection's next sequence number, or `None` when
/// the connection is not registered.
pub fn handle<T>(session_id: &str, sessions: &mut Sessions) -> (ack: Option<GatewayPayload<T>>)
    ensures
        match ack {
            Some(p) => {
                &&& old(sessions)@.dom().contains(session_id@)
                &&& p.op == Opcode::HeartbeatAck
                &&& p.d is None
                &&& p.t is None
                &&& p.s == Some(old(sessions)@[session_id@].sequence)
                &&& final(sessions)@ == old(sessions)@.insert(session_id@, advanced(old(sessions)@[session_id@]))
            },
            None => !old(sessions)@.dom().contains(session_id@) && final(sessions)@ == old(sessions)@,
        },
{
    sessions.heartbeat_ack(session_id)
}

} // verus!
