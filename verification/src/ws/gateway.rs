//! What a gateway connection does with each frame it receives.

use vstd::prelude::*;

use crate::utils::constants::gateway::{Opcode, HEARTBEAT_INTERVAL};
use crate::ws::models::{GatewayPayload, HelloPayload};

verus! {

/// The `Hello` payload sent when a connection opens: it tells the client to
/// heartbeat every `HEARTBEAT_INTERVAL` milliseconds.
pub fn hello() -> (p: GatewayPayload<HelloPayload>)
    ensures
        p.op == Opcode::Hello,
        p.d == Some(HelloPayload { heartbeat_interval: 41250 }),
        p.s is None,
        p.t is None,
{
    GatewayPayload::new(Opcode::Hello, Some(HelloPayload { heartbeat_interval: HEARTBEAT_INTERVAL }))
}

/// A frame received on a connection, as far as the decision needs it.
pub enum InboundFrame {
    /// A text frame: the opcode of the payload it holds (`None` when it holds
    /// no payload), and whether its data reads as an identification.
    Text { op: Option<Opcode>, identify_data: bool },
    /// The client closes the connection.
    Close,
    /// Reading from the connection failed.
    Error,
    /// Any other frame.
    Other,
}

/// What the connection does next.
#[derive(Debug, Clone, Copy, PartialEq, Eq, Structural)]
pub enum FrameAction {
    /// Identify the connection with the frame's data.
    Identify,
    /// Acknowledge a heartbeat.
    Heartbeat,
    /// Wait for the next frame.
    Ignore,
    /// Stop reading and close the connection.
    Stop,
}

/// Decides what a received frame leads to: an `Identify` payload whose data
/// reads as an identification identifies the connection, a `Heartbeat`
/// payload is acknowledged, a close or a read error ends the connection,
/// everything else is ignored.
pub fn frame_action(frame: InboundFrame) -> (a: FrameAction)
    ensures
        a == (match frame {
            InboundFrame::Text { op: Some(Opcode::Identify), identify_data: true } => FrameAction::Identify,
            InboundFrame::Text { op: Some(Opcode::Heartbeat), .. } => FrameAction::Heartbeat,
            InboundFrame::Close => FrameAction::Stop,
            InboundFrame::Error => FrameAction::Stop,
            _ => FrameAction::Ignore,
        }),
{
    match frame {
        InboundFrame::Text { op, identify_data } => match op {
            Some(Opcode::Identify) => {
                if identify_data {
                    FrameAction::Identify
                } else {
                    FrameAction::Ignore
                }
            },
            Some(Opcode::Heartbeat) => FrameAction::Heartbeat,
            _ => FrameAction::Ignore,
        },
        InboundFrame::Close => FrameAction::Stop,
        InboundFrame::Error => FrameAction::Stop,
        InboundFrame::Other => FrameAction::Ignore,
    }
}

} // verus!
