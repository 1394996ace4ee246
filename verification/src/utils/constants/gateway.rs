//! Constants of the gateway protocol.

pub mod close_codes;
pub mod events;

use vstd::prelude::*;

verus! {

/// The interval, in milliseconds, at which gateway clients must heartbeat.
pub const HEARTBEAT_INTERVAL: u32 = 41250;

/// Operation codes of gateway payloads.
#[derive(Debug, Clone, Copy, PartialEq, Eq, Structural)]
pub enum Opcode {
    Dispatch,
    Heartbeat,
    Identify,
    PresenceUpdate,
    VoiceStateUpdate,
    Resume,
    Reconnect,
    RequestGuildMembers,
    InvalidSession,
    Hello,
    HeartbeatAck,
}

/// The wire number of each opcode.
pub open spec fn opcode_number(op: Opcode) -> u8 {
    match op {
        Opcode::Dispatch => 0,
        Opcode::Heartbeat => 1,
        Opcode::Identify => 2,
        Opcode::PresenceUpdate => 3,
        Opcode::VoiceStateUpdate => 4,
        Opcode::Resume => 6,
        Opcode::Reconnect => 7,
        Opcode::RequestGuildMembers => 8,
        Opcode::InvalidSession => 9,
        Opcode::Hello => 10,
        Opcode::HeartbeatAck => 11,
    }
}

/// The opcode a wire number stands for; numbers that name no opcode read as
/// `Dispatch`.
pub open spec fn opcode_from_number(n: u8) -> Opcode {
    if n == 1 {
        Opcode::Heartbeat
    } else if n == 2 {
        Opcode::Identify
    } else if n == 3 {
        Opcode::PresenceUpdate
    } else if n == 4 {
        Opcode::VoiceStateUpdate
    } else if n == 6 {
        Opcode::Resume
    } else if n == 7 {
        Opcode::Reconnect
    } else if n == 8 {
        Opcode::RequestGuildMembers
    } else if n == 9 {
        Opcode::InvalidSession
    } else if n == 10 {
        Opcode::Hello
    } else if n == 11 {
        Opcode::HeartbeatAck
    } else {
        Opcode::Dispatch
    }
}

/// The wire numbers that name an opcode.
pub open spec fn is_opcode_number(n: u8) -> bool {
    n <= 11 && n != 5
}

impl From<u8> for Opcode {
    fn from(op: u8) -> (r: Self) {
        match op {
            1 => Opcode::Heartbeat,
            2 => Opcode::Identify,
            3 => Opcode::PresenceUpdate,
            4 => Opcode::VoiceStateUpdate,
            6 => Opcode::Resume,
            7 => Opcode::Reconnect,
            8 => Opcode::RequestGuildMembers,
            9 => Opcode::InvalidSession,
            10 => Opcode::Hello,
            11 => Opcode::HeartbeatAck,
            _ => Opcode::Dispatch,
        }
    }
}

impl vstd::std_specs::convert::FromSpecImpl<u8> for Opcode {
    open spec fn obeys_from_spec() -> bool {
        true
    }

    open spec fn from_spec(v: u8) -> Self {
        opcode_from_number(v)
    }
}

impl From<Opcode> for u8 {
    fn from(op: Opcode) -> (r: u8) {
        match op {
            Opcode::Dispatch => 0,
            Opcode::Heartbeat => 1,
            Opcode::Identify => 2,
            Opcode::PresenceUpdate => 3,
            Opcode::VoiceStateUpdate => 4,
            Opcode::Resume => 6,
            Opcode::Reconnect => 7,
            Opcode::RequestGuildMembers => 8,
            Opcode::InvalidSession => 9,
            Opcode::Hello => 10,
            Opcode::HeartbeatAck => 11,
        }
    }
}

impl vstd::std_specs::convert::FromSpecImpl<Opcode> for u8 {
    open spec fn obeys_from_spec() -> bool {
        true
    }

    open spec fn from_spec(v: Opcode) -> u8 {
        opcode_number(v)
    }
}

/// Law: an opcode survives the trip to its wire number and back.
pub proof fn lemma_opcode_round_trip(op: Opcode)
    ensures
        opcode_from_number(opcode_number(op)) == op,
        is_opcode_number(opcode_number(op)),
{
}

/// Law: a wire number that names an opcode survives the trip to the opcode
/// and back; any other number reads as `Dispatch`, whose number is 0.
pub proof fn lemma_opcode_number_round_trip(n: u8)
    ensures
        is_opcode_number(n) ==> opcode_number(opcode_from_number(n)) == n,
        !is_opcode_number(n) ==> opcode_from_number(n) == Opcode::Dispatch,
{
}

} // verus!
