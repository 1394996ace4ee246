//! The state the server keeps for one gateway connection.

use vstd::prelude::*;

use crate::utils::constants::gateway::Opcode;
use crate::utils::text::{option_str_to_string, option_str_view, option_string_view, string_set};
use crate::ws::models::GatewayPayload;

verus! {

/// A gateway connection: its id, the user and login session it identified
/// as (if it did), the sequence number of its next dispatch, and the guilds
/// whose events it receives.
pub struct GatewaySession {
    pub id: String,
    pub user_id: Option<String>,
    pub auth_session_id: Option<String>,
    pub sequence: u64,
    pub guilds: Vec<String>,
}

/// The state of a connection, as a value.
pub struct SessionState {
    pub user_id: Option<Seq<char>>,
    pub auth_session_id: Option<Seq<char>>,
    pub sequence: u64,
    pub guilds: Set<Seq<char>>,
}

/// What a connection frame built by `send_event` holds: an opcode number, an
/// optional event name and the data.
pub struct EventFrame<T> {
    pub op: u8,
    pub t: Option<String>,
    pub d: T,
}

impl View for GatewaySession {
    type V = SessionState;

    open spec fn view(&self) -> SessionState {
        SessionState {
            user_id: option_string_view(self.user_id),
            auth_session_id: option_string_view(self.auth_session_id),
            sequence: self.sequence,
            guilds: string_set(self.guilds@),
        }
    }
}

/// The sequence number after `s`: one more, wrapping to 0 after the largest.
pub open spec fn next_sequence(s: u64) -> u64 {
    if s == u64::MAX {
        0
    } else {
        (s + 1) as u64
    }
}

impl GatewaySession {
    /// A fresh connection: not identified, in no guild, sequence 0.
    pub fn new(id: String) -> (s: Self)
        ensures
            s.id@ == id@,
            s.user_id is None,
            s.auth_session_id is None,
            s.sequence == 0,
            s.guilds@.len() == 0,
    {
        GatewaySession { id, user_id: None, auth_session_id: None, sequence: 0, guilds: Vec::new() }
    }

    /// Builds the next payload of this connection: it carries the current
    /// sequence number, which then advances by one.
    pub fn send<T>(&mut self, op: Opcode, t: Option<&str>, d: Option<T>) -> (p: GatewayPayload<T>)
        ensures
            p.op == op,
            p.d == d,
            p.s == Some(old(self).sequence),
            option_string_view(p.t) == option_str_view(t),
            final(self).sequence == next_sequence(old(self).sequence),
            final(self).id == old(self).id,
            final(self).user_id == old(self).user_id,
            final(self).auth_session_id == old(self).auth_session_id,
            final(self).guilds == old(self).guilds,
    {
        let s = self.sequence;
        self.sequence = self.sequence.wrapping_add(1);
        GatewayPayload { op, d, t: option_str_to_string(t), s: Some(s) }
    }

    /// Builds the next dispatch of event `t` with data `d`.
    pub fn dispatch<T>(&mut self, t: &str, d: T) -> (p: GatewayPayload<T>)
        ensures
            p.op == Opcode::Dispatch,
            p.d == Some(d),
            p.s == Some(old(self).sequence),
            option_string_view(p.t) == Some(t@),
            final(self).sequence == next_sequence(old(self).sequence),
            final(self).id == old(self).id,
            final(self).user_id == old(self).user_id,
            final(self).auth_session_id == old(self).auth_session_id,
            final(self).guilds == old(self).guilds,
    {
        self.send(Opcode::Dispatch, Some(t), Some(d))
    }

    /// Builds a frame with opcode number `op`, event name `t` and data `d`,
    /// outside the sequence.
    pub fn send_event<T>(&self, op: u8, t: Option<&str>, d: T) -> (f: EventFrame<T>)
        ensures
            f.op == op,
            option_string_view(f.t) == option_str_view(t),
            f.d == d,
    {
        EventFrame { op, t: option_str_to_string(t), d }
    }

    /// Whether the connection receives the events of guild `guild_id`.
    pub fn in_guild(&self, guild_id: &str) -> (r: bool)
        ensures
            r == self@.guilds.contains(guild_id@),
    {
        crate::utils::text::contains_str(&self.guilds, guild_id)
    }

    /// Whether the connection identified as user `user_id`.
    pub fn is_user(&self, user_id: &str) -> (r: bool)
        ensures
            r == (self@.user_id == Some(user_id@)),
    {
        match &self.user_id {
            Some(u) => crate::utils::text::str_equal(u.as_str(), user_id),
            None => false,
        }
    }
}

} // verus!
