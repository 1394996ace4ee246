use vstd::prelude::*;

use crate::utils::text::{option_string_copy, option_string_view};

verus! {

/// A role of a guild.
#[derive(Debug, Clone)]
pub struct Role {
    pub id: String,
    pub guild_id: String,
    pub position: u32,
    pub name: String,
    pub color: u32,
    pub unicode_emoji: Option<String>,
    pub hoist: bool,
    pub mentionable: bool,
    pub permissions: u64,
}

/// The contents of a role.
pub struct RoleView {
    pub id: Seq<char>,
    pub guild_id: Seq<char>,
    pub position: u32,
    pub name: Seq<char>,
    pub color: u32,
    pub unicode_emoji: Option<Seq<char>>,
    pub hoist: bool,
    pub mentionable: bool,
    pub permissions: u64,
}

impl View for Role {
    type V = RoleView;

    open spec fn view(&self) -> RoleView {
        RoleView {
            id: self.id@,
            guild_id: self.guild_id@,
            position: self.position,
            name: self.name@,
            color: self.color,
            unicode_emoji: option_string_view(self.unicode_emoji),
            hoist: self.hoist,
            mentionable: self.mentionable,
            permissions: self.permissions,
        }
    }
}

impl Role {
    /// A copy of the role.
    pub fn duplicate(&self) -> (r: Role)
        ensures
            r == *self,
            r@ == self@,
    {
        Role {
            id: self.id.clone(),
            guild_id: self.guild_id.clone(),
            position: self.position,
            name: self.name.clone(),
            color: self.color,
            unicode_emoji: option_string_copy(&self.unicode_emoji),
            hoist: self.hoist,
            mentionable: self.mentionable,
            permissions: self.permissions,
        }
    }
}

} // verus!
