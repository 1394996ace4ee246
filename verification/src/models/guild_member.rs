use vstd::prelude::*;

use crate::models::role::Role;

verus! {

/// Membership of a user in a guild.
#[derive(Debug, Clone)]
pub struct BaseGuildMember {
    pub joined_at: u64,
    pub guild_id: String,
    pub user_id: String,
}

/// A member with the roles they hold.
pub struct GuildMember {
    pub base: BaseGuildMember,
    pub roles: Vec<Role>,
}

/// A role held by a member.
#[derive(Debug, Clone)]
pub struct GuildMemberRole {
    pub user_id: String,
    pub role_id: String,
}

/// A role held by a member, as stored with its guild.
pub struct GuildMemberRoleRow {
    pub guild_id: String,
    pub user_id: String,
    pub role_id: String,
}

impl BaseGuildMember {
    /// A copy of the membership.
    pub fn duplicate(&self) -> (r: BaseGuildMember)
        ensures
            r == *self,
    {
        BaseGuildMember { joined_at: self.joined_at, guild_id: self.guild_id.clone(), user_id: self.user_id.clone() }
    }
}

} // verus!
