use vstd::prelude::*;

use crate::utils::text::option_string_copy;

verus! {

/// A channel of a guild.
#[derive(Debug, Clone)]
pub struct GuildChannel {
    pub id: String,
    /// The channel type number (see `ChannelType::value`).
    pub kind: u32,
    pub position: u32,
    pub guild_id: String,
    pub parent_id: Option<String>,
    pub name: String,
}

impl GuildChannel {
    /// A copy of the channel.
    pub fn duplicate(&self) -> (r: GuildChannel)
        ensures
            r == *self,
    {
        GuildChannel {
            id: self.id.clone(),
            kind: self.kind,
            position: self.position,
            guild_id: self.guild_id.clone(),
            parent_id: option_string_copy(&self.parent_id),
            name: self.name.clone(),
        }
    }
}

} // verus!
