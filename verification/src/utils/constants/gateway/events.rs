//! Names of gateway dispatch events.

use vstd::prelude::*;

verus! {

pub const GUILD_CREATE: &'static str = "GUILD_CREATE";
pub const GUILD_DELETE: &'static str = "GUILD_DELETE";
pub const GUILD_MEMBER_ADD: &'static str = "GUILD_MEMBER_ADD";
pub const GUILD_MEMBER_REMOVE: &'static str = "GUILD_MEMBER_REMOVE";
pub const READY: &'static str = "READY";
pub const RESUMED: &'static str = "RESUMED";
pub const PRESENCE_UPDATE: &'static str = "PRESENCE_UPDATE";
pub const USER_SETTINGS_UPDATE: &'static str = "USER_SETTINGS_UPDATE";

} // verus!
