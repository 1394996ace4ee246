//! What creating a guild and joining one write.

use vstd::prelude::*;

use crate::models::guild_member::{BaseGuildMember, GuildMemberRoleRow};
use crate::routes::api::guilds::{check_guild_name, guild_name_ok};
use crate::routes::api::ApiError;
use crate::utils::clock::clock_millis;
use crate::utils::constants::{ChannelType, OverwriteType, PermissionFlags};
use crate::utils::snowflake::Snowflake;
use crate::utils::text::{decimal, decimal_string};

verus! {

/// The permissions of a new guild's `@everyone` role: view channels, create
/// expressions, send messages, embed links, attach files, add reactions,
/// read message history, connect and speak.
pub open spec fn everyone_permissions() -> u64 {
    (1u64 << 10u64) | (1u64 << 43u64) | (1u64 << 11u64) | (1u64 << 14u64) | (1u64 << 15u64) | (1u64 << 6u64)
        | (1u64 << 16u64) | (1u64 << 20u64) | (1u64 << 21u64)
}

/// The permissions of a new guild's `@everyone` role.
pub fn default_permissions() -> (p: u64)
    ensures
        p == everyone_permissions(),
        p == 0x800_0031_cc40u64,
{
    let p = PermissionFlags::VIEW_CHANNEL | PermissionFlags::CREATE_GUILD_EXPRESSIONS | PermissionFlags::SEND_MESSAGES
        | PermissionFlags::EMBED_LINKS | PermissionFlags::ATTACH_FILES | PermissionFlags::ADD_REACTIONS
        | PermissionFlags::READ_MESSAGE_HISTORY | PermissionFlags::CONNECT | PermissionFlags::SPEAK;
    assert(everyone_permissions() == 0x800_0031_cc40u64) by (bit_vector);
    p
}

/// A role to create.
pub struct RoleBlueprint {
    pub id: String,
    pub position: u32,
    pub name: String,
    pub permissions: u64,
}

/// A channel to create.
pub struct ChannelBlueprint {
    pub id: String,
    pub kind: ChannelType,
    pub position: u32,
    pub parent_id: Option<String>,
    pub name: String,
}

/// A permission overwrite to create: for target `target_id` (a role or a
/// member) on channel `channel_id`, with nothing allowed or denied.
pub struct OverwriteBlueprint {
    pub kind: OverwriteType,
    pub channel_id: String,
    pub target_id: String,
}

/// Everything that creating a guild writes.
pub struct GuildBlueprint {
    pub guild_id: String,
    pub created_at: i64,
    pub owner_id: String,
    pub name: String,
    pub system_channel_id: String,
    pub roles: Vec<RoleBlueprint>,
    pub channels: Vec<ChannelBlueprint>,
    pub overwrites: Vec<OverwriteBlueprint>,
}

/// A channel blueprint with these parts.
pub open spec fn is_channel(c: ChannelBlueprint, id: Seq<char>, kind: ChannelType, position: u32, parent_id: Option<Seq<char>>, name: Seq<char>) -> bool {
    &&& c.id@ == id
    &&& c.kind == kind
    &&& c.position == position
    &&& crate::utils::text::option_string_view(c.parent_id) == parent_id
    &&& c.name@ == name
}

/// The guild that `owner_id` creates under `name` at `created_at`, with the
/// given ids: the `@everyone` role (whose id is the guild's), a "Text
/// channels" category holding the "general" text channel (the system
/// channel), a "Voice channels" category holding the "General" voice channel
/// (the AFK channel), and on each channel an overwrite for each role.
pub fn guild_blueprint(
    name: &str,
    owner_id: &str,
    created_at: i64,
    guild_id: String,
    text_category_id: String,
    voice_category_id: String,
    system_channel_id: String,
    afk_channel_id: String,
) -> (b: GuildBlueprint)
    ensures
        b.guild_id == guild_id,
        b.created_at == created_at,
        b.owner_id@ == owner_id@,
        b.name@ == name@,
        b.system_channel_id == system_channel_id,
        b.roles@.len() == 1,
        b.roles@[0].id == guild_id,
        b.roles@[0].position == 0,
        b.roles@[0].name@ == "@everyone"@,
        b.roles@[0].permissions == everyone_permissions(),
        b.channels@.len() == 4,
        is_channel(b.channels@[0], text_category_id@, ChannelType::GuildCategory, 0, None, "Text channels"@),
        is_channel(b.channels@[1], voice_category_id@, ChannelType::GuildCategory, 1, None, "Voice channels"@),
        is_channel(b.channels@[2], system_channel_id@, ChannelType::GuildText, 0, Some(text_category_id@), "general"@),
        is_channel(b.channels@[3], afk_channel_id@, ChannelType::GuildVoice, 0, Some(voice_category_id@), "General"@),
        b.overwrites@.len() == 4,
        forall|i: int| #![trigger b.overwrites@[i]] 0 <= i < 4 ==> {
            &&& b.overwrites@[i].kind == OverwriteType::Role
            &&& b.overwrites@[i].channel_id == b.channels@[i].id
            &&& b.overwrites@[i].target_id == guild_id
        },
        // every parent is a category of the guild
        forall|i: int| #![trigger b.channels@[i]] 0 <= i < 4 && b.channels@[i].parent_id is Some ==> exists|j: int|
            0 <= j < 4 && b.channels@[j].kind == ChannelType::GuildCategory && Some(b.channels@[j].id)
                == b.channels@[i].parent_id,
        // the system channel is a text channel of the guild
        exists|j: int| 0 <= j < 4 && b.channels@[j].id == b.system_channel_id && b.channels@[j].kind == ChannelType::GuildText,
{
    let mut roles: Vec<RoleBlueprint> = Vec::new();
    roles.push(RoleBlueprint { id: guild_id.clone(), position: 0, name: "@everyone".to_owned(), permissions: default_permissions() });
    let mut channels: Vec<ChannelBlueprint> = Vec::new();
    channels.push(ChannelBlueprint {
        id: text_category_id.clone(),
        kind: ChannelType::GuildCategory,
        position: 0,
        parent_id: None,
        name: "Text channels".to_owned(),
    });
    channels.push(ChannelBlueprint {
        id: voice_category_id.clone(),
        kind: ChannelType::GuildCategory,
        position: 1,
        parent_id: None,
        name: "Voice channels".to_owned(),
    });
    channels.push(ChannelBlueprint {
        id: system_channel_id.clone(),
        kind: ChannelType::GuildText,
        position: 0,
        parent_id: Some(text_category_id),
        name: "general".to_owned(),
    });
    channels.push(ChannelBlueprint {
        id: afk_channel_id,
        kind: ChannelType::GuildVoice,
        position: 0,
        parent_id: Some(voice_category_id),
        name: "General".to_owned(),
    });
    let mut overwrites: Vec<OverwriteBlueprint> = Vec::new();
    let mut i: usize = 0;
    while i < channels.len()
        invariant
            channels@.len() == 4,
            roles@.len() == 1,
            roles@[0].id == guild_id,
            0 <= i <= 4,
            overwrites@.len() == i,
            forall|k: int| #![trigger overwrites@[k]] 0 <= k < i ==> {
                &&& overwrites@[k].kind == OverwriteType::Role
                &&& overwrites@[k].channel_id == channels@[k].id
                &&& overwrites@[k].target_id == guild_id
            },
        decreases 4 - i,
    {
        let mut r: usize = 0;
        while r < roles.len()
            invariant
                channels@.len() == 4,
                roles@.len() == 1,
                roles@[0].id == guild_id,
                0 <= i < 4,
                0 <= r <= 1,
                overwrites@.len() == i + r,
                forall|k: int| #![trigger overwrites@[k]] 0 <= k < i + r ==> {
                    &&& overwrites@[k].kind == OverwriteType::Role
                    &&& overwrites@[k].channel_id == channels@[k].id
                    &&& overwrites@[k].target_id == guild_id
                },
            decreases 1 - r,
        {
            overwrites.push(OverwriteBlueprint { kind: OverwriteType::Role, channel_id: channels[i].id.clone(), target_id: roles[r].id.clone() });
            r = r + 1;
        }
        i = i + 1;
    }
    let b = GuildBlueprint {
        guild_id,
        created_at,
        owner_id: owner_id.to_owned(),
        name: name.to_owned(),
        system_channel_id,
        roles,
        channels,
        overwrites,
    };
    assert(b.channels@[2].parent_id is Some && Some(b.channels@[0].id) == b.channels@[2].parent_id);
    assert(Some(b.channels@[1].id) == b.channels@[3].parent_id);
    assert(b.channels@[2].id == b.system_channel_id);
    b
}

/// Whether `b` is what `owner_id` creating guild `name` writes (the time
/// aside): the guild of `guild_blueprint`, with five ids that are decimal
/// numbers (guild, text category, voice category, system channel, AFK
/// channel).
pub open spec fn is_new_guild(b: GuildBlueprint, name: Seq<char>, owner_id: Seq<char>) -> bool {
    &&& exists|g: u64, t: u64, v: u64, s: u64, a: u64| {
        &&& b.guild_id@ == decimal(g as nat)
        &&& b.system_channel_id@ == decimal(s as nat)
        &&& b.channels@.len() == 4
        &&& b.channels@[0].id@ == decimal(t as nat)
        &&& b.channels@[1].id@ == decimal(v as nat)
        &&& b.channels@[2].id@ == decimal(s as nat)
        &&& b.channels@[3].id@ == decimal(a as nat)
    }
    &&& b.owner_id@ == owner_id
    &&& b.name@ == name
    &&& b.roles@.len() == 1
    &&& b.roles@[0].id == b.guild_id
    &&& b.roles@[0].position == 0
    &&& b.roles@[0].name@ == "@everyone"@
    &&& b.roles@[0].permissions == everyone_permissions()
    &&& b.channels@.len() == 4
    &&& is_channel(b.channels@[0], b.channels@[0].id@, ChannelType::GuildCategory, 0, None, "Text channels"@)
    &&& is_channel(b.channels@[1], b.channels@[1].id@, ChannelType::GuildCategory, 1, None, "Voice channels"@)
    &&& is_channel(b.channels@[2], b.system_channel_id@, ChannelType::GuildText, 0, Some(b.channels@[0].id@), "general"@)
    &&& is_channel(b.channels@[3], b.channels@[3].id@, ChannelType::GuildVoice, 0, Some(b.channels@[1].id@), "General"@)
    &&& b.overwrites@.len() == 4
    &&& forall|i: int| #![trigger b.overwrites@[i]] 0 <= i < 4 ==> {
        &&& b.overwrites@[i].kind == OverwriteType::Role
        &&& b.overwrites@[i].channel_id == b.channels@[i].id
        &&& b.overwrites@[i].target_id == b.guild_id
    }
}

/// What `owner_id` creating guild `name` at `created_at` (milliseconds)
/// writes, with five fresh ids from `snowflake`, each in decimal; refused
/// (400, as `check_guild_name` says) when the name is not 2 to 100
/// characters long.
pub fn create_guild_at(snowflake: &Snowflake, name: &str, owner_id: &str, created_at: i64) -> (r: Result<GuildBlueprint, ApiError>)
    ensures
        r is Ok <==> guild_name_ok(name@),
        r matches Ok(b) ==> is_new_guild(b, name@, owner_id@) && b.created_at == created_at,
        r matches Err(e) ==> e.status == 400 && e.message@ == "name must be between 2 and 100 characters"@,
{
    check_guild_name(name)?;
    let g = snowflake.generate(None);
    let t = snowflake.generate(None);
    let v = snowflake.generate(None);
    let s = snowflake.generate(None);
    let a = snowflake.generate(None);
    let b = guild_blueprint(
        name,
        owner_id,
        created_at,
        decimal_string(g),
        decimal_string(t),
        decimal_string(v),
        decimal_string(s),
        decimal_string(a),
    );
    assert(b.channels@[0].id@ == decimal(t as nat));
    Ok(b)
}

/// What `owner_id` creating guild `name` now writes: `create_guild_at` at
/// the time the clock reads.
pub fn create_guild(snowflake: &Snowflake, name: &str, owner_id: &str) -> (r: Result<GuildBlueprint, ApiError>)
    ensures
        r is Ok <==> guild_name_ok(name@),
        r matches Ok(b) ==> is_new_guild(b, name@, owner_id@),
        r matches Err(e) ==> e.status == 400 && e.message@ == "name must be between 2 and 100 characters"@,
{
    create_guild_at(snowflake, name, owner_id, clock_millis())
}

/// The rows that user `user_id` joining guild `guild_id` at `joined_at`
/// writes: the membership, and the member's `@everyone` role, whose id is the
/// guild's.
pub fn membership_rows(user_id: &str, guild_id: &str, joined_at: u64) -> (rows: (BaseGuildMember, GuildMemberRoleRow))
    ensures
        rows.0.user_id@ == user_id@,
        rows.0.guild_id@ == guild_id@,
        rows.0.joined_at == joined_at,
        rows.1.guild_id@ == guild_id@,
        rows.1.user_id@ == user_id@,
        rows.1.role_id@ == guild_id@,
{
    (
        BaseGuildMember { joined_at, guild_id: guild_id.to_owned(), user_id: user_id.to_owned() },
        GuildMemberRoleRow { guild_id: guild_id.to_owned(), user_id: user_id.to_owned(), role_id: guild_id.to_owned() },
    )
}

/// The rows that user `user_id` joining guild `guild_id` now writes:
/// `membership_rows` at the time the clock reads (milliseconds, as an
/// unsigned number).
pub fn new_membership_rows(user_id: &str, guild_id: &str) -> (rows: (BaseGuildMember, GuildMemberRoleRow))
    ensures
        rows.0.user_id@ == user_id@,
        rows.0.guild_id@ == guild_id@,
        rows.1.guild_id@ == guild_id@,
        rows.1.user_id@ == user_id@,
        rows.1.role_id@ == guild_id@,
{
    let now = clock_millis();
    membership_rows(user_id, guild_id, now as u64)
}

} // verus!
