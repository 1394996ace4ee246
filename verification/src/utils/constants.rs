//! Protocol constants: gateway opcodes and close codes, event names, channel,
//! message, invite and overwrite types, and user and permission flags.

pub mod gateway;

use vstd::prelude::*;

verus! {

/// The interval, in milliseconds, at which gateway clients must heartbeat.
pub const GATEWAY_HEARTBEAT_INTERVAL: u32 = 41250;

/// Operation codes of gateway payloads.
#[derive(Debug, Clone, Copy, PartialEq, Eq, Structural)]
pub enum GatewayOpcode {
    Dispatch,
    Heartbeat,
    Identify,
    PresenceUpdate,
    VoiceStateUpdate,
    Resume,
    Reconnect,
    RequestGuildMembers,
    InvalidSession,
    Hello,
    HeartbeatAck,
}

/// The wire number of each opcode.
pub open spec fn gateway_opcode_number(op: GatewayOpcode) -> u8 {
    match op {
        GatewayOpcode::Dispatch => 0,
        GatewayOpcode::Heartbeat => 1,
        GatewayOpcode::Identify => 2,
        GatewayOpcode::PresenceUpdate => 3,
        GatewayOpcode::VoiceStateUpdate => 4,
        GatewayOpcode::Resume => 6,
        GatewayOpcode::Reconnect => 7,
        GatewayOpcode::RequestGuildMembers => 8,
        GatewayOpcode::InvalidSession => 9,
        GatewayOpcode::Hello => 10,
        GatewayOpcode::HeartbeatAck => 11,
    }
}

/// The opcode a wire number stands for; numbers that name no opcode read as
/// `Dispatch`.
pub open spec fn gateway_opcode_from_number(n: u8) -> GatewayOpcode {
    if n == 1 {
        GatewayOpcode::Heartbeat
    } else if n == 2 {
        GatewayOpcode::Identify
    } else if n == 3 {
        GatewayOpcode::PresenceUpdate
    } else if n == 4 {
        GatewayOpcode::VoiceStateUpdate
    } else if n == 6 {
        GatewayOpcode::Resume
    } else if n == 7 {
        GatewayOpcode::Reconnect
    } else if n == 8 {
        GatewayOpcode::RequestGuildMembers
    } else if n == 9 {
        GatewayOpcode::InvalidSession
    } else if n == 10 {
        GatewayOpcode::Hello
    } else if n == 11 {
        GatewayOpcode::HeartbeatAck
    } else {
        GatewayOpcode::Dispatch
    }
}

/// The wire numbers that name an opcode.
pub open spec fn is_gateway_opcode_number(n: u8) -> bool {
    n <= 11 && n != 5
}

impl From<u8> for GatewayOpcode {
    fn from(op: u8) -> (r: Self) {
        match op {
            1 => GatewayOpcode::Heartbeat,
            2 => GatewayOpcode::Identify,
            3 => GatewayOpcode::PresenceUpdate,
            4 => GatewayOpcode::VoiceStateUpdate,
            6 => GatewayOpcode::Resume,
            7 => GatewayOpcode::Reconnect,
            8 => GatewayOpcode::RequestGuildMembers,
            9 => GatewayOpcode::InvalidSession,
            10 => GatewayOpcode::Hello,
            11 => GatewayOpcode::HeartbeatAck,
            _ => GatewayOpcode::Dispatch,
        }
    }
}

impl vstd::std_specs::convert::FromSpecImpl<u8> for GatewayOpcode {
    open spec fn obeys_from_spec() -> bool {
        true
    }

    open spec fn from_spec(v: u8) -> Self {
        gateway_opcode_from_number(v)
    }
}

impl From<GatewayOpcode> for u8 {
    fn from(op: GatewayOpcode) -> (r: u8) {
        match op {
            GatewayOpcode::Dispatch => 0,
            GatewayOpcode::Heartbeat => 1,
            GatewayOpcode::Identify => 2,
            GatewayOpcode::PresenceUpdate => 3,
            GatewayOpcode::VoiceStateUpdate => 4,
            GatewayOpcode::Resume => 6,
            GatewayOpcode::Reconnect => 7,
            GatewayOpcode::RequestGuildMembers => 8,
            GatewayOpcode::InvalidSession => 9,
            GatewayOpcode::Hello => 10,
            GatewayOpcode::HeartbeatAck => 11,
        }
    }
}

impl vstd::std_specs::convert::FromSpecImpl<GatewayOpcode> for u8 {
    open spec fn obeys_from_spec() -> bool {
        true
    }

    open spec fn from_spec(v: GatewayOpcode) -> u8 {
        gateway_opcode_number(v)
    }
}

/// Law: an opcode survives the trip to its wire number and back.
pub proof fn lemma_gateway_opcode_round_trip(op: GatewayOpcode)
    ensures
        gateway_opcode_from_number(gateway_opcode_number(op)) == op,
        is_gateway_opcode_number(gateway_opcode_number(op)),
{
}

/// Law: a wire number that names an opcode survives the trip to the opcode
/// and back; any other number reads as `Dispatch`, whose number is 0.
pub proof fn lemma_gateway_opcode_number_round_trip(n: u8)
    ensures
        is_gateway_opcode_number(n) ==> gateway_opcode_number(gateway_opcode_from_number(n)) == n,
        !is_gateway_opcode_number(n) ==> gateway_opcode_from_number(n) == GatewayOpcode::Dispatch,
{
}

/// Gateway close codes with their explanations.
pub struct GatewayCloseEventCode;

impl GatewayCloseEventCode {
    pub const UNKNOWN_ERROR: (u16, &'static str) = (4000, "We're not sure what went wrong. Try reconnecting?");
    pub const UNKNOWN_OPCODE: (u16, &'static str) = (4001, "You sent an invalid Gateway opcode or an invalid payload for an opcode. Don't do that!");
    pub const DECODE_ERROR: (u16, &'static str) = (4002, "You sent an invalid payload to Discord. Don't do that!");
    pub const NOT_AUTHENTICATED: (u16, &'static str) = (4003, "You sent us a payload prior to identifying, or this session has been invalidated.");
    pub const AUTHENTICATION_FAILED: (u16, &'static str) = (4004, "The account token sent with your identify payload is incorrect.");
    pub const ALREADY_AUTHENTICATED: (u16, &'static str) = (4005, "You sent more than one identify payload. Don't do that!");
    pub const INVALID_SEQ: (u16, &'static str) = (4007, "The sequence sent when resuming the session was invalid. Reconnect and start a new session.");
    pub const RATE_LIMITED: (u16, &'static str) = (4008, "Woah nelly! You're sending payloads to us too quickly. Slow it down! You will be disconnected on receiving this.");
    pub const SESSION_TIMED_OUT: (u16, &'static str) = (4009, "Your session timed out. Reconnect and start a new one.");
    pub const INVALID_SHARD: (u16, &'static str) = (4010, "You sent us an invalid shard when identifying.");
    pub const SHARDING_REQUIRED: (u16, &'static str) = (4011, "The session would have handled too many guilds - you are required to shard your connection in order to connect.");
    pub const INVALID_API_VERSION: (u16, &'static str) = (4012, "You sent an invalid version for the gateway.");
    pub const INVALID_INTENTS: (u16, &'static str) = (4013, "You sent an invalid intent for a Gateway Intent. You may have incorrectly calculated the bitwise value.");
    pub const DISALLOWED_INTENTS: (u16, &'static str) = (4014, "You sent a disallowed intent for a Gateway Intent. You may have tried to specify an intent that you have not enabled or are not approved for.");
}

pub const GATEWAY_EVENTS_GUILD_CREATE: &'static str = "GUILD_CREATE";
pub const GATEWAY_EVENTS_GUILD_DELETE: &'static str = "GUILD_DELETE";
pub const GATEWAY_EVENTS_GUILD_MEMBER_ADD: &'static str = "GUILD_MEMBER_ADD";
pub const GATEWAY_EVENTS_GUILD_MEMBER_REMOVE: &'static str = "GUILD_MEMBER_REMOVE";
pub const GATEWAY_EVENTS_READY: &'static str = "READY";
pub const GATEWAY_EVENTS_RESUMED: &'static str = "RESUMED";
pub const GATEWAY_EVENTS_PRESENCE_UPDATE: &'static str = "PRESENCE_UPDATE";
pub const GATEWAY_EVENTS_USER_SETTINGS_UPDATE: &'static str = "USER_SETTINGS_UPDATE";

/// Kinds of guild channels.
#[derive(Debug, Clone, Copy, PartialEq, Eq, Structural)]
pub enum ChannelType {
    GuildText,
    GuildVoice,
    GuildCategory,
}

impl ChannelType {
    /// The number stored for the kind: 0 for text, 2 for voice, 4 for a
    /// category.
    pub fn value(self) -> (v: u32)
        ensures
            v == channel_type_number(self),
    {
        match self {
            ChannelType::GuildText => 0,
            ChannelType::GuildVoice => 2,
            ChannelType::GuildCategory => 4,
        }
    }
}

pub open spec fn channel_type_number(t: ChannelType) -> u32 {
    match t {
        ChannelType::GuildText => 0,
        ChannelType::GuildVoice => 2,
        ChannelType::GuildCategory => 4,
    }
}

/// Kinds of messages.
#[derive(Debug, Clone, Copy, PartialEq, Eq, Structural)]
pub enum MessageType {
    Default,
    UserJoin,
    Reply,
}

impl MessageType {
    /// The number stored for the kind: 0, 7 or 19.
    pub fn value(self) -> (v: u32)
        ensures
            v == message_type_number(self),
    {
        match self {
            MessageType::Default => 0,
            MessageType::UserJoin => 7,
            MessageType::Reply => 19,
        }
    }
}

pub open spec fn message_type_number(t: MessageType) -> u32 {
    match t {
        MessageType::Default => 0,
        MessageType::UserJoin => 7,
        MessageType::Reply => 19,
    }
}

/// Kinds of invites.
#[derive(Debug, Clone, Copy, PartialEq, Eq, Structural)]
pub enum InviteType {
    Guild,
}

impl InviteType {
    /// The number stored for the kind: 0.
    pub fn value(self) -> (v: u32)
        ensures
            v == 0,
    {
        match self {
            InviteType::Guild => 0,
        }
    }
}

/// Targets of channel permission overwrites.
#[derive(Debug, Clone, Copy, PartialEq, Eq, Structural)]
pub enum OverwriteType {
    Role,
    Member,
}

impl OverwriteType {
    /// The number stored for the target: 0 for a role, 1 for a member.
    pub fn value(self) -> (v: u32)
        ensures
            v == overwrite_type_number(self),
    {
        match self {
            OverwriteType::Role => 0,
            OverwriteType::Member => 1,
        }
    }
}

pub open spec fn overwrite_type_number(t: OverwriteType) -> u32 {
    match t {
        OverwriteType::Role => 0,
        OverwriteType::Member => 1,
    }
}

/// Public flags of a user: a set of the known flag bits.
#[derive(Debug, Clone, Copy, PartialEq, Eq, Structural)]
pub struct UserFlags {
    bits: u32,
}

impl View for UserFlags {
    type V = u32;

    closed spec fn view(&self) -> u32 {
        self.bits
    }
}

impl UserFlags {
    pub const STAFF: u32 = 1u32 << 0u32;
    pub const PARTNERED: u32 = 1u32 << 1u32;
    pub const VERIFIED_BOT: u32 = 1u32 << 16u32;
    pub const VERIFIED_DEVELOPER: u32 = 1u32 << 17u32;
    /// Every known flag bit.
    pub const ALL: u32 = 0x30003u32;

    /// The flags among `bits`, unknown bits dropped.
    pub fn from_bits_truncate(bits: u32) -> (f: UserFlags)
        ensures
            f@ == bits & 0x30003u32,
    {
        UserFlags { bits: bits & UserFlags::ALL }
    }

    /// The flag bits.
    pub fn bits(&self) -> (b: u32)
        ensures
            b == self@,
    {
        self.bits
    }

    /// Whether every bit of `flags` is set.
    pub fn contains(&self, flags: u32) -> (r: bool)
        ensures
            r == (self@ & flags == flags),
    {
        self.bits & flags == flags
    }
}

/// Whether a user with these public flags is staff: the first user to
/// register, and whoever the flag is given to later.
pub fn is_staff(public_flags: u32) -> (r: bool)
    ensures
        r == (public_flags & 1u32 == 1u32),
{
    let flags = UserFlags::from_bits_truncate(public_flags);
    let r = flags.contains(UserFlags::STAFF);
    assert(UserFlags::STAFF == 1u32) by {
        assert(1u32 << 0u32 == 1u32) by (bit_vector);
    }
    assert((public_flags & 0x30003u32) & 1u32 == public_flags & 1u32) by (bit_vector);
    r
}

/// Permission bits of roles and channel overwrites.
pub struct PermissionFlags;

impl PermissionFlags {
    pub const CREATE_INSTANT_INVITE: u64 = 1u64 << 0u64;
    pub const KICK_MEMBERS: u64 = 1u64 << 1u64;
    pub const BAN_MEMBERS: u64 = 1u64 << 2u64;
    pub const ADMINISTRATOR: u64 = 1u64 << 3u64;
    pub const MANAGE_CHANNELS: u64 = 1u64 << 4u64;
    pub const MANAGE_GUILD: u64 = 1u64 << 5u64;
    pub const ADD_REACTIONS: u64 = 1u64 << 6u64;
    pub const VIEW_AUDIT_LOG: u64 = 1u64 << 7u64;
    pub const PRIORITY_SPEAKER: u64 = 1u64 << 8u64;
    pub const STREAM: u64 = 1u64 << 9u64;
    pub const VIEW_CHANNEL: u64 = 1u64 << 10u64;
    pub const SEND_MESSAGES: u64 = 1u64 << 11u64;
    pub const SEND_TTS_MESSAGES: u64 = 1u64 << 12u64;
    pub const MANAGE_MESSAGES: u64 = 1u64 << 13u64;
    pub const EMBED_LINKS: u64 = 1u64 << 14u64;
    pub const ATTACH_FILES: u64 = 1u64 << 15u64;
    pub const READ_MESSAGE_HISTORY: u64 = 1u64 << 16u64;
    pub const MENTION_EVERYONE: u64 = 1u64 << 17u64;
    pub const USE_EXTERNAL_EMOJIS: u64 = 1u64 << 18u64;
    pub const VIEW_GUILD_INSIGHTS: u64 = 1u64 << 19u64;
    pub const CONNECT: u64 = 1u64 << 20u64;
    pub const SPEAK: u64 = 1u64 << 21u64;
    pub const MUTE_MEMBERS: u64 = 1u64 << 22u64;
    pub const DEAFEN_MEMBERS: u64 = 1u64 << 23u64;
    pub const MOVE_MEMBERS: u64 = 1u64 << 24u64;
    pub const USE_VAD: u64 = 1u64 << 25u64;
    pub const CHANGE_NICKNAME: u64 = 1u64 << 26u64;
    pub const MANAGE_NICKNAMES: u64 = 1u64 << 27u64;
    pub const MANAGE_ROLES: u64 = 1u64 << 28u64;
    pub const MANAGE_WEBHOOKS: u64 = 1u64 << 29u64;
    pub const MANAGE_GUILD_EXPRESSIONS: u64 = 1u64 << 30u64;
    pub const USE_APPLICATION_COMMANDS: u64 = 1u64 << 31u64;
    pub const REQUEST_TO_SPEAK: u64 = 1u64 << 32u64;
    pub const MANAGE_EVENTS: u64 = 1u64 << 33u64;
    pub const MANAGE_THREADS: u64 = 1u64 << 34u64;
    pub const CREATE_PUBLIC_THREADS: u64 = 1u64 << 35u64;
    pub const CREATE_PRIVATE_THREADS: u64 = 1u64 << 36u64;
    pub const USE_EXTERNAL_STICKERS: u64 = 1u64 << 37u64;
    pub const SEND_MESSAGES_IN_THREADS: u64 = 1u64 << 38u64;
    pub const USE_EMBEDDED_ACTIVITIES: u64 = 1u64 << 39u64;
    pub const MODERATE_MEMBERS: u64 = 1u64 << 40u64;
    pub const VIEW_CREATOR_MONETIZATION_ANALYTICS: u64 = 1u64 << 41u64;
    pub const USE_SOUNDBOARD: u64 = 1u64 << 42u64;
    pub const CREATE_GUILD_EXPRESSIONS: u64 = 1u64 << 43u64;
    pub const CREATE_EVENTS: u64 = 1u64 << 44u64;
    pub const USE_EXTERNAL_SOUNDS: u64 = 1u64 << 45u64;
    pub const SEND_VOICE_MESSAGES: u64 = 1u64 << 46u64;
    pub const SEND_POLLS: u64 = 1u64 << 49u64;
    pub const USE_EXTERNAL_APPS: u64 = 1u64 << 50u64;
}

} // verus!
