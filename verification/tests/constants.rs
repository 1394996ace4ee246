use rigel::utils::constants::gateway::close_codes;
use rigel::utils::constants::gateway::events;
use rigel::utils::constants::gateway::{Opcode, HEARTBEAT_INTERVAL};
use rigel::utils::constants::{
    is_staff, ChannelType, GatewayCloseEventCode, GatewayOpcode, InviteType, MessageType, OverwriteType,
    PermissionFlags, UserFlags, GATEWAY_EVENTS_READY, GATEWAY_HEARTBEAT_INTERVAL,
};

#[test]
fn gateway_opcodes_have_wire_numbers() {
    let pairs = [
        (GatewayOpcode::Dispatch, 0u8),
        (GatewayOpcode::Heartbeat, 1),
        (GatewayOpcode::Identify, 2),
        (GatewayOpcode::PresenceUpdate, 3),
        (GatewayOpcode::VoiceStateUpdate, 4),
        (GatewayOpcode::Resume, 6),
        (GatewayOpcode::Reconnect, 7),
        (GatewayOpcode::RequestGuildMembers, 8),
        (GatewayOpcode::InvalidSession, 9),
        (GatewayOpcode::Hello, 10),
        (GatewayOpcode::HeartbeatAck, 11),
    ];
    for (op, n) in pairs {
        assert_eq!(u8::from(op), n);
        assert_eq!(GatewayOpcode::from(n), op);
    }
}

#[test]
fn unknown_gateway_numbers_read_as_dispatch() {
    assert_eq!(GatewayOpcode::from(5), GatewayOpcode::Dispatch);
    assert_eq!(GatewayOpcode::from(12), GatewayOpcode::Dispatch);
    assert_eq!(GatewayOpcode::from(255), GatewayOpcode::Dispatch);
    assert_eq!(Opcode::from(5), Opcode::Dispatch);
    assert_eq!(Opcode::from(200), Opcode::Dispatch);
}

#[test]
fn opcode_round_trips() {
    for n in 0u8..=255 {
        let op = Opcode::from(n);
        assert_eq!(Opcode::from(u8::from(op)), op);
        if n <= 11 && n != 5 {
            assert_eq!(u8::from(op), n);
        }
    }
    assert_eq!(u8::from(Opcode::Hello), 10);
    assert_eq!(u8::from(Opcode::HeartbeatAck), 11);
    assert_eq!(u8::from(Opcode::Identify), 2);
}

#[test]
fn heartbeat_interval() {
    assert_eq!(HEARTBEAT_INTERVAL, 41250);
    assert_eq!(GATEWAY_HEARTBEAT_INTERVAL, 41250);
}

#[test]
fn close_codes_and_events() {
    assert_eq!(close_codes::UNKNOWN_ERROR.0, 4000);
    assert_eq!(close_codes::AUTHENTICATION_FAILED.0, 4004);
    assert_eq!(
        close_codes::AUTHENTICATION_FAILED.1,
        "The account token sent with your identify payload is incorrect."
    );
    assert_eq!(GatewayCloseEventCode::INVALID_SEQ.0, 4007);
    assert_eq!(GatewayCloseEventCode::DISALLOWED_INTENTS.0, 4014);
    assert_eq!(events::READY, "READY");
    assert_eq!(events::GUILD_CREATE, "GUILD_CREATE");
    assert_eq!(GATEWAY_EVENTS_READY, "READY");
}

#[test]
fn model_kinds_have_stored_numbers() {
    assert_eq!(ChannelType::GuildText.value(), 0);
    assert_eq!(ChannelType::GuildVoice.value(), 2);
    assert_eq!(ChannelType::GuildCategory.value(), 4);
    assert_eq!(MessageType::Default.value(), 0);
    assert_eq!(MessageType::UserJoin.value(), 7);
    assert_eq!(MessageType::Reply.value(), 19);
    assert_eq!(InviteType::Guild.value(), 0);
    assert_eq!(OverwriteType::Role.value(), 0);
    assert_eq!(OverwriteType::Member.value(), 1);
}

#[test]
fn user_flags_drop_unknown_bits() {
    let f = UserFlags::from_bits_truncate(0xffff_ffff);
    assert_eq!(f.bits(), 0x30003);
    assert!(f.contains(UserFlags::STAFF));
    assert!(f.contains(UserFlags::VERIFIED_DEVELOPER | UserFlags::PARTNERED));
    let g = UserFlags::from_bits_truncate(UserFlags::PARTNERED | 4);
    assert_eq!(g.bits(), 2);
    assert!(!g.contains(UserFlags::STAFF));
    assert_eq!(UserFlags::VERIFIED_BOT, 1 << 16);
}

#[test]
fn staff_is_the_first_bit() {
    assert!(is_staff(1));
    assert!(is_staff(3));
    assert!(!is_staff(0));
    assert!(!is_staff(2));
    assert!(!is_staff(1 << 16));
}

#[test]
fn permission_bits() {
    assert_eq!(PermissionFlags::VIEW_CHANNEL, 1 << 10);
    assert_eq!(PermissionFlags::SEND_MESSAGES, 1 << 11);
    assert_eq!(PermissionFlags::CREATE_GUILD_EXPRESSIONS, 1 << 43);
    assert_eq!(PermissionFlags::USE_EXTERNAL_APPS, 1 << 50);
}
