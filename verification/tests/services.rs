use rigel::services::{create_guild, create_guild_at, default_permissions, guild_blueprint, membership_rows, new_membership_rows};
use rigel::utils::constants::{ChannelType, OverwriteType, PermissionFlags};
use rigel::utils::snowflake::{Snowflake, DISCORD_EPOCH};

#[test]
fn everyone_permissions_value() {
    let expected = PermissionFlags::VIEW_CHANNEL
        | PermissionFlags::CREATE_GUILD_EXPRESSIONS
        | PermissionFlags::SEND_MESSAGES
        | PermissionFlags::EMBED_LINKS
        | PermissionFlags::ATTACH_FILES
        | PermissionFlags::ADD_REACTIONS
        | PermissionFlags::READ_MESSAGE_HISTORY
        | PermissionFlags::CONNECT
        | PermissionFlags::SPEAK;
    assert_eq!(default_permissions(), expected);
    assert_eq!(default_permissions(), 0x800_0031_cc40);
}

#[test]
fn blueprint_lays_out_the_guild() {
    let b = guild_blueprint("Home", "owner", 77, "g".into(), "t".into(), "v".into(), "s".into(), "a".into());
    assert_eq!((b.guild_id.as_str(), b.owner_id.as_str(), b.name.as_str(), b.created_at), ("g", "owner", "Home", 77));
    assert_eq!(b.system_channel_id, "s");
    assert_eq!(b.roles.len(), 1);
    assert_eq!((b.roles[0].id.as_str(), b.roles[0].position, b.roles[0].name.as_str()), ("g", 0, "@everyone"));
    assert_eq!(b.roles[0].permissions, 0x800_0031_cc40);
    let channels: Vec<(&str, ChannelType, u32, Option<&str>, &str)> = b
        .channels
        .iter()
        .map(|c| (c.id.as_str(), c.kind, c.position, c.parent_id.as_deref(), c.name.as_str()))
        .collect();
    assert_eq!(
        channels,
        vec![
            ("t", ChannelType::GuildCategory, 0, None, "Text channels"),
            ("v", ChannelType::GuildCategory, 1, None, "Voice channels"),
            ("s", ChannelType::GuildText, 0, Some("t"), "general"),
            ("a", ChannelType::GuildVoice, 0, Some("v"), "General"),
        ]
    );
    let overwrites: Vec<(OverwriteType, &str, &str)> =
        b.overwrites.iter().map(|o| (o.kind, o.channel_id.as_str(), o.target_id.as_str())).collect();
    assert_eq!(
        overwrites,
        vec![
            (OverwriteType::Role, "t", "g"),
            (OverwriteType::Role, "v", "g"),
            (OverwriteType::Role, "s", "g"),
            (OverwriteType::Role, "a", "g"),
        ]
    );
}

#[test]
fn created_guild_has_fresh_decimal_ids() {
    let snowflake = Snowflake::new(DISCORD_EPOCH);
    let b = create_guild_at(&snowflake, "Home", "owner", 5).ok().unwrap();
    assert_eq!(b.created_at, 5);
    let mut ids: Vec<String> = b.channels.iter().map(|c| c.id.clone()).collect();
    ids.push(b.guild_id.clone());
    for id in &ids {
        let n: u64 = id.parse().unwrap();
        assert_eq!(&n.to_string(), id);
    }
    let mut distinct = ids.clone();
    distinct.sort();
    distinct.dedup();
    assert_eq!(distinct.len(), 5);
    assert_eq!(b.system_channel_id, b.channels[2].id);
    assert_eq!(b.roles[0].id, b.guild_id);
    assert_eq!(b.channels[2].parent_id.as_deref(), Some(b.channels[0].id.as_str()));
}

#[test]
fn created_guild_now() {
    let snowflake = Snowflake::new(DISCORD_EPOCH);
    let b = create_guild(&snowflake, "Now", "me").ok().unwrap();
    assert!(b.created_at > DISCORD_EPOCH as i64);
    assert_eq!(b.name, "Now");
    assert_eq!(b.owner_id, "me");
    assert_eq!(b.overwrites.len(), 4);
}

#[test]
fn joining_writes_membership_and_everyone_role() {
    let (member, role) = membership_rows("u", "g", 9);
    assert_eq!((member.user_id.as_str(), member.guild_id.as_str(), member.joined_at), ("u", "g", 9));
    assert_eq!((role.guild_id.as_str(), role.user_id.as_str(), role.role_id.as_str()), ("g", "u", "g"));
    let (now_member, now_role) = new_membership_rows("u2", "g2");
    assert_eq!(now_member.user_id, "u2");
    assert!(now_member.joined_at > DISCORD_EPOCH);
    assert_eq!(now_role.role_id, "g2");
}

#[test]
fn guild_names_outside_two_to_hundred_are_refused() {
    let snowflake = Snowflake::new(DISCORD_EPOCH);
    let e = create_guild(&snowflake, "x", "me").err().unwrap();
    assert_eq!((e.status, e.message.as_str()), (400, "name must be between 2 and 100 characters"));
    assert!(create_guild_at(&snowflake, &"y".repeat(101), "me", 1).is_err());
    assert!(create_guild_at(&snowflake, &"y".repeat(100), "me", 1).is_ok());
}
