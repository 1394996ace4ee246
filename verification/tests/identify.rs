use rigel::models::channel::GuildChannel;
use rigel::models::guild::BaseGuild;
use rigel::models::guild_member::{BaseGuildMember, GuildMemberRoleRow};
use rigel::models::role::Role;
use rigel::models::user::PublicUser;
use rigel::state::Sessions;
use rigel::utils::snowflake::DISCORD_EPOCH;
use rigel::utils::token::sign_token_at;
use rigel::ws::handlers::identify::{guild_ids, identify_client, ready_guilds};
use rigel::ws::models::{ClientProperties, IdentifyPayload};
use rigel::ws::session::GatewaySession;

fn guild(id: &str, name: &str) -> BaseGuild {
    BaseGuild {
        id: id.to_string(),
        created_at: 0,
        owner_id: "o".to_string(),
        name: name.to_string(),
        icon: None,
        banner: None,
        description: None,
        rules_channel_id: None,
        vanity_url_code: None,
        afk_channel_id: None,
        afk_timeout: 300,
        system_channel_id: None,
        system_channel_flags: 0,
        discoverable: false,
    }
}

fn channel(id: &str, guild_id: &str) -> GuildChannel {
    GuildChannel { id: id.to_string(), kind: 0, position: 0, guild_id: guild_id.to_string(), parent_id: None, name: id.to_string() }
}

fn role(id: &str, guild_id: &str) -> Role {
    Role {
        id: id.to_string(),
        guild_id: guild_id.to_string(),
        position: 0,
        name: id.to_string(),
        color: 0,
        unicode_emoji: None,
        hoist: false,
        mentionable: false,
        permissions: 0,
    }
}

fn user(id: &str) -> PublicUser {
    PublicUser {
        id: id.to_string(),
        created_at: 0,
        bot: false,
        public_flags: 0,
        username: id.to_string(),
        global_name: None,
        discriminator: None,
        avatar: None,
        banner: None,
    }
}

#[test]
fn identify_reads_the_token() {
    let token = sign_token_at("123", "s", DISCORD_EPOCH + 1000);
    let payload = IdentifyPayload {
        token: token.clone(),
        properties: ClientProperties { os: Some("linux".to_string()), browser: None },
    };
    let c = identify_client(&payload, "s").unwrap();
    assert_eq!(c.user_id, "123");
    assert_eq!(c.auth_session_id, "AAAAAQ");
    assert_eq!(c.os, "linux");
    assert_eq!(c.browser, "unknown");
    assert!(identify_client(&payload, "other").is_none());
    let bad = IdentifyPayload { token: "a.b".to_string(), properties: ClientProperties { os: None, browser: None } };
    assert!(identify_client(&bad, "s").is_none());
}

#[test]
fn ready_lists_each_guild() {
    let guilds = vec![guild("g1", "One"), guild("g2", "Two"), guild("g1", "One again")];
    let channels = vec![channel("c1", "g1"), channel("c2", "g2"), channel("c3", "g1")];
    let roles = vec![role("g1", "g1"), role("g2", "g2"), role("r9", "g1")];
    let members = vec![
        BaseGuildMember { joined_at: 1, guild_id: "g1".to_string(), user_id: "u1".to_string() },
        BaseGuildMember { joined_at: 2, guild_id: "g2".to_string(), user_id: "u1".to_string() },
        BaseGuildMember { joined_at: 3, guild_id: "g1".to_string(), user_id: "u2".to_string() },
    ];
    let users = vec![user("u1")];
    let member_roles = vec![
        GuildMemberRoleRow { guild_id: "g1".to_string(), user_id: "u1".to_string(), role_id: "g1".to_string() },
        GuildMemberRoleRow { guild_id: "g1".to_string(), user_id: "u1".to_string(), role_id: "r9".to_string() },
        GuildMemberRoleRow { guild_id: "g2".to_string(), user_id: "u1".to_string(), role_id: "g2".to_string() },
    ];
    let mut sessions = Sessions::new();
    sessions.insert(GatewaySession::new("a".to_string()));
    sessions.insert(GatewaySession::new("b".to_string()));
    assert!(sessions.identify("a", "u1".into(), "s".into(), vec!["g1".to_string()]));
    assert!(sessions.identify("b", "u2".into(), "s".into(), vec!["g2".to_string()]));

    let out = ready_guilds(&guilds, &channels, &roles, &members, &users, &member_roles, &sessions);
    assert_eq!(out.len(), 3);
    assert_eq!(out[0].id, "g1");
    let ch: Vec<&str> = out[0].channels.iter().map(|c| c.id.as_str()).collect();
    assert_eq!(ch, vec!["c1", "c3"]);
    let rl: Vec<&str> = out[0].roles.iter().map(|r| r.id.as_str()).collect();
    assert_eq!(rl, vec!["g1", "r9"]);
    assert_eq!(out[0].members.len(), 2);
    assert_eq!(out[0].members[0].user_id, "u1");
    assert_eq!(out[0].members[0].roles, vec!["g1".to_string(), "r9".to_string()]);
    assert_eq!(out[0].members[0].user.as_ref().map(|u| u.id.as_str()), Some("u1"));
    assert!(out[0].members[1].user.is_none());
    assert_eq!(out[0].members[1].joined_at, 3);
    assert_eq!(out[0].presences, vec!["u1".to_string()]);
    assert_eq!(out[1].presences, vec!["u2".to_string()]);
    assert_eq!(out[1].members[0].roles, vec!["g2".to_string()]);
    assert_eq!(out[2].name, "One again");
    assert!(out[2].channels.is_empty());
    assert!(out[2].roles.is_empty());
    assert_eq!(out[2].members.len(), 2);
    assert_eq!(guild_ids(&guilds), vec!["g1".to_string(), "g2".to_string(), "g1".to_string()]);
}
