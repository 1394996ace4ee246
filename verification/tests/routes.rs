use rigel::db::models::User;
use rigel::models::guild::DiscoverableGuild;
use rigel::models::guild_member::{BaseGuildMember, GuildMemberRole};
use rigel::models::role::Role;
use rigel::routes::api::auth::{
    account_with_hash, check_login, password_matches, register_account, register_new_account, RegisterRequest,
};
use rigel::routes::api::channels::messages::{
    check_author, check_channel_access, check_content, message_from_row, message_list_statement, ChannelAction,
    MessageChange, MessageListQuery, MessageRow,
};
use rigel::routes::api::discoverable_guilds::{presence_count_sql, presence_count_statement, DiscoverableGuildsResponse};
use rigel::routes::api::gateway::{cdn_url, gateway_url, GatewayBotResponse};
use rigel::routes::api::guilds::{check_guild_name, may_create_guild, member_permissions, members_with_roles};
use rigel::routes::api::users::me::{
    update_profile_statement, update_settings_statement, update_user_statement, UpdateProfileRequest,
    UpdateSettingsRequest, UpdateUserRequest, UserProfileResponse,
};
use rigel::routes::api::users::{UserProfileRes, UserProfileRow};
use rigel::routes::api::{authenticate, SqlValue};
use rigel::utils::snowflake::{Snowflake, DISCORD_EPOCH};
use rigel::utils::token::sign_token_at;

fn show(v: &SqlValue) -> String {
    match v {
        SqlValue::Text(Some(s)) => format!("T:{}", s),
        SqlValue::Text(None) => "T:null".to_string(),
        SqlValue::Unsigned(Some(n)) => format!("U:{}", n),
        SqlValue::Unsigned(None) => "U:null".to_string(),
        SqlValue::Bool(b) => format!("B:{}", b),
    }
}

fn shown(v: &[SqlValue]) -> Vec<String> {
    v.iter().map(show).collect()
}

fn role(id: &str, name: &str) -> Role {
    Role {
        id: id.to_string(),
        guild_id: "g".to_string(),
        position: 0,
        name: name.to_string(),
        color: 0,
        unicode_emoji: None,
        hoist: false,
        mentionable: false,
        permissions: 0,
    }
}

fn account(hash: Option<String>) -> User {
    User {
        id: "1".to_string(),
        created_at: 0,
        bot: false,
        public_flags: 0,
        username: "alice".to_string(),
        password_hash: hash,
        global_name: None,
        discriminator: Some("0".to_string()),
        avatar: None,
        banner: None,
    }
}

#[test]
fn authenticate_reads_the_header() {
    let token = sign_token_at("55", "s", DISCORD_EPOCH + 1);
    assert_eq!(authenticate(Some(&token), "s").ok(), Some("55".to_string()));
    let missing = authenticate(None, "s").unwrap_err();
    assert_eq!((missing.status, missing.message.as_str()), (401, "Missing authorization"));
    let bad = authenticate(Some("x"), "s").unwrap_err();
    assert_eq!((bad.status, bad.message.as_str()), (401, "token malformed"));
    let wrong = authenticate(Some(&token), "t").unwrap_err();
    assert_eq!((wrong.status, wrong.message.as_str()), (401, "invalid signature"));
}

#[test]
fn registered_account_logs_in() {
    let request = RegisterRequest { username: "alice".to_string(), password: Some("pw".to_string()) };
    let user = register_account("9".to_string(), 1234, request, 0).unwrap();
    assert_eq!(user.id, "9");
    assert_eq!(user.created_at, 1234);
    assert_eq!(user.public_flags, 1);
    assert!(!user.bot);
    assert_eq!(user.username, "alice");
    assert_eq!(user.discriminator, Some("0".to_string()));
    assert!(user.password_hash.as_deref().unwrap().starts_with("$2b$12$"));
    assert!(password_matches(&user, Some("pw")));
    assert!(!password_matches(&user, Some("other")));
    assert!(!password_matches(&user, None));
    let logged = check_login(Some(user), Some("pw")).unwrap();
    assert_eq!(logged.id, "9");
}

#[test]
fn later_accounts_are_not_staff_and_empty_password_counts() {
    let request = RegisterRequest { username: "bob".to_string(), password: None };
    let user = register_account("10".to_string(), 1, request, 3).unwrap();
    assert_eq!(user.public_flags, 0);
    assert!(password_matches(&user, None));
    assert!(password_matches(&user, Some("")));
    assert!(!password_matches(&user, Some("x")));
}

#[test]
fn register_new_account_takes_a_fresh_decimal_id() {
    let snowflake = Snowflake::new(DISCORD_EPOCH);
    let request = RegisterRequest { username: "carol".to_string(), password: Some("p".to_string()) };
    let user = register_new_account(&snowflake, request, 1).unwrap();
    let id: u64 = user.id.parse().unwrap();
    assert_eq!(id.to_string(), user.id);
    assert!(snowflake.timestamp_from(id) >= DISCORD_EPOCH);
    assert!(user.created_at > 0);
    assert_eq!(user.public_flags, 0);
    assert!(password_matches(&user, Some("p")));
}

#[test]
fn login_refusals() {
    assert!(check_login(None, Some("pw")).is_none());
    assert!(check_login(Some(account(None)), Some("pw")).is_none());
    assert!(check_login(Some(account(Some("not a hash".to_string()))), Some("pw")).is_none());
}

#[test]
fn only_the_author_changes_a_message() {
    assert!(check_author("u", "u", MessageChange::Edit, 0).is_ok());
    assert!(check_author("u", "u", MessageChange::Delete, 0).is_ok());
    assert!(check_author("u", "v", MessageChange::Delete, 1 << 13).is_ok());
    assert!(check_author("u", "v", MessageChange::Delete, u64::MAX).is_ok());
    assert!(check_author("u", "v", MessageChange::Edit, 1 << 13).is_err());
    assert!(check_author("u", "v", MessageChange::Delete, 0x800_0031_cc40).is_err());
    let e = check_author("u", "v", MessageChange::Edit, 0).unwrap_err();
    assert_eq!((e.status, e.message.as_str()), (403, "Cannot edit message authored by another user"));
    let d = check_author("u", "v", MessageChange::Delete, 0).unwrap_err();
    assert_eq!((d.status, d.message.as_str()), (403, "Missing Permissions"));
}

#[test]
fn message_row_becomes_message() {
    let row = MessageRow {
        id: "m".to_string(),
        channel_id: "c".to_string(),
        content: Some("hello".to_string()),
        timestamp: 10,
        edited_timestamp: Some(11),
        kind: 0,
        flags: 2,
        author_id: "a".to_string(),
        username: "ann".to_string(),
        global_name: None,
        avatar: Some("av".to_string()),
        banner: None,
        public_flags: 1,
    };
    let m = message_from_row(row);
    assert_eq!(m.id, "m");
    assert_eq!(m.author_id, "a");
    assert_eq!(m.author.id, "a");
    assert_eq!(m.author.username, "ann");
    assert_eq!(m.author.avatar, Some("av".to_string()));
    assert_eq!(m.content, Some("hello".to_string()));
    assert_eq!(m.edited_timestamp, Some(11));
    assert_eq!((m.timestamp, m.kind, m.flags, m.author.public_flags), (10, 0, 2, 1));
}

#[test]
fn guild_creation_is_for_staff() {
    assert!(may_create_guild(1));
    assert!(may_create_guild(0x30003));
    assert!(!may_create_guild(0));
    assert!(!may_create_guild(2));
}

#[test]
fn members_get_their_roles() {
    let members = vec![
        BaseGuildMember { joined_at: 1, guild_id: "g".to_string(), user_id: "u1".to_string() },
        BaseGuildMember { joined_at: 2, guild_id: "g".to_string(), user_id: "u2".to_string() },
    ];
    let rows = vec![
        GuildMemberRole { user_id: "u1".to_string(), role_id: "r2".to_string() },
        GuildMemberRole { user_id: "u2".to_string(), role_id: "r1".to_string() },
        GuildMemberRole { user_id: "u1".to_string(), role_id: "r1".to_string() },
        GuildMemberRole { user_id: "u1".to_string(), role_id: "missing".to_string() },
    ];
    let roles = vec![role("r1", "first"), role("r2", "second"), role("r1", "later")];
    let out = members_with_roles(&members, &rows, &roles);
    assert_eq!(out.len(), 2);
    assert_eq!(out[0].base.user_id, "u1");
    let names: Vec<&str> = out[0].roles.iter().map(|r| r.name.as_str()).collect();
    assert_eq!(names, vec!["second", "later"]);
    let names2: Vec<&str> = out[1].roles.iter().map(|r| r.name.as_str()).collect();
    assert_eq!(names2, vec!["later"]);
    assert_eq!(out[1].base.joined_at, 2);
}

#[test]
fn discoverable_listing() {
    let g = || DiscoverableGuild {
        id: "1".to_string(),
        name: "A".to_string(),
        icon: None,
        banner: None,
        description: None,
        vanity_url_code: None,
        approximate_member_count: 3,
        approximate_presence_count: 1,
    };
    let r = DiscoverableGuildsResponse::new(vec![g(), g()]);
    assert_eq!((r.offset, r.limit, r.total, r.guilds.len()), (0, 2, 2, 2));
    let empty = DiscoverableGuildsResponse::new(vec![]);
    assert_eq!((empty.offset, empty.limit, empty.total), (0, 0, 0));
}

#[test]
fn presence_count_query_text() {
    assert_eq!(
        presence_count_sql("42", 3),
        "SELECT COUNT(DISTINCT user_id) as c FROM guild_members WHERE guild_id = '42' AND user_id IN (?, ?, ?)"
    );
    assert_eq!(
        presence_count_sql("7", 1),
        "SELECT COUNT(DISTINCT user_id) as c FROM guild_members WHERE guild_id = '7' AND user_id IN (?)"
    );
}

#[test]
fn gateway_urls() {
    assert_eq!(gateway_url("wss://x"), "wss://x/gateway");
    assert_eq!(cdn_url("https://x"), "https://x/cdn");
    assert_eq!(gateway_url(""), "/gateway");
    let bot = GatewayBotResponse::new("wss://y");
    assert_eq!(bot.url, "wss://y/gateway");
    assert_eq!(bot.shards, 1);
    let l = &bot.session_start_limit;
    assert_eq!((l.remaining, l.total, l.max_concurrency, l.reset_after), (0, 1, 1, 14400000));
}

#[test]
fn account_update_statement() {
    let req = UpdateUserRequest {
        global_name: Some(Some("  Bob ".to_string())),
        avatar: None,
        banner: Some(None),
    };
    let st = update_user_statement(&req, "7").ok().unwrap();
    assert_eq!(st.sql, "UPDATE users SET global_name = ?banner = ? WHERE id = ?");
    assert_eq!(shown(&st.binds), vec!["T:Bob", "T:null", "T:7"]);
    let avatar_only = UpdateUserRequest { global_name: None, avatar: Some(Some("x".to_string())), banner: None };
    let st2 = update_user_statement(&avatar_only, "7").ok().unwrap();
    assert_eq!(st2.sql, "UPDATE users SET avatar =  WHERE id = ?");
    assert_eq!(shown(&st2.binds), vec!["T:7"]);
}

#[test]
fn account_update_refusals() {
    let blank = UpdateUserRequest { global_name: Some(Some("   ".to_string())), avatar: None, banner: None };
    let e = update_user_statement(&blank, "7").err().unwrap();
    assert_eq!((e.status, e.message.as_str()), (400, "global_name must be between 1 and 32 characters"));
    let long = UpdateUserRequest { global_name: Some(Some("x".repeat(33))), avatar: None, banner: None };
    assert_eq!(update_user_statement(&long, "7").err().unwrap().status, 400);
    let ok32 = UpdateUserRequest { global_name: Some(Some("x".repeat(32))), avatar: None, banner: None };
    assert!(update_user_statement(&ok32, "7").is_ok());
    let nothing = UpdateUserRequest { global_name: None, avatar: None, banner: None };
    let n = update_user_statement(&nothing, "7").err().unwrap();
    assert_eq!((n.status, n.message.as_str()), (400, "rien a modifier"));
    let cleared = UpdateUserRequest { global_name: Some(None), avatar: None, banner: None };
    let c = update_user_statement(&cleared, "7").ok().unwrap();
    assert_eq!(c.sql, "UPDATE users SET global_name = ? WHERE id = ?");
    assert_eq!(shown(&c.binds), vec!["T:null", "T:7"]);
}

#[test]
fn profile_update_statement() {
    let req = UpdateProfileRequest {
        bio: Some("hi".to_string()),
        pronouns: None,
        accent_color: Some(5),
        theme_colors: Some(vec![Some(1)]),
    };
    let st = update_profile_statement(&req, "8").unwrap();
    assert_eq!(
        st.sql,
        "UPDATE user_profiles SET bio = ?, accent_color = ?, theme_color_primary = ?, theme_color_secondary = ? WHERE id = ?"
    );
    assert_eq!(shown(&st.binds), vec!["T:hi", "U:5", "U:1", "U:null", "T:8"]);
    let none = UpdateProfileRequest { bio: None, pronouns: None, accent_color: None, theme_colors: None };
    assert!(update_profile_statement(&none, "8").is_none());
    let pron = UpdateProfileRequest { bio: None, pronouns: Some("they".to_string()), accent_color: None, theme_colors: Some(vec![]) };
    let st2 = update_profile_statement(&pron, "8").unwrap();
    assert_eq!(st2.sql, "UPDATE user_profiles SET pronouns = ?, theme_color_primary = ?, theme_color_secondary = ? WHERE id = ?");
    assert_eq!(shown(&st2.binds), vec!["T:they", "U:null", "U:null", "T:8"]);
}

#[test]
fn settings_update_statement() {
    let req = UpdateSettingsRequest {
        status: None,
        locale: Some("fr".to_string()),
        theme: None,
        background_gradient_preset: Some(None),
        developer_mode: Some(true),
    };
    let st = update_settings_statement(&req, "9").ok().unwrap();
    assert_eq!(st.sql, "UPDATE user_settings SET locale = ?, background_gradient_preset = ?, developer_mode = ? WHERE id = ?");
    assert_eq!(shown(&st.binds), vec!["T:fr", "T:null", "B:true", "T:9"]);
    let preset_only = UpdateSettingsRequest {
        status: None,
        locale: None,
        theme: None,
        background_gradient_preset: Some(Some("midnight-blurple".to_string())),
        developer_mode: None,
    };
    let p = update_settings_statement(&preset_only, "9").ok().unwrap();
    assert_eq!(p.sql, "UPDATE user_settings SET background_gradient_preset = ? WHERE id = ?");
    assert_eq!(shown(&p.binds), vec!["T:midnight-blurple", "T:9"]);
    let nothing = UpdateSettingsRequest { status: None, locale: None, theme: None, background_gradient_preset: None, developer_mode: None };
    let e = update_settings_statement(&nothing, "9").err().unwrap();
    assert_eq!((e.status, e.message.as_str()), (400, "rien a modifier"));
    let all = UpdateSettingsRequest {
        status: Some("dnd".to_string()),
        locale: Some("en-US".to_string()),
        theme: Some("light".to_string()),
        background_gradient_preset: None,
        developer_mode: None,
    };
    let a = update_settings_statement(&all, "9").ok().unwrap();
    assert_eq!(a.sql, "UPDATE user_settings SET status = ?, locale = ?, theme = ? WHERE id = ?");
}

fn settings(status: Option<&str>, locale: Option<&str>, theme: Option<&str>, preset: Option<Option<&str>>) -> UpdateSettingsRequest {
    UpdateSettingsRequest {
        status: status.map(|s| s.to_string()),
        locale: locale.map(|s| s.to_string()),
        theme: theme.map(|s| s.to_string()),
        background_gradient_preset: preset.map(|p| p.map(|s| s.to_string())),
        developer_mode: None,
    }
}

#[test]
fn settings_values_are_checked() {
    let refusal = |r: UpdateSettingsRequest| {
        let e = update_settings_statement(&r, "9").err().unwrap();
        (e.status, e.message)
    };
    assert_eq!(refusal(settings(Some("away"), None, None, None)), (400, "status must be online, idle, dnd or invisible".to_string()));
    assert_eq!(refusal(settings(None, Some("f"), None, None)), (400, "locale must be between 2 and 6 characters".to_string()));
    assert_eq!(refusal(settings(None, Some("abcdefg"), None, None)), (400, "locale must be between 2 and 6 characters".to_string()));
    assert_eq!(refusal(settings(None, None, Some("blue"), None)), (400, "theme must be dark or light".to_string()));
    assert_eq!(refusal(settings(None, None, None, Some(Some("p")))), (400, "unknown background gradient preset".to_string()));
    assert_eq!(refusal(settings(Some("away"), Some("f"), None, None)).1, "status must be online, idle, dnd or invisible");
    for ok in ["online", "idle", "dnd", "invisible"] {
        assert!(update_settings_statement(&settings(Some(ok), None, None, None), "9").is_ok());
    }
    assert!(update_settings_statement(&settings(None, Some("fr"), None, None), "9").is_ok());
    assert!(update_settings_statement(&settings(None, Some("zh-Hant"), None, None), "9").is_err());
    assert!(update_settings_statement(&settings(None, None, Some("dark"), None), "9").is_ok());
    assert!(update_settings_statement(&settings(None, None, None, Some(None)), "9").is_ok());
    assert!(update_settings_statement(&settings(None, None, None, Some(Some("blurple-twilight"))), "9").is_ok());
    assert!(update_settings_statement(&settings(None, None, None, Some(Some("mint-apple"))), "9").is_ok());
}

#[test]
fn profile_answers() {
    let row = || UserProfileRow {
        bio: Some("b".to_string()),
        pronouns: None,
        accent_color: Some(3),
        theme_color_primary: Some(1),
        theme_color_secondary: Some(2),
    };
    let r = UserProfileRes::from(row());
    assert_eq!(r.user_profile.theme_colors, Some([1, 2]));
    assert_eq!(r.user_profile.bio, Some("b".to_string()));
    assert_eq!(r.user_profile.accent_color, Some(3));
    let half = UserProfileRow { theme_color_secondary: None, ..row() };
    let r2 = UserProfileResponse::from(half);
    assert_eq!(r2.user_profile.theme_colors, None);
}

#[test]
fn stored_account_fields() {
    let first = account_with_hash("1".to_string(), 5, "ann".to_string(), "h".to_string(), 0);
    assert_eq!((first.id.as_str(), first.created_at, first.username.as_str()), ("1", 5, "ann"));
    assert_eq!(first.password_hash, Some("h".to_string()));
    assert_eq!(first.public_flags, 1);
    assert_eq!(first.discriminator, Some("0".to_string()));
    assert!(!first.bot && first.global_name.is_none() && first.avatar.is_none() && first.banner.is_none());
    let later = account_with_hash("2".to_string(), 6, "bo".to_string(), "h".to_string(), 1);
    assert_eq!(later.public_flags, 0);
}

#[test]
fn channel_access_needs_permissions() {
    let everyone = 0x800_0031_cc40u64;
    assert!(check_channel_access(everyone, ChannelAction::ReadHistory).is_ok());
    assert!(check_channel_access(everyone, ChannelAction::Send).is_ok());
    assert!(check_channel_access(1 << 10, ChannelAction::Send).is_err());
    assert!(check_channel_access((1 << 10) | (1 << 11), ChannelAction::Send).is_ok());
    assert!(check_channel_access((1 << 10) | (1 << 11), ChannelAction::ReadHistory).is_err());
    let e = check_channel_access(0, ChannelAction::ReadHistory).unwrap_err();
    assert_eq!((e.status, e.message.as_str()), (403, "Missing Permissions"));
}

#[test]
fn content_and_name_lengths() {
    assert!(check_content("a").is_ok());
    assert!(check_content(&"é".repeat(4000)).is_ok());
    let e = check_content("").unwrap_err();
    assert_eq!((e.status, e.message.as_str()), (400, "content must be between 1 and 4000 characters"));
    assert!(check_content(&"x".repeat(4001)).is_err());
    assert!(check_guild_name("ab").is_ok());
    assert!(check_guild_name(&"x".repeat(100)).is_ok());
    assert!(check_guild_name(&"x".repeat(101)).is_err());
    let g = check_guild_name("a").unwrap_err();
    assert_eq!((g.status, g.message.as_str()), (400, "name must be between 2 and 100 characters"));
}

#[test]
fn member_permissions_are_the_union_of_held_roles() {
    let mut r1 = role("g", "@everyone");
    r1.permissions = 1 << 10;
    let mut r2 = role("mod", "mods");
    r2.permissions = 1 << 13;
    let mut r3 = role("other", "others");
    r3.permissions = 1 << 3;
    let roles = vec![r1, r2, r3];
    assert_eq!(member_permissions(&roles, &vec!["g".to_string(), "mod".to_string()]), (1 << 10) | (1 << 13));
    assert_eq!(member_permissions(&roles, &vec![]), 0);
    assert_eq!(member_permissions(&roles, &vec!["missing".to_string()]), 0);
}

#[test]
fn message_listing_statements() {
    let select = "SELECT m.id, m.channel_id, m.content, m.timestamp, m.edited_timestamp, m.type AS kind, m.flags, u.id AS author_id, u.username, u.global_name, u.avatar, u.banner, u.public_flags FROM messages m INNER JOIN users u ON u.id = m.author_id WHERE m.channel_id = ?";
    let q = |limit, before, after, around| MessageListQuery { limit, before, after, around };
    let st = message_list_statement("c", &q(None, None, None, None)).ok().unwrap();
    assert_eq!(st.sql, format!("{} ORDER BY CAST(m.id AS UNSIGNED) DESC LIMIT ?", select));
    assert_eq!(shown(&st.binds), vec!["T:c", "U:50"]);
    let b = message_list_statement("c", &q(Some(10), Some(99), None, None)).ok().unwrap();
    assert_eq!(b.sql, format!("{} AND CAST(m.id AS UNSIGNED) < ? ORDER BY CAST(m.id AS UNSIGNED) DESC LIMIT ?", select));
    assert_eq!(shown(&b.binds), vec!["T:c", "U:99", "U:10"]);
    let a = message_list_statement("c", &q(Some(100), None, Some(7), None)).ok().unwrap();
    assert_eq!(
        a.sql,
        format!("SELECT * FROM ({} AND CAST(m.id AS UNSIGNED) > ? ORDER BY CAST(m.id AS UNSIGNED) ASC LIMIT ?) AS page ORDER BY CAST(page.id AS UNSIGNED) DESC", select)
    );
    assert_eq!(shown(&a.binds), vec!["T:c", "U:7", "U:100"]);
    let r = message_list_statement("c", &q(Some(1), Some(5), Some(6), Some(8))).ok().unwrap();
    assert_eq!(
        r.sql,
        format!("SELECT * FROM ({} ORDER BY ABS(CAST(m.id AS SIGNED) - CAST(? AS SIGNED)) ASC LIMIT ?) AS page ORDER BY CAST(page.id AS UNSIGNED) DESC", select)
    );
    assert_eq!(shown(&r.binds), vec!["T:c", "U:8", "U:1"]);
    for bad in [0u64, 101] {
        let e = message_list_statement("c", &q(Some(bad), None, None, None)).err().unwrap();
        assert_eq!((e.status, e.message.as_str()), (400, "limit must be between 1 and 100"));
    }
}

#[test]
fn presence_count_statement_binds_connected_users() {
    assert!(presence_count_statement("42", &vec![]).is_none());
    let st = presence_count_statement("42", &vec!["u1".to_string(), "u2".to_string()]).unwrap();
    assert_eq!(st.sql, "SELECT COUNT(DISTINCT user_id) as c FROM guild_members WHERE guild_id = '42' AND user_id IN (?, ?)");
    assert_eq!(shown(&st.binds), vec!["T:u1", "T:u2"]);
}
