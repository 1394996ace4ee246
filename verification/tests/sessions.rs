use rigel::state::{Audience, Sessions};
use rigel::utils::constants::gateway::Opcode;
use rigel::ws::gateway::{frame_action, hello, FrameAction, InboundFrame};
use rigel::ws::handlers::heartbeat;
use rigel::ws::models::{GatewayPayload, HelloPayload};
use rigel::ws::session::GatewaySession;

fn strings(v: &[&str]) -> Vec<String> {
    v.iter().map(|s| s.to_string()).collect()
}

fn sorted(mut v: Vec<String>) -> Vec<String> {
    v.sort();
    v
}

/// Three connections: "a" and "b" identified as user "u1", "c" as "u2";
/// "a" in guild "g1", "b" in "g1" and "g2", "c" in "g2"; "d" not identified.
fn registry() -> Sessions {
    let mut sessions = Sessions::new();
    for id in ["a", "b", "c", "d"] {
        sessions.insert(GatewaySession::new(id.to_string()));
    }
    assert!(sessions.identify("a", "u1".into(), "s1".into(), strings(&["g1"])));
    assert!(sessions.identify("b", "u1".into(), "s2".into(), strings(&["g1", "g2"])));
    assert!(sessions.identify("c", "u2".into(), "s3".into(), strings(&["g2"])));
    sessions
}

#[test]
fn session_sends_numbered_payloads() {
    let mut s = GatewaySession::new("x".to_string());
    assert_eq!(s.sequence, 0);
    let p: GatewayPayload<u8> = s.send(Opcode::Heartbeat, None, None);
    assert_eq!(p.op, Opcode::Heartbeat);
    assert_eq!(p.s, Some(0));
    assert_eq!(p.t, None);
    let q = s.dispatch("READY", 7u8);
    assert_eq!(q.op, Opcode::Dispatch);
    assert_eq!(q.s, Some(1));
    assert_eq!(q.t, Some("READY".to_string()));
    assert_eq!(q.d, Some(7));
    assert_eq!(s.sequence, 2);
}

#[test]
fn sequence_wraps_after_the_largest() {
    let mut s = GatewaySession::new("x".to_string());
    s.sequence = u64::MAX;
    let p = s.dispatch("E", ());
    assert_eq!(p.s, Some(u64::MAX));
    assert_eq!(s.sequence, 0);
}

#[test]
fn send_event_is_outside_the_sequence() {
    let s = GatewaySession::new("x".to_string());
    let f = s.send_event(0, Some("MESSAGE_CREATE"), 5u8);
    assert_eq!(f.op, 0);
    assert_eq!(f.t, Some("MESSAGE_CREATE".to_string()));
    assert_eq!(f.d, 5);
    assert_eq!(s.sequence, 0);
}

#[test]
fn session_membership() {
    let mut s = GatewaySession::new("x".to_string());
    s.user_id = Some("u".to_string());
    s.guilds = strings(&["g"]);
    assert!(s.is_user("u"));
    assert!(!s.is_user("v"));
    assert!(s.in_guild("g"));
    assert!(!s.in_guild("h"));
}

#[test]
fn insert_get_remove() {
    let mut sessions = Sessions::new();
    assert_eq!(sessions.len(), 0);
    sessions.insert(GatewaySession::new("a".to_string()));
    sessions.insert(GatewaySession::new("b".to_string()));
    sessions.insert(GatewaySession::new("a".to_string()));
    assert_eq!(sessions.len(), 2);
    assert!(sessions.contains("a"));
    assert_eq!(sessions.get("b").map(|s| s.id.clone()), Some("b".to_string()));
    assert!(sessions.get("z").is_none());
    let removed = sessions.remove("a");
    assert_eq!(removed.map(|s| s.id), Some("a".to_string()));
    assert!(!sessions.contains("a"));
    assert!(sessions.remove("a").is_none());
    assert_eq!(sessions.len(), 1);
}

#[test]
fn identify_keeps_sequence() {
    let mut sessions = Sessions::new();
    sessions.insert(GatewaySession::new("a".to_string()));
    let _ = heartbeat::handle::<()>("a", &mut sessions);
    assert!(sessions.identify("a", "u".into(), "s".into(), strings(&["g"])));
    let s = sessions.get("a").unwrap();
    assert_eq!(s.sequence, 1);
    assert_eq!(s.user_id, Some("u".to_string()));
    assert_eq!(s.auth_session_id, Some("s".to_string()));
    assert!(!sessions.identify("missing", "u".into(), "s".into(), vec![]));
}

#[test]
fn heartbeat_acknowledges_and_advances() {
    let mut sessions = registry();
    let ack = heartbeat::handle::<()>("c", &mut sessions).unwrap();
    assert_eq!(ack.op, Opcode::HeartbeatAck);
    assert_eq!(ack.s, Some(0));
    assert!(ack.d.is_none());
    assert!(ack.t.is_none());
    let again = sessions.heartbeat_ack::<()>("c").unwrap();
    assert_eq!(again.s, Some(1));
    assert!(heartbeat::handle::<()>("nobody", &mut sessions).is_none());
}

#[test]
fn dispatch_reaches_each_audience_once() {
    let mut sessions = registry();
    let all = sessions.dispatch_all("E", &1u8);
    assert_eq!(sorted(all.iter().map(|d| d.session_id.clone()).collect()), strings(&["a", "b", "c", "d"]));
    for d in &all {
        assert_eq!(d.payload.op, Opcode::Dispatch);
        assert_eq!(d.payload.t, Some("E".to_string()));
        assert_eq!(d.payload.s, Some(0));
        assert_eq!(d.payload.d, Some(1));
    }
    let to_user = sessions.dispatch_user("F", &2u8, "u1");
    assert_eq!(sorted(to_user.iter().map(|d| d.session_id.clone()).collect()), strings(&["a", "b"]));
    assert!(to_user.iter().all(|d| d.payload.s == Some(1)));
    let to_guild = sessions.dispatch_guild("G", &3u8, "g2");
    let mut seen: Vec<(String, Option<u64>)> = to_guild.iter().map(|d| (d.session_id.clone(), d.payload.s)).collect();
    seen.sort();
    assert_eq!(seen, vec![("b".to_string(), Some(2)), ("c".to_string(), Some(1))]);
    assert!(sessions.dispatch(Audience::Guild("none"), "H", &4u8).is_empty());
    assert_eq!(sessions.get("d").unwrap().sequence, 1);
}

#[test]
fn audiences_and_users() {
    let sessions = registry();
    assert_eq!(sorted(sessions.audience_ids(Audience::Guild("g1"))), strings(&["a", "b"]));
    assert_eq!(sorted(sessions.audience_ids(Audience::User("u2"))), strings(&["c"]));
    assert_eq!(sessions.audience_ids(Audience::Everyone).len(), 4);
    assert_eq!(sorted(sessions.identified_users(Audience::Everyone)), strings(&["u1", "u2"]));
    assert_eq!(sorted(sessions.identified_users(Audience::Guild("g2"))), strings(&["u1", "u2"]));
    assert!(sessions.identified_users(Audience::Guild("g9")).is_empty());
}

#[test]
fn presence_goes_to_other_users_in_shared_guilds() {
    let sessions = registry();
    let mut pairs = sessions.presence_targets("u2", &strings(&["g1", "g2"]));
    pairs.sort();
    assert_eq!(
        pairs,
        vec![
            ("a".to_string(), "g1".to_string()),
            ("b".to_string(), "g1".to_string()),
            ("b".to_string(), "g2".to_string()),
        ]
    );
    let mut own = sessions.presence_targets("u1", &strings(&["g2"]));
    own.sort();
    assert_eq!(own, vec![("c".to_string(), "g2".to_string())]);
}

#[test]
fn hello_announces_heartbeat_interval() {
    let p = hello();
    assert_eq!(p.op, Opcode::Hello);
    assert_eq!(p.d, Some(HelloPayload { heartbeat_interval: 41250 }));
    assert!(p.s.is_none());
    assert!(p.t.is_none());
    let q = GatewayPayload::new(Opcode::Reconnect, Some(1u8));
    assert_eq!(q.op, Opcode::Reconnect);
    assert_eq!(q.d, Some(1));
    assert!(q.s.is_none());
}

#[test]
fn frames_decide_actions() {
    assert_eq!(frame_action(InboundFrame::Text { op: Some(Opcode::Identify), identify_data: true }), FrameAction::Identify);
    assert_eq!(frame_action(InboundFrame::Text { op: Some(Opcode::Identify), identify_data: false }), FrameAction::Ignore);
    assert_eq!(frame_action(InboundFrame::Text { op: Some(Opcode::Heartbeat), identify_data: false }), FrameAction::Heartbeat);
    assert_eq!(frame_action(InboundFrame::Text { op: Some(Opcode::Resume), identify_data: true }), FrameAction::Ignore);
    assert_eq!(frame_action(InboundFrame::Text { op: None, identify_data: false }), FrameAction::Ignore);
    assert_eq!(frame_action(InboundFrame::Close), FrameAction::Stop);
    assert_eq!(frame_action(InboundFrame::Error), FrameAction::Stop);
    assert_eq!(frame_action(InboundFrame::Other), FrameAction::Ignore);
}

#[test]
fn dispatch_changes_no_audience() {
    let mut sessions = registry();
    let before_guild = sorted(sessions.audience_ids(Audience::Guild("g2")));
    let before_users = sorted(sessions.identified_users(Audience::Everyone));
    let _ = sessions.dispatch_guild("E", &0u8, "g2");
    let _ = sessions.dispatch_all("F", &0u8);
    assert_eq!(sorted(sessions.audience_ids(Audience::Guild("g2"))), before_guild);
    assert_eq!(sorted(sessions.identified_users(Audience::Everyone)), before_users);
    let b = sessions.get("b").unwrap();
    assert_eq!(b.sequence, 2);
    assert_eq!(b.user_id, Some("u1".to_string()));
    assert_eq!(b.guilds, strings(&["g1", "g2"]));
    assert_eq!(sessions.get("a").unwrap().sequence, 1);
}
