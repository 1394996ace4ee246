use base64::Engine;
use hmac::Mac;
use rigel::utils::snowflake::DISCORD_EPOCH;
use rigel::utils::token::{sign_token, sign_token_at, verify_token};

#[test]
fn signed_token_has_known_form() {
    let token = sign_token_at("123", "s", DISCORD_EPOCH + 1000);
    assert_eq!(token, "MTIz.AAAAAQ.TvLb-a3aHOP1lhH-TWPOZ3nkAwPdk4o3cVl9i_3NY-Y");
}

#[test]
fn signed_token_verifies() {
    let token = sign_token("987654321", "secret");
    assert_eq!(verify_token(&token, "secret"), Ok("987654321".to_string()));
}

#[test]
fn token_verifies_with_surrounding_white_space() {
    let token = format!("  {}\n", sign_token_at("42", "k", DISCORD_EPOCH + 5_000));
    assert_eq!(verify_token(&token, "k"), Ok("42".to_string()));
}

#[test]
fn token_under_other_secret_is_refused() {
    let token = sign_token_at("42", "k", DISCORD_EPOCH);
    assert_eq!(verify_token(&token, "other"), Err("invalid signature"));
}

#[test]
fn malformed_tokens_are_refused() {
    assert_eq!(verify_token("abc", "k"), Err("token malformed"));
    assert_eq!(verify_token("a.b.c.d", "k"), Err("token malformed"));
    assert_eq!(verify_token("a.bbbbb.c", "k"), Err("invalid timestamp length"));
    assert_eq!(verify_token("MTIz.AAAAAQ.!!!", "s"), Err("invalid signature encoding"));
}

#[test]
fn payload_errors_are_reported() {
    // a valid signature over a payload that is not base64
    let good = sign_token_at("123", "s", DISCORD_EPOCH + 1000);
    assert!(verify_token(&good, "s").is_ok());
    let tampered = good.replacen("MTIz", "MTI0", 1);
    assert_eq!(verify_token(&tampered, "s"), Err("invalid signature"));
}

fn signed_by_hand(payload64: &str, timestamp64: &str, secret: &str) -> String {
    let msg = format!("{}.{}", payload64, timestamp64);
    let mut mac = hmac::Hmac::<sha2::Sha256>::new_from_slice(secret.as_bytes()).unwrap();
    mac.update(msg.as_bytes());
    let sig = mac.finalize().into_bytes();
    format!("{}.{}", msg, base64::engine::general_purpose::URL_SAFE_NO_PAD.encode(sig))
}

#[test]
fn payload_that_is_not_base64_is_refused() {
    let token = signed_by_hand("!!", "AAAAAQ", "s");
    assert_eq!(verify_token(&token, "s"), Err("token payload decode error"));
}

#[test]
fn payload_that_is_not_utf8_is_refused() {
    let token = signed_by_hand("__4", "AAAAAQ", "s");
    assert_eq!(verify_token(&token, "s"), Err("token payload is not utf8"));
}

#[test]
fn hand_signed_token_matches_library() {
    assert_eq!(signed_by_hand("MTIz", "AAAAAQ", "s"), sign_token_at("123", "s", DISCORD_EPOCH + 1000));
}

#[test]
fn token_parts_have_fixed_lengths() {
    let token = sign_token("175928847299117063", "secret");
    let parts: Vec<&str> = token.split('.').collect();
    assert_eq!(parts.len(), 3);
    assert_eq!(parts[1].len(), 6);
    assert_eq!(parts[2].len(), 43);
}
