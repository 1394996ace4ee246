//! Signed authentication tokens.
//!
//! A token is `payload.timestamp.signature`: the user id, the seconds since
//! the Discord epoch (four big-endian bytes) and the HMAC-SHA256 of
//! `payload.timestamp` under the server secret, each encoded in URL-safe
//! base64 without padding.

use base64::Engine;
use hmac::Mac;
use vstd::prelude::*;
use vstd::string::*;
use vstd::utf8::*;

use crate::utils::clock::unix_millis;
use crate::utils::snowflake::DISCORD_EPOCH;
use crate::utils::text::{is_white_space, lemma_split_after_piece, lemma_split_without_separator, lemma_trimmed_unchanged, split_on, split_str, str_views, trim_str, trimmed, join_with};

verus! {

broadcast use vstd::utf8::group_utf8_lib;

/// The characters of the URL-safe base64 alphabet.
pub open spec fn is_url_safe_base64_char(c: char) -> bool {
    ||| ('A' <= c && c <= 'Z')
    ||| ('a' <= c && c <= 'z')
    ||| ('0' <= c && c <= '9')
    ||| c == '-'
    ||| c == '_'
}

/// The character of a six-bit value in the URL-safe base64 alphabet: `A`-`Z`
/// for 0-25, `a`-`z` for 26-51, `0`-`9` for 52-61, `-` for 62, `_` for 63.
pub open spec fn base64_url_digit(v: u8) -> char {
    if v < 26 {
        ((v as int) + 65) as char
    } else if v < 52 {
        ((v as int) + 71) as char
    } else if v < 62 {
        ((v as int) - 4) as char
    } else if v == 62 {
        '-'
    } else {
        '_'
    }
}

/// The URL-safe base64 encoding of `data` without padding: each group of
/// three bytes becomes four characters of six bits each; a last group of one
/// byte becomes two characters, of two bytes three, the missing low bits
/// zero.
#[verifier::opaque]
pub open spec fn base64_url_encoding(data: Seq<u8>) -> Seq<char>
    decreases data.len(),
{
    if data.len() == 0 {
        Seq::empty()
    } else if data.len() == 1 {
        seq![base64_url_digit(data[0] >> 2u8), base64_url_digit((data[0] & 3u8) << 4u8)]
    } else if data.len() == 2 {
        seq![
            base64_url_digit(data[0] >> 2u8),
            base64_url_digit(((data[0] & 3u8) << 4u8) | (data[1] >> 4u8)),
            base64_url_digit((data[1] & 15u8) << 2u8),
        ]
    } else {
        seq![
            base64_url_digit(data[0] >> 2u8),
            base64_url_digit(((data[0] & 3u8) << 4u8) | (data[1] >> 4u8)),
            base64_url_digit(((data[1] & 15u8) << 2u8) | (data[2] >> 6u8)),
            base64_url_digit(data[2] & 63u8),
        ] + base64_url_encoding(data.subrange(3, data.len() as int))
    }
}

/// The encoding has `ceil(4n/3)` characters for `n` bytes, all of the
/// URL-safe alphabet.
proof fn lemma_base64_url_encoding(data: Seq<u8>)
    ensures
        base64_url_encoding(data).len() == (4 * data.len() + 2) / 3,
        forall|i: int| 0 <= i < base64_url_encoding(data).len() ==> is_url_safe_base64_char(#[trigger] base64_url_encoding(data)[i]),
    decreases data.len(),
{
    reveal(base64_url_encoding);
    if data.len() >= 3 {
        lemma_base64_url_encoding(data.subrange(3, data.len() as int));
    }
    let e = base64_url_encoding(data);
    assert forall|i: int| 0 <= i < e.len() implies is_url_safe_base64_char(#[trigger] e[i]) by {
        if data.len() >= 3 && i >= 4 {
            let rest = base64_url_encoding(data.subrange(3, data.len() as int));
            assert(e[i] == rest[i - 4]);
        }
    }
}

/// The bytes that `base64::engine::general_purpose::URL_SAFE_NO_PAD.decode`
/// reads out of `text`, or `None` where it reports an error.
pub uninterp spec fn base64_url_decoding(text: Seq<u8>) -> Option<Seq<u8>>;

/// The HMAC-SHA256 tag of `message` under `key`, as the `hmac` crate's
/// `Hmac<Sha256>` computes it.
pub uninterp spec fn hmac_sha256(key: Seq<u8>, message: Seq<u8>) -> Seq<u8>;

/// Calls `URL_SAFE_NO_PAD.encode` of the `base64` crate. Claimed of it: the
/// result is the unpadded URL-safe encoding `base64_url_encoding` of `data`,
/// and decoding it with the same engine gives `data` back. The crate panics
/// when the output length overflows `usize`, which `requires` rules out.
#[verifier::external_body]
fn encode_base64_url(data: &[u8]) -> (text: String)
    requires
        data@.len() <= usize::MAX / 2,
    ensures
        text@ == base64_url_encoding(data@),
        base64_url_decoding(encode_utf8(text@)) == Some(data@),
{
    base64::engine::general_purpose::URL_SAFE_NO_PAD.encode(data)
}

/// Calls `URL_SAFE_NO_PAD.decode` of the `base64` crate; its error becomes
/// `None`. Claimed of it: the result is the named decoding of `text`.
#[verifier::external_body]
fn decode_base64_url(text: &[u8]) -> (data: Option<Vec<u8>>)
    ensures
        match data {
            Some(d) => base64_url_decoding(text@) == Some(d@),
            None => base64_url_decoding(text@) is None,
        },
{
    base64::engine::general_purpose::URL_SAFE_NO_PAD.decode(text).ok()
}

/// Computes `Hmac<Sha256>` of the `hmac` and `sha2` crates over `message`
/// under `key` (`new_from_slice`, `update`, `finalize`). Claimed of it: the
/// result is the named tag, 32 bytes long. `new_from_slice` accepts keys of
/// any length.
#[verifier::external_body]
fn hmac_sha256_tag(key: &[u8], message: &[u8]) -> (tag: Vec<u8>)
    ensures
        tag@ == hmac_sha256(key@, message@),
        tag@.len() == 32,
{
    let mut mac = hmac::Hmac::<sha2::Sha256>::new_from_slice(key).expect("HMAC can take key of any size");
    mac.update(message);
    mac.finalize().into_bytes().to_vec()
}

/// Checks `tag` with `Hmac<Sha256>::verify_slice` of the `hmac` crate after
/// feeding it `message` under `key`. Claimed of it: the check passes exactly
/// when `tag` equals the named tag of `message` under `key` (the crate
/// compares lengths, then bytes in constant time).
#[verifier::external_body]
fn hmac_sha256_matches(key: &[u8], message: &[u8], tag: &[u8]) -> (ok: bool)
    ensures
        ok == (tag@ == hmac_sha256(key@, message@)),
{
    let mut mac = hmac::Hmac::<sha2::Sha256>::new_from_slice(key).expect("HMAC can take key of any size");
    mac.update(message);
    mac.verify_slice(tag).is_ok()
}

/// Calls `String::from_utf8` of std; its error becomes `None`. Claimed of
/// it: it succeeds exactly on valid UTF-8, and the string then holds the
/// decoded characters.
#[verifier::external_body]
fn string_from_utf8(bytes: Vec<u8>) -> (s: Option<String>)
    ensures
        s is Some <==> valid_utf8(bytes@),
        s matches Some(t) ==> t@ == decode_utf8(bytes@),
{
    String::from_utf8(bytes).ok()
}

/// The seconds since the Discord epoch that a token signed at `now_millis`
/// carries, cut to 32 bits.
pub open spec fn token_seconds(now_millis: u64) -> u32 {
    (((now_millis - DISCORD_EPOCH) as u64) / 1000u64) as u32
}

/// The four big-endian bytes of `v`.
pub open spec fn u32_be_bytes(v: u32) -> Seq<u8> {
    seq![(v >> 24u32) as u8, (v >> 16u32) as u8, (v >> 8u32) as u8, v as u8]
}

/// The signed part of a token: the encoded user id and the encoded timestamp,
/// joined by a dot.
pub open spec fn token_payload(user_id: Seq<char>, now_millis: u64) -> Seq<char> {
    base64_url_encoding(encode_utf8(user_id)) + seq!['.'] + base64_url_encoding(u32_be_bytes(token_seconds(now_millis)))
}

/// The token for `user_id`, signed under `secret` at `now_millis`.
pub open spec fn signed_token(user_id: Seq<char>, secret: Seq<char>, now_millis: u64) -> Seq<char> {
    let payload = token_payload(user_id, now_millis);
    payload + seq!['.'] + base64_url_encoding(hmac_sha256(encode_utf8(secret), encode_utf8(payload)))
}

/// What `verify_token` answers for `token` under `secret`: the user id, or
/// the message of the first check that fails.
pub open spec fn verified_user_id(token: Seq<char>, secret: Seq<char>) -> Result<Seq<char>, Seq<char>> {
    let parts = split_on(trimmed(token), '.');
    if parts.len() != 3 {
        Err("token malformed"@)
    } else if encode_utf8(parts[1]).len() != 6 {
        Err("invalid timestamp length"@)
    } else {
        match base64_url_decoding(encode_utf8(parts[2])) {
            None => Err("invalid signature encoding"@),
            Some(signature) => {
                if signature != hmac_sha256(encode_utf8(secret), encode_utf8(parts[0] + seq!['.'] + parts[1])) {
                    Err("invalid signature"@)
                } else {
                    match base64_url_decoding(encode_utf8(parts[0])) {
                        None => Err("token payload decode error"@),
                        Some(payload) => {
                            if valid_utf8(payload) {
                                Ok(decode_utf8(payload))
                            } else {
                                Err("token payload is not utf8"@)
                            }
                        },
                    }
                }
            },
        }
    }
}

/// The four big-endian bytes of `v`.
fn be_bytes(v: u32) -> (b: Vec<u8>)
    ensures
        b@ == u32_be_bytes(v),
{
    let mut b: Vec<u8> = Vec::new();
    b.push((v >> 24u32) as u8);
    b.push((v >> 16u32) as u8);
    b.push((v >> 8u32) as u8);
    b.push(v as u8);
    assert(b@ =~= u32_be_bytes(v));
    b
}

proof fn lemma_url_safe_is_plain(s: Seq<char>)
    requires
        forall|i: int| 0 <= i < s.len() ==> is_url_safe_base64_char(#[trigger] s[i]),
    ensures
        !s.contains('.'),
        is_ascii_chars(s),
        forall|i: int| 0 <= i < s.len() ==> !is_white_space(#[trigger] s[i]),
{
    if s.contains('.') {
        let k = choose|k: int| 0 <= k < s.len() && s[k] == '.';
        assert(is_url_safe_base64_char(s[k]));
    }
    assert forall|i: int| 0 <= i < s.len() implies '\0' <= #[trigger] s[i] <= '\u{7f}' by {
        assert(is_url_safe_base64_char(s[i]));
    }
    assert forall|i: int| 0 <= i < s.len() implies !is_white_space(#[trigger] s[i]) by {
        assert(is_url_safe_base64_char(s[i]));
    }
}

/// Signs a token for `user_id` under `secret` with the clock reading
/// `now_millis`.
///
/// The token verifies: `verify_token` under the same secret gives `user_id`
/// back.
pub fn sign_token_at(user_id: &str, secret: &str, now_millis: u64) -> (token: String)
    requires
        now_millis >= DISCORD_EPOCH,
        user_id.spec_bytes().len() <= usize::MAX / 2,
    ensures
        token@ == signed_token(user_id@, secret@, now_millis),
        verified_user_id(token@, secret@) == Ok::<Seq<char>, Seq<char>>(user_id@),
        split_on(token@, '.').len() == 3,
        split_on(token@, '.')[1].len() == 6,
        split_on(token@, '.')[2].len() == 43,
{
    let payload64 = encode_base64_url(user_id.as_bytes());
    let seconds = ((now_millis - DISCORD_EPOCH) / 1000) as u32;
    let ts_bytes = be_bytes(seconds);
    let timestamp64 = encode_base64_url(ts_bytes.as_slice());
    let msg = join_with(payload64.as_str(), ".", timestamp64.as_str());
    let signature = hmac_sha256_tag(secret.as_bytes(), msg.as_str().as_bytes());
    let signature64 = encode_base64_url(signature.as_slice());
    let token = join_with(msg.as_str(), ".", signature64.as_str());
    proof {
        reveal_strlit(".");
        lemma_base64_url_encoding(user_id.spec_bytes());
        lemma_base64_url_encoding(ts_bytes@);
        lemma_base64_url_encoding(signature@);
        let p = payload64@;
        let t = timestamp64@;
        let s = signature64@;
        assert(msg@ =~= token_payload(user_id@, now_millis));
        assert(token@ =~= signed_token(user_id@, secret@, now_millis));
        lemma_url_safe_is_plain(p);
        lemma_url_safe_is_plain(t);
        lemma_url_safe_is_plain(s);
        // the token is already trimmed
        assert(s.len() == 43);
        assert(token@ =~= p + seq!['.'] + (t + seq!['.'] + s));
        assert(token@.last() == s.last());
        if p.len() > 0 {
            assert(token@[0] == p[0]);
        } else {
            assert(token@[0] == '.');
        }
        lemma_trimmed_unchanged(token@);
        // it splits into its three parts
        lemma_split_after_piece(p, t + seq!['.'] + s, '.');
        lemma_split_after_piece(t, s, '.');
        lemma_split_without_separator(s, '.');
        assert(split_on(trimmed(token@), '.') =~= seq![p, t, s]);
        assert(t.len() == 6);
        is_ascii_chars_encode_utf8(t);
    }
    token
}

/// Signs a token for `user_id` under `secret` at the current time (a clock
/// reading before the Discord epoch counts as the epoch itself).
pub fn sign_token(user_id: &str, secret: &str) -> (token: String)
    requires
        user_id.spec_bytes().len() <= usize::MAX / 2,
    ensures
        exists|now_millis: u64| now_millis >= DISCORD_EPOCH && token@ == #[trigger] signed_token(user_id@, secret@, now_millis),
        verified_user_id(token@, secret@) == Ok::<Seq<char>, Seq<char>>(user_id@),
        split_on(token@, '.').len() == 3,
        split_on(token@, '.')[1].len() == 6,
        split_on(token@, '.')[2].len() == 43,
{
    let clock = unix_millis();
    let now_millis = if clock < DISCORD_EPOCH {
        DISCORD_EPOCH
    } else {
        clock
    };
    sign_token_at(user_id, secret, now_millis)
}

/// Checks a token under `secret` and gives back the user id it carries, or
/// the reason it is refused: not three dot-separated parts ("token
/// malformed"), a timestamp part that is not six bytes long ("invalid
/// timestamp length"), a signature that is not base64 ("invalid signature
/// encoding") or not the HMAC of the first two parts ("invalid signature"), a
/// payload that is not base64 ("token payload decode error") or not UTF-8
/// ("token payload is not utf8"). White space around the token is ignored.
pub fn verify_token(token: &str, secret: &str) -> (res: Result<String, &'static str>)
    ensures
        match res {
            Ok(user_id) => verified_user_id(token@, secret@) == Ok::<Seq<char>, Seq<char>>(user_id@),
            Err(message) => verified_user_id(token@, secret@) == Err::<Seq<char>, Seq<char>>(message@),
        },
{
    let token = trim_str(token);
    let parts = split_str(token, '.');
    proof {
        assert(str_views(parts@).len() == parts@.len());
    }
    if parts.len() != 3 {
        return Err("token malformed");
    }
    let payload64 = parts[0];
    let timestamp64 = parts[1];
    let signature64 = parts[2];
    proof {
        assert(payload64@ == str_views(parts@)[0]);
        assert(timestamp64@ == str_views(parts@)[1]);
        assert(signature64@ == str_views(parts@)[2]);
    }
    if timestamp64.as_bytes().len() != 6 {
        return Err("invalid timestamp length");
    }
    let msg = join_with(payload64, ".", timestamp64);
    proof {
        reveal_strlit(".");
        assert(msg@ =~= payload64@ + seq!['.'] + timestamp64@);
    }
    let signature = match decode_base64_url(signature64.as_bytes()) {
        Some(bytes) => bytes,
        None => return Err("invalid signature encoding"),
    };
    if !hmac_sha256_matches(secret.as_bytes(), msg.as_str().as_bytes(), signature.as_slice()) {
        return Err("invalid signature");
    }
    let user_id_bytes = match decode_base64_url(payload64.as_bytes()) {
        Some(bytes) => bytes,
        None => return Err("token payload decode error"),
    };
    match string_from_utf8(user_id_bytes) {
        Some(user_id) => Ok(user_id),
        None => Err("token payload is not utf8"),
    }
}

} // verus!
