//! Logging in and registering.

use vstd::prelude::*;
use vstd::string::*;
use vstd::utf8::encode_utf8;

use crate::db::models::User;
use crate::utils::clock::clock_millis;
use crate::utils::snowflake::{
    deconstructed, generated_id, id_timestamp, lemma_generated_id_round_trip, Snowflake, SnowflakeView,
};
use crate::utils::text::{decimal, decimal_string};
use crate::utils::text::option_string_view;

verus! {

/// The body of a login request.
pub struct LoginRequest {
    pub login: String,
    pub password: Option<String>,
}

/// The body of a registration request.
pub struct RegisterRequest {
    pub username: String,
    pub password: Option<String>,
}

/// The answer to a successful login or registration.
pub struct LoginResponse {
    pub token: String,
}

/// Whether `bcrypt::verify` of the `bcrypt` crate answers `Ok(true)` for
/// `password` against the stored `hash`.
pub uninterp spec fn bcrypt_accepts(password: Seq<u8>, hash: Seq<char>) -> bool;

/// Calls `bcrypt::verify`; an error (a malformed hash) counts as a refusal.
/// Claimed of it: the result is the named answer for these arguments.
#[verifier::external_body]
fn bcrypt_verify(password: &[u8], hash: &str) -> (ok: bool)
    ensures
        ok == bcrypt_accepts(password@, hash@),
{
    bcrypt::verify(password, hash).unwrap_or(false)
}

/// Calls `bcrypt::hash` with the crate's default cost and a random salt;
/// an error (the system's randomness failing) becomes `None`. Claimed of it:
/// a hash it makes is accepted by `bcrypt::verify` for the same password (the
/// crate hashes both times with the salt and cost stored in the hash).
/// Nothing else is promised: the salt is random.
#[verifier::external_body]
fn bcrypt_hash(password: &[u8]) -> (hash: Option<String>)
    ensures
        hash matches Some(h) ==> bcrypt_accepts(password@, h@),
{
    bcrypt::hash(password, bcrypt::DEFAULT_COST).ok()
}

/// The password a request carries, or the empty one.
pub open spec fn password_or_empty(password: Option<Seq<char>>) -> Seq<char> {
    match password {
        Some(p) => p,
        None => Seq::empty(),
    }
}

/// Whether `password` (empty if missing) opens the account: the account has
/// a password hash and bcrypt accepts the password against it.
pub open spec fn password_opens(password_hash: Option<Seq<char>>, password: Option<Seq<char>>) -> bool {
    match password_hash {
        Some(h) => bcrypt_accepts(encode_utf8(password_or_empty(password)), h),
        None => false,
    }
}

/// Whether the password of a login request opens `user`'s account.
pub fn password_matches(user: &User, password: Option<&str>) -> (ok: bool)
    ensures
        ok == password_opens(option_string_view(user.password_hash), crate::utils::text::option_str_view(password)),
{
    let password = match password {
        Some(p) => p,
        None => "",
    };
    proof {
        reveal_strlit("");
        assert(""@ =~= Seq::<char>::empty());
    }
    match &user.password_hash {
        Some(hash) => bcrypt_verify(password.as_bytes(), hash.as_str()),
        None => false,
    }
}

/// The public flags of a newly registered account: staff (1) for the first
/// account that is not a bot, none (0) after that.
pub open spec fn new_account_flags(existing_users: u64) -> u32 {
    if existing_users == 0 {
        1
    } else {
        0
    }
}

/// Whether `u` is the account made for a registration request with this
/// username and password (empty if missing), when `existing_users` non-bot
/// accounts exist (id and creation time aside): not a bot, the requested
/// username, a password hash that the password opens, discriminator "0", no
/// display name, avatar or banner, staff exactly for the first account.
pub open spec fn is_registered_account(
    u: User,
    username: Seq<char>,
    password: Option<Seq<char>>,
    existing_users: u64,
) -> bool {
    &&& !u.bot
    &&& u.public_flags == new_account_flags(existing_users)
    &&& u.username@ == username
    &&& u.password_hash is Some
    &&& u.global_name is None
    &&& option_string_view(u.discriminator) == Some("0"@)
    &&& u.avatar is None
    &&& u.banner is None
    &&& password_opens(option_string_view(u.password_hash), password)
}

/// The account stored for a registration: id `id`, created at `created_at`
/// (milliseconds), `username`, the password hash `password_hash`,
/// discriminator "0", no display name, avatar or banner, not a bot, staff
/// exactly when no other non-bot account exists.
pub fn account_with_hash(id: String, created_at: u64, username: String, password_hash: String, existing_users: u64) -> (u: User)
    ensures
        u.id == id,
        u.created_at == created_at,
        !u.bot,
        u.public_flags == new_account_flags(existing_users),
        u.username == username,
        u.password_hash == Some(password_hash),
        u.global_name is None,
        option_string_view(u.discriminator) == Some("0"@),
        u.avatar is None,
        u.banner is None,
{
    let public_flags: u32 = if existing_users == 0 {
        1
    } else {
        0
    };
    User {
        id,
        created_at,
        bot: false,
        public_flags,
        username,
        password_hash: Some(password_hash),
        global_name: None,
        discriminator: Some("0".to_owned()),
        avatar: None,
        banner: None,
    }
}

/// Makes the account for a registration request: id `id`, created at
/// `created_at` (milliseconds), as `is_registered_account` says. `None` when
/// hashing fails.
///
/// The password of the request opens the new account.
pub fn register_account(id: String, created_at: u64, request: RegisterRequest, existing_users: u64) -> (user: Option<User>)
    ensures
        user matches Some(u) ==> {
            &&& u.id == id
            &&& u.created_at == created_at
            &&& is_registered_account(u, request.username@, option_string_view(request.password), existing_users)
        },
{
    let raw_password = match request.password {
        Some(p) => p,
        None => String::new(),
    };
    let hashed = match bcrypt_hash(raw_password.as_str().as_bytes()) {
        Some(h) => h,
        None => return None,
    };
    Some(account_with_hash(id, created_at, request.username, hashed, existing_users))
}

/// Makes the account for a registration request now: created at the time
/// the clock reads (a reading before the generator's epoch counts as the
/// epoch), with a fresh id from `snowflake` generated at that same time, in
/// decimal, as `register_account` does. `None` when hashing fails.
pub fn register_new_account(snowflake: &Snowflake, request: RegisterRequest, existing_users: u64) -> (user: Option<User>)
    ensures
        user matches Some(u) ==> {
            &&& u.created_at >= snowflake@.epoch
            &&& exists|g: u64, counter: u16| {
                &&& u.id@ == decimal(g as nat)
                &&& g == generated_id(snowflake@, None, u.created_at, counter)
            }
            &&& is_registered_account(u, request.username@, option_string_view(request.password), existing_users)
        },
{
    let clock = clock_millis();
    let epoch = snowflake.epoch();
    let created_at: u64 = if clock < 0 || (clock as u64) < epoch {
        epoch
    } else {
        clock as u64
    };
    let g = snowflake.generate_timed(None, created_at);
    let id = decimal_string(g);
    register_account(id, created_at, request, existing_users)
}

/// Law: the id of an account registered now is a snowflake that carries the
/// account's creation time, the generator's own worker and process ids, and
/// an increment of twelve bits (for creation times less than 2^42 ms after
/// the epoch).
pub proof fn lemma_registered_id_carries_creation_time(cfg: SnowflakeView, created_at: u64, counter: u16)
    requires
        created_at >= cfg.epoch,
        created_at - cfg.epoch < 0x400_0000_0000u64,
    ensures
        ({
            let id = generated_id(cfg, None, created_at, counter);
            let d = deconstructed(cfg.epoch, id);
            &&& id_timestamp(cfg.epoch, id) == created_at
            &&& d.timestamp == created_at
            &&& d.worker_id == cfg.worker_id & 31u64
            &&& d.process_id == cfg.process_id & 31u64
            &&& d.increment < 4096
        }),
{
    lemma_generated_id_round_trip(cfg, None, created_at, counter);
    assert((counter & 0xfffu16) <= 0xfffu16) by (bit_vector);
}

/// The account a login opens: the account looked up by its login, when the
/// password opens it; otherwise none (answered 401).
pub open spec fn login_outcome(user: Option<User>, password: Option<Seq<char>>) -> Option<User> {
    match user {
        Some(u) => if password_opens(option_string_view(u.password_hash), password) {
            Some(u)
        } else {
            None
        },
        None => None,
    }
}

/// Checks a login: the account found for the login name (if any) and the
/// password given.
pub fn check_login(user: Option<User>, password: Option<&str>) -> (r: Option<User>)
    ensures
        r == login_outcome(user, crate::utils::text::option_str_view(password)),
{
    match user {
        Some(u) => {
            if password_matches(&u, password) {
                Some(u)
            } else {
                None
            }
        },
        None => None,
    }
}

/// Law: an account made by `register_account` is opened by the password of
/// its registration request: logging in with it gives the account back.
pub proof fn lemma_registered_account_logs_in(user: User, password: Option<Seq<char>>)
    requires
        password_opens(option_string_view(user.password_hash), password),
    ensures
        login_outcome(Some(user), password) == Some(user),
{
}

/// Law: a new account is staff (`is_staff` holds of its flags) exactly when
/// no other non-bot account existed before it.
pub proof fn lemma_first_account_is_staff(existing_users: u64)
    ensures
        (new_account_flags(existing_users) & 1u32 == 1u32) <==> existing_users == 0,
{
    assert(1u32 & 1u32 == 1u32) by (bit_vector);
    assert(0u32 & 1u32 == 0u32) by (bit_vector);
}

} // verus!
