//! Decisions of the REST API handlers.

pub mod auth;
pub mod channels;
pub mod discoverable_guilds;
pub mod gateway;
pub mod guilds;
pub mod users;

use vstd::prelude::*;

use crate::utils::token::{verified_user_id, verify_token};

verus! {

/// A value bound to a placeholder of a statement.
pub enum SqlValue {
    Text(Option<String>),
    Unsigned(Option<u64>),
    Bool(bool),
}

/// A bound value, by content.
pub enum SqlArg {
    Text(Option<Seq<char>>),
    Unsigned(Option<u64>),
    Bool(bool),
}

impl View for SqlValue {
    type V = SqlArg;

    open spec fn view(&self) -> SqlArg {
        match self {
            SqlValue::Text(t) => SqlArg::Text(crate::utils::text::option_string_view(*t)),
            SqlValue::Unsigned(u) => SqlArg::Unsigned(*u),
            SqlValue::Bool(b) => SqlArg::Bool(*b),
        }
    }
}

/// A statement with `?` placeholders and the values bound to them, in
/// order.
pub struct Statement {
    pub sql: String,
    pub binds: Vec<SqlValue>,
}

/// The bound values of a statement, by content.
pub open spec fn bind_views(binds: Seq<SqlValue>) -> Seq<SqlArg> {
    binds.map_values(|b: SqlValue| b@)
}

/// An error answer of the API: an HTTP status code and a message.
pub struct ApiError {
    pub status: u16,
    pub message: String,
}

/// The user that an `Authorization` header value stands for, under
/// `secret`: a missing header is answered 401 "Missing authorization", a
/// token that does not verify 401 with the reason `verify_token` gives.
pub open spec fn authorized_user(header: Option<Seq<char>>, secret: Seq<char>) -> Result<Seq<char>, (u16, Seq<char>)> {
    match header {
        None => Err((401u16, "Missing authorization"@)),
        Some(token) => match verified_user_id(token, secret) {
            Ok(user_id) => Ok(user_id),
            Err(reason) => Err((401u16, reason)),
        },
    }
}

/// Reads the user id out of the `Authorization` header value, if there is
/// one, under `secret`.
pub fn authenticate(header: Option<&str>, secret: &str) -> (r: Result<String, ApiError>)
    ensures
        match r {
            Ok(user_id) => authorized_user(crate::utils::text::option_str_view(header), secret@)
                == Ok::<Seq<char>, (u16, Seq<char>)>(user_id@),
            Err(e) => authorized_user(crate::utils::text::option_str_view(header), secret@)
                == Err::<Seq<char>, (u16, Seq<char>)>((e.status, e.message@)),
        },
{
    match header {
        None => Err(ApiError { status: 401, message: "Missing authorization".to_owned() }),
        Some(token) => match verify_token(token, secret) {
            Ok(user_id) => Ok(user_id),
            Err(reason) => Err(ApiError { status: 401, message: reason.to_owned() }),
        },
    }
}

} // verus!
