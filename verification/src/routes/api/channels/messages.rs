//! Channel messages: how a stored row becomes a message, and who may change
//! one.

use vstd::prelude::*;

use crate::models::message::Message;
use crate::models::user::MessageAuthor;
use crate::routes::api::{bind_views, ApiError, SqlArg, SqlValue, Statement};
use crate::utils::constants::PermissionFlags;
use crate::utils::text::str_equal;
use vstd::string::*;

verus! {

/// The body of a message creation request.
pub struct CreateMessageReq {
    pub content: String,
    pub nonce: Option<String>,
}

/// The body of a message edit request.
pub struct EditMessageReq {
    pub content: String,
}

/// A stored message joined with its author.
pub struct MessageRow {
    pub id: String,
    pub channel_id: String,
    pub content: Option<String>,
    pub timestamp: u64,
    pub edited_timestamp: Option<u64>,
    pub kind: u32,
    pub flags: u32,
    pub author_id: String,
    pub username: String,
    pub global_name: Option<String>,
    pub avatar: Option<String>,
    pub banner: Option<String>,
    pub public_flags: u32,
}

/// The message a stored row describes, with its author.
pub fn message_from_row(row: MessageRow) -> (m: Message)
    ensures
        m.id == row.id,
        m.timestamp == row.timestamp,
        m.edited_timestamp == row.edited_timestamp,
        m.channel_id == row.channel_id,
        m.content == row.content,
        m.author_id == row.author_id,
        m.kind == row.kind,
        m.flags == row.flags,
        m.author.id == row.author_id,
        m.author.username == row.username,
        m.author.global_name == row.global_name,
        m.author.avatar == row.avatar,
        m.author.banner == row.banner,
        m.author.public_flags == row.public_flags,
{
    Message {
        id: row.id,
        timestamp: row.timestamp,
        edited_timestamp: row.edited_timestamp,
        channel_id: row.channel_id,
        content: row.content,
        author_id: row.author_id.clone(),
        kind: row.kind,
        flags: row.flags,
        author: MessageAuthor {
            id: row.author_id,
            username: row.username,
            global_name: row.global_name,
            avatar: row.avatar,
            banner: row.banner,
            public_flags: row.public_flags,
        },
    }
}

/// A change to an existing message.
#[derive(Clone, Copy, PartialEq, Eq, Structural)]
pub enum MessageChange {
    Edit,
    Delete,
}

/// Whether permission bits include `MANAGE_MESSAGES`.
pub open spec fn manages_messages(permissions: u64) -> bool {
    permissions & 0x2000u64 != 0
}

/// Whether user `user_id`, holding `permissions` in the message's guild,
/// may make the change to a message written by `author_id`: the author may
/// edit and delete it; others may only delete it, and only with
/// `MANAGE_MESSAGES`. Others are answered 403, "Cannot edit message authored
/// by another user" for an edit, "Missing Permissions" for a deletion.
pub fn check_author(author_id: &str, user_id: &str, change: MessageChange, permissions: u64) -> (r: Result<(), ApiError>)
    ensures
        r is Ok <==> (author_id@ == user_id@ || (change == MessageChange::Delete && manages_messages(permissions))),
        r matches Err(e) ==> e.status == 403 && e.message@ == (match change {
            MessageChange::Edit => "Cannot edit message authored by another user"@,
            MessageChange::Delete => "Missing Permissions"@,
        }),
{
    assert(PermissionFlags::MANAGE_MESSAGES == 0x2000u64) by {
        assert(1u64 << 13u64 == 0x2000u64) by (bit_vector);
    }
    if str_equal(author_id, user_id) {
        Ok(())
    } else {
        match change {
            MessageChange::Edit => Err(ApiError { status: 403, message: "Cannot edit message authored by another user".to_owned() }),
            MessageChange::Delete => {
                if permissions & PermissionFlags::MANAGE_MESSAGES != 0 {
                    Ok(())
                } else {
                    Err(ApiError { status: 403, message: "Missing Permissions".to_owned() })
                }
            },
        }
    }
}

/// What a user does with a channel's messages.
#[derive(Clone, Copy, PartialEq, Eq, Structural)]
pub enum ChannelAction {
    /// Listing the channel's messages.
    ReadHistory,
    /// Sending a message to the channel.
    Send,
}

/// The permission bits an action needs: `VIEW_CHANNEL` with
/// `READ_MESSAGE_HISTORY` to list messages, with `SEND_MESSAGES` to send one.
pub open spec fn required_permissions(action: ChannelAction) -> u64 {
    match action {
        ChannelAction::ReadHistory => 0x400u64 | 0x10000u64,
        ChannelAction::Send => 0x400u64 | 0x800u64,
    }
}

/// Whether a user holding `permissions` may take the action on a channel:
/// only with every bit it needs; otherwise 403 "Missing Permissions".
pub fn check_channel_access(permissions: u64, action: ChannelAction) -> (r: Result<(), ApiError>)
    ensures
        r is Ok <==> permissions & required_permissions(action) == required_permissions(action),
        r matches Err(e) ==> e.status == 403 && e.message@ == "Missing Permissions"@,
{
    let needed = match action {
        ChannelAction::ReadHistory => PermissionFlags::VIEW_CHANNEL | PermissionFlags::READ_MESSAGE_HISTORY,
        ChannelAction::Send => PermissionFlags::VIEW_CHANNEL | PermissionFlags::SEND_MESSAGES,
    };
    assert(needed == required_permissions(action)) by {
        assert(1u64 << 10u64 == 0x400u64) by (bit_vector);
        assert(1u64 << 11u64 == 0x800u64) by (bit_vector);
        assert(1u64 << 16u64 == 0x10000u64) by (bit_vector);
    }
    if permissions & needed == needed {
        Ok(())
    } else {
        Err(ApiError { status: 403, message: "Missing Permissions".to_owned() })
    }
}

/// Whether message content is acceptable: between 1 and 4000 characters.
pub open spec fn content_ok(content: Seq<char>) -> bool {
    1 <= content.len() <= 4000
}

/// Checks the content of a message to create or an edit: 400 "content must
/// be between 1 and 4000 characters" otherwise.
pub fn check_content(content: &str) -> (r: Result<(), ApiError>)
    ensures
        r is Ok <==> content_ok(content@),
        r matches Err(e) ==> e.status == 400 && e.message@ == "content must be between 1 and 4000 characters"@,
{
    let n = content.unicode_len();
    if n < 1 || n > 4000 {
        Err(ApiError { status: 400, message: "content must be between 1 and 4000 characters".to_owned() })
    } else {
        Ok(())
    }
}

/// The options of a message listing: how many messages (1 to 100, 50 when
/// not given), and at most one position: before, after or around a message
/// id.
pub struct MessageListQuery {
    pub limit: Option<u64>,
    pub before: Option<u64>,
    pub after: Option<u64>,
    pub around: Option<u64>,
}

/// The messages of a channel joined with their authors, as rows.
pub open spec fn message_select() -> Seq<char> {
    "SELECT m.id, m.channel_id, m.content, m.timestamp, m.edited_timestamp, m.type AS kind, m.flags, u.id AS author_id, u.username, u.global_name, u.avatar, u.banner, u.public_flags FROM messages m INNER JOIN users u ON u.id = m.author_id WHERE m.channel_id = ?"@
}

/// The number of messages a listing returns.
pub open spec fn listing_limit(q: MessageListQuery) -> u64 {
    match q.limit {
        Some(n) => n,
        None => 50,
    }
}

/// The query listing the messages of channel `channel_id`, newest first, or
/// its refusal (400) for a limit outside 1 to 100. With `around`, the
/// messages whose ids lie closest to it; otherwise with `before`, the newest
/// ones older than it; otherwise with `after`, the oldest ones newer than it;
/// otherwise the newest ones.
pub open spec fn message_list(channel_id: Seq<char>, q: MessageListQuery) -> Result<(Seq<char>, Seq<SqlArg>), (u16, Seq<char>)> {
    let n = listing_limit(q);
    let newest = " ORDER BY CAST(m.id AS UNSIGNED) DESC LIMIT ?"@;
    let outer = ") AS page ORDER BY CAST(page.id AS UNSIGNED) DESC"@;
    if n < 1 || n > 100 {
        Err((400u16, "limit must be between 1 and 100"@))
    } else if q.around is Some {
        Ok((
            "SELECT * FROM ("@ + message_select() + " ORDER BY ABS(CAST(m.id AS SIGNED) - CAST(? AS SIGNED)) ASC LIMIT ?"@ + outer,
            seq![SqlArg::Text(Some(channel_id)), SqlArg::Unsigned(q.around), SqlArg::Unsigned(Some(n))],
        ))
    } else if q.before is Some {
        Ok((
            message_select() + " AND CAST(m.id AS UNSIGNED) < ?"@ + newest,
            seq![SqlArg::Text(Some(channel_id)), SqlArg::Unsigned(q.before), SqlArg::Unsigned(Some(n))],
        ))
    } else if q.after is Some {
        Ok((
            "SELECT * FROM ("@ + message_select() + " AND CAST(m.id AS UNSIGNED) > ? ORDER BY CAST(m.id AS UNSIGNED) ASC LIMIT ?"@ + outer,
            seq![SqlArg::Text(Some(channel_id)), SqlArg::Unsigned(q.after), SqlArg::Unsigned(Some(n))],
        ))
    } else {
        Ok((message_select() + newest, seq![SqlArg::Text(Some(channel_id)), SqlArg::Unsigned(Some(n))]))
    }
}

/// Builds the query listing the messages of channel `channel_id`.
pub fn message_list_statement(channel_id: &str, q: &MessageListQuery) -> (r: Result<Statement, ApiError>)
    ensures
        match r {
            Ok(st) => message_list(channel_id@, *q) == Ok::<(Seq<char>, Seq<SqlArg>), (u16, Seq<char>)>((st.sql@, bind_views(st.binds@))),
            Err(e) => message_list(channel_id@, *q) == Err::<(Seq<char>, Seq<SqlArg>), (u16, Seq<char>)>((e.status, e.message@)),
        },
{
    let n: u64 = match q.limit {
        Some(n) => n,
        None => 50,
    };
    if n < 1 || n > 100 {
        return Err(ApiError { status: 400, message: "limit must be between 1 and 100".to_owned() });
    }
    let select = "SELECT m.id, m.channel_id, m.content, m.timestamp, m.edited_timestamp, m.type AS kind, m.flags, u.id AS author_id, u.username, u.global_name, u.avatar, u.banner, u.public_flags FROM messages m INNER JOIN users u ON u.id = m.author_id WHERE m.channel_id = ?";
    let mut binds: Vec<SqlValue> = Vec::new();
    binds.push(SqlValue::Text(Some(channel_id.to_owned())));
    let mut sql: String;
    if q.around.is_some() {
        sql = "SELECT * FROM (".to_owned();
        sql.append(select);
        sql.append(" ORDER BY ABS(CAST(m.id AS SIGNED) - CAST(? AS SIGNED)) ASC LIMIT ?");
        sql.append(") AS page ORDER BY CAST(page.id AS UNSIGNED) DESC");
        binds.push(SqlValue::Unsigned(q.around));
    } else if q.before.is_some() {
        sql = select.to_owned();
        sql.append(" AND CAST(m.id AS UNSIGNED) < ?");
        sql.append(" ORDER BY CAST(m.id AS UNSIGNED) DESC LIMIT ?");
        binds.push(SqlValue::Unsigned(q.before));
    } else if q.after.is_some() {
        sql = "SELECT * FROM (".to_owned();
        sql.append(select);
        sql.append(" AND CAST(m.id AS UNSIGNED) > ? ORDER BY CAST(m.id AS UNSIGNED) ASC LIMIT ?");
        sql.append(") AS page ORDER BY CAST(page.id AS UNSIGNED) DESC");
        binds.push(SqlValue::Unsigned(q.after));
    } else {
        sql = select.to_owned();
        sql.append(" ORDER BY CAST(m.id AS UNSIGNED) DESC LIMIT ?");
    }
    binds.push(SqlValue::Unsigned(Some(n)));
    proof {
        let (text, args) = message_list(channel_id@, *q)->Ok_0;
        assert(sql@ =~= text);
        assert(bind_views(binds@) =~= args);
    }
    Ok(Statement { sql, binds })
}

} // verus!
