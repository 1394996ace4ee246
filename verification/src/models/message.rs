use vstd::prelude::*;

use crate::models::user::MessageAuthor;

verus! {

/// A message of a channel, with its author.
pub struct Message {
    pub id: String,
    pub timestamp: u64,
    pub edited_timestamp: Option<u64>,
    pub channel_id: String,
    pub author_id: String,
    /// The message type number (see `MessageType::value`).
    pub kind: u32,
    pub flags: u32,
    pub content: Option<String>,
    pub author: MessageAuthor,
}

} // verus!
