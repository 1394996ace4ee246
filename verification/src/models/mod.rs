pub mod channel;
pub mod guild;
pub mod guild_member;
pub mod message;
pub mod role;
pub mod user;
