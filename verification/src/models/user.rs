use vstd::prelude::*;

use crate::utils::text::option_string_copy;

verus! {

/// A stored user account.
pub struct User {
    pub id: String,
    pub created_at: u64,
    pub bot: bool,
    pub public_flags: u32,
    pub username: String,
    pub password_hash: Option<String>,
    pub global_name: Option<String>,
    pub discriminator: Option<String>,
    pub avatar: Option<String>,
    pub banner: Option<String>,
}

/// A user as others may see it: the account without its password hash.
pub struct PublicUser {
    pub id: String,
    pub created_at: u64,
    pub bot: bool,
    pub public_flags: u32,
    pub username: String,
    pub global_name: Option<String>,
    pub discriminator: Option<String>,
    pub avatar: Option<String>,
    pub banner: Option<String>,
}

impl PublicUser {
    /// A copy of the user.
    pub fn duplicate(&self) -> (r: PublicUser)
        ensures
            r == *self,
    {
        PublicUser {
            id: self.id.clone(),
            created_at: self.created_at,
            bot: self.bot,
            public_flags: self.public_flags,
            username: self.username.clone(),
            global_name: option_string_copy(&self.global_name),
            discriminator: option_string_copy(&self.discriminator),
            avatar: option_string_copy(&self.avatar),
            banner: option_string_copy(&self.banner),
        }
    }
}

/// The author shown with a message.
pub struct MessageAuthor {
    pub id: String,
    pub username: String,
    pub global_name: Option<String>,
    pub avatar: Option<String>,
    pub banner: Option<String>,
    pub public_flags: u32,
}

} // verus!
