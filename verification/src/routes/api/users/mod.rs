//! User profiles.

pub mod me;

use vstd::prelude::*;

verus! {

/// A stored profile.
pub struct UserProfileRow {
    pub bio: Option<String>,
    pub pronouns: Option<String>,
    pub accent_color: Option<u64>,
    pub theme_color_primary: Option<u64>,
    pub theme_color_secondary: Option<u64>,
}

/// A profile as the API shows it.
pub struct UserProfileData {
    pub bio: Option<String>,
    pub pronouns: Option<String>,
    pub accent_color: Option<u64>,
    pub theme_colors: Option<[u64; 2]>,
}

/// The answer to a profile request.
pub struct UserProfileRes {
    pub user_profile: UserProfileData,
}

/// The theme colours of a profile, as an optional pair.
pub open spec fn theme_array(primary: Option<u64>, secondary: Option<u64>) -> Option<[u64; 2]> {
    match (primary, secondary) {
        (Some(p), Some(s)) => Some([p, s]),
        _ => None,
    }
}

impl From<UserProfileRow> for UserProfileRes {
    /// The answer for a stored profile: bio, pronouns and accent colour as
    /// stored, the two theme colours when both are set.
    fn from(row: UserProfileRow) -> (r: Self) {
        let theme_colors = match (row.theme_color_primary, row.theme_color_secondary) {
            (Some(p), Some(s)) => Some([p, s]),
            _ => None,
        };
        UserProfileRes {
            user_profile: UserProfileData { bio: row.bio, pronouns: row.pronouns, accent_color: row.accent_color, theme_colors },
        }
    }
}

impl vstd::std_specs::convert::FromSpecImpl<UserProfileRow> for UserProfileRes {
    open spec fn obeys_from_spec() -> bool {
        true
    }

    open spec fn from_spec(row: UserProfileRow) -> Self {
        UserProfileRes {
            user_profile: UserProfileData {
                bio: row.bio,
                pronouns: row.pronouns,
                accent_color: row.accent_color,
                theme_colors: theme_array(row.theme_color_primary, row.theme_color_secondary),
            },
        }
    }
}

} // verus!
