//! Updating one's own account, profile and settings.

use vstd::prelude::*;
use vstd::string::*;
use vstd::utf8::encode_utf8;

use crate::routes::api::users::{theme_array, UserProfileData, UserProfileRow};
use crate::routes::api::{bind_views, ApiError, SqlArg, SqlValue, Statement};
use crate::utils::text::{joined, join_strings, option_string_copy, option_string_view, str_equal, trim_str, trimmed};

verus! {

/// A profile as the API shows it after an update.
pub struct UserProfileResponse {
    pub user_profile: UserProfileData,
}

impl From<UserProfileRow> for UserProfileResponse {
    /// The answer for a stored profile: bio, pronouns and accent colour as
    /// stored, the two theme colours when both are set.
    fn from(row: UserProfileRow) -> (r: Self) {
        let theme_colors = match (row.theme_color_primary, row.theme_color_secondary) {
            (Some(p), Some(s)) => Some([p, s]),
            _ => None,
        };
        UserProfileResponse {
            user_profile: UserProfileData { bio: row.bio, pronouns: row.pronouns, accent_color: row.accent_color, theme_colors },
        }
    }
}

impl vstd::std_specs::convert::FromSpecImpl<UserProfileRow> for UserProfileResponse {
    open spec fn obeys_from_spec() -> bool {
        true
    }

    open spec fn from_spec(row: UserProfileRow) -> Self {
        UserProfileResponse {
            user_profile: UserProfileData {
                bio: row.bio,
                pronouns: row.pronouns,
                accent_color: row.accent_color,
                theme_colors: theme_array(row.theme_color_primary, row.theme_color_secondary),
            },
        }
    }
}

/// The body of a profile update: each field present is changed.
pub struct UpdateProfileRequest {
    pub bio: Option<String>,
    pub pronouns: Option<String>,
    pub accent_color: Option<u64>,
    pub theme_colors: Option<Vec<Option<u64>>>,
}

/// The body of a settings update: each field present is changed; for the
/// gradient preset, `Some(None)` clears it.
pub struct UpdateSettingsRequest {
    pub status: Option<String>,
    pub locale: Option<String>,
    pub theme: Option<String>,
    pub background_gradient_preset: Option<Option<String>>,
    pub developer_mode: Option<bool>,
}

/// Stored settings.
pub struct UserSettings {
    pub id: String,
    pub status: Option<String>,
    pub locale: Option<String>,
    pub theme: Option<String>,
    pub background_gradient_preset: Option<String>,
    pub developer_mode: bool,
}

/// The body of an account update: each field present is changed; `Some(None)`
/// clears it.
pub struct UpdateUserRequest {
    pub global_name: Option<Option<String>>,
    pub avatar: Option<Option<String>>,
    pub banner: Option<Option<String>>,
}

/// The view of an optional, possibly cleared, string field.
pub open spec fn field_view(f: Option<Option<String>>) -> Option<Option<Seq<char>>> {
    match f {
        Some(o) => Some(option_string_view(o)),
        None => None,
    }
}

/// Whether a requested display name is acceptable: once trimmed, between 1
/// and 32 bytes long (clearing it is always acceptable).
pub open spec fn display_name_ok(f: Option<Option<Seq<char>>>) -> bool {
    match f {
        Some(Some(g)) => trimmed(g).len() > 0 && encode_utf8(trimmed(g)).len() <= 32,
        _ => true,
    }
}

/// The assignment and bound value for a display name change.
pub open spec fn display_name_part(f: Option<Option<Seq<char>>>) -> (Seq<char>, Seq<SqlArg>) {
    match f {
        None => (Seq::empty(), Seq::empty()),
        Some(None) => ("global_name = "@ + "?"@, seq![SqlArg::Text(None)]),
        Some(Some(g)) => ("global_name = "@ + "?"@, seq![SqlArg::Text(Some(trimmed(g)))]),
    }
}

/// The assignment and bound value for an avatar or banner change: only
/// clearing binds a value; setting one writes the column name alone.
pub open spec fn image_part(column: Seq<char>, f: Option<Option<Seq<char>>>) -> (Seq<char>, Seq<SqlArg>) {
    match f {
        None => (Seq::empty(), Seq::empty()),
        Some(None) => (column + "?"@, seq![SqlArg::Text(None)]),
        Some(Some(_)) => (column, Seq::empty()),
    }
}

/// The statement an account update runs for user `user_id`, or its refusal:
/// 400 when the display name is unacceptable, 400 when nothing is to change.
pub open spec fn account_update(req: UpdateUserRequest, user_id: Seq<char>) -> Result<(Seq<char>, Seq<SqlArg>), (u16, Seq<char>)> {
    let name = field_view(req.global_name);
    let avatar = field_view(req.avatar);
    let banner = field_view(req.banner);
    if !display_name_ok(name) {
        Err((400u16, "global_name must be between 1 and 32 characters"@))
    } else if name is None && avatar is None && banner is None {
        Err((400u16, "rien a modifier"@))
    } else {
        let (s1, b1) = display_name_part(name);
        let (s2, b2) = image_part("avatar = "@, avatar);
        let (s3, b3) = image_part("banner = "@, banner);
        Ok(("UPDATE users SET "@ + s1 + s2 + s3 + " WHERE id = "@ + "?"@, b1 + b2 + b3 + seq![SqlArg::Text(Some(user_id))]))
    }
}

/// Builds the statement an account update runs for user `user_id`.
pub fn update_user_statement(request: &UpdateUserRequest, user_id: &str) -> (r: Result<Statement, ApiError>)
    ensures
        match r {
            Ok(st) => account_update(*request, user_id@) == Ok::<(Seq<char>, Seq<SqlArg>), (u16, Seq<char>)>((st.sql@, bind_views(st.binds@))),
            Err(e) => account_update(*request, user_id@) == Err::<(Seq<char>, Seq<SqlArg>), (u16, Seq<char>)>((e.status, e.message@)),
        },
{
    let ghost name = field_view(request.global_name);
    let mut sql = "UPDATE users SET ".to_owned();
    let mut binds: Vec<SqlValue> = Vec::new();
    let mut has_updates = false;
    match &request.global_name {
        Some(global_name) => {
            sql.append("global_name = ");
            match global_name {
                Some(g) => {
                    let t = trim_str(g.as_str());
                    if t.is_empty() || t.as_bytes().len() > 32 {
                        return Err(ApiError { status: 400, message: "global_name must be between 1 and 32 characters".to_owned() });
                    }
                    sql.append("?");
                    binds.push(SqlValue::Text(Some(t.to_owned())));
                },
                None => {
                    sql.append("?");
                    binds.push(SqlValue::Text(None));
                },
            }
            has_updates = true;
        },
        None => {},
    }
    let ghost s1 = sql@;
    let ghost b1 = bind_views(binds@);
    match &request.avatar {
        Some(avatar) => {
            sql.append("avatar = ");
            match avatar {
                Some(_) => {},
                None => {
                    sql.append("?");
                    binds.push(SqlValue::Text(None));
                },
            }
            has_updates = true;
        },
        None => {},
    }
    let ghost s2 = sql@;
    let ghost b2 = bind_views(binds@);
    match &request.banner {
        Some(banner) => {
            sql.append("banner = ");
            match banner {
                Some(_) => {},
                None => {
                    sql.append("?");
                    binds.push(SqlValue::Text(None));
                },
            }
            has_updates = true;
        },
        None => {},
    }
    if !has_updates {
        return Err(ApiError { status: 400, message: "rien a modifier".to_owned() });
    }
    sql.append(" WHERE id = ");
    sql.append("?");
    binds.push(SqlValue::Text(Some(user_id.to_owned())));
    proof {
        let (p1, q1) = display_name_part(name);
        let (p2, q2) = image_part("avatar = "@, field_view(request.avatar));
        let (p3, q3) = image_part("banner = "@, field_view(request.banner));
        assert(s1 =~= "UPDATE users SET "@ + p1);
        assert(b1 =~= q1);
        assert(s2 =~= "UPDATE users SET "@ + p1 + p2);
        assert(b2 =~= q1 + q2);
        assert(sql@ =~= "UPDATE users SET "@ + p1 + p2 + p3 + " WHERE id = "@ + "?"@);
        assert(bind_views(binds@) =~= q1 + q2 + q3 + seq![SqlArg::Text(Some(user_id@))]);
    }
    Ok(Statement { sql, binds })
}

/// The colour at position `i` of a requested theme, if there is one.
pub open spec fn theme_color_at(colors: Seq<Option<u64>>, i: int) -> Option<u64> {
    if 0 <= i < colors.len() {
        colors[i]
    } else {
        None
    }
}

/// The assignments and bound values of a profile update, in order: bio,
/// pronouns, accent colour, then both theme colours (the first two entries
/// of the requested list, missing ones cleared).
pub open spec fn profile_items(req: UpdateProfileRequest) -> (Seq<Seq<char>>, Seq<SqlArg>) {
    let (i1, b1) = match req.bio {
        Some(b) => (seq!["bio = "@ + "?"@], seq![SqlArg::Text(Some(b@))]),
        None => (Seq::empty(), Seq::empty()),
    };
    let (i2, b2) = match req.pronouns {
        Some(p) => (seq!["pronouns = "@ + "?"@], seq![SqlArg::Text(Some(p@))]),
        None => (Seq::empty(), Seq::empty()),
    };
    let (i3, b3) = match req.accent_color {
        Some(c) => (seq!["accent_color = "@ + "?"@], seq![SqlArg::Unsigned(Some(c))]),
        None => (Seq::empty(), Seq::empty()),
    };
    let (i4, b4) = match req.theme_colors {
        Some(tc) => (
            seq!["theme_color_primary = "@ + "?"@, "theme_color_secondary = "@ + "?"@],
            seq![SqlArg::Unsigned(theme_color_at(tc@, 0)), SqlArg::Unsigned(theme_color_at(tc@, 1))],
        ),
        None => (Seq::empty(), Seq::empty()),
    };
    (i1 + i2 + i3 + i4, b1 + b2 + b3 + b4)
}

/// The statement a profile update runs for user `user_id`, or `None` when
/// nothing is to change.
pub open spec fn profile_update(req: UpdateProfileRequest, user_id: Seq<char>) -> Option<(Seq<char>, Seq<SqlArg>)> {
    let (items, binds) = profile_items(req);
    if items.len() == 0 {
        None
    } else {
        Some(("UPDATE user_profiles SET "@ + joined(items, ", "@) + " WHERE id = "@ + "?"@, binds + seq![SqlArg::Text(Some(user_id))]))
    }
}

/// Law: a profile update that sets the theme colours ends its statement
/// with the two theme colour assignments and the user id, and binds the
/// first requested colour to `theme_color_primary` and the second to
/// `theme_color_secondary` (`None` for each one the request lacks), then the
/// user id.
pub proof fn lemma_profile_theme_colors(req: UpdateProfileRequest, user_id: Seq<char>)
    requires
        req.theme_colors is Some,
    ensures
        profile_update(req, user_id) is Some,
        ({
            let tc = req.theme_colors->Some_0@;
            let sql = profile_update(req, user_id)->Some_0.0;
            let binds = profile_update(req, user_id)->Some_0.1;
            &&& binds.len() >= 3
            &&& binds[binds.len() - 3] == SqlArg::Unsigned(if tc.len() >= 1 { tc[0] } else { None })
            &&& binds[binds.len() - 2] == SqlArg::Unsigned(if tc.len() >= 2 { tc[1] } else { None })
            &&& binds[binds.len() - 1] == SqlArg::Text(Some(user_id))
            &&& exists|prefix: Seq<char>|
                sql == prefix + "theme_color_primary = ?, theme_color_secondary = ? WHERE id = ?"@
        }),
{
    reveal_strlit("theme_color_primary = ");
    reveal_strlit("theme_color_secondary = ");
    reveal_strlit("?");
    reveal_strlit(", ");
    reveal_strlit(" WHERE id = ");
    reveal_strlit("theme_color_primary = ?, theme_color_secondary = ? WHERE id = ?");
    let (items, binds) = profile_items(req);
    let n = items.len();
    let primary = "theme_color_primary = "@ + "?"@;
    let secondary = "theme_color_secondary = "@ + "?"@;
    assert(n >= 2);
    assert(items[n - 1] == secondary);
    assert(items[n - 2] == primary);
    let front = items.drop_last();
    assert(front.last() == primary);
    let head: Seq<char> = if front.len() == 1 {
        Seq::empty()
    } else {
        joined(front.drop_last(), ", "@) + ", "@
    };
    assert(joined(front, ", "@) =~= head + primary);
    assert(joined(items, ", "@) =~= head + primary + ", "@ + secondary);
    let prefix = "UPDATE user_profiles SET "@ + head;
    let sql = profile_update(req, user_id)->Some_0.0;
    assert(sql =~= prefix + "theme_color_primary = ?, theme_color_secondary = ? WHERE id = ?"@);
}

/// The views of a list of strings.
pub open spec fn string_views(v: Seq<String>) -> Seq<Seq<char>> {
    v.map_values(|p: String| p@)
}

/// An assignment `column = ?`.
fn assignment(column: &str) -> (s: String)
    ensures
        s@ == column@ + "?"@,
{
    let mut s = column.to_owned();
    s.append("?");
    s
}

/// Builds the statement a profile update runs for user `user_id`.
pub fn update_profile_statement(request: &UpdateProfileRequest, user_id: &str) -> (r: Option<Statement>)
    ensures
        match r {
            Some(st) => profile_update(*request, user_id@) == Some((st.sql@, bind_views(st.binds@))),
            None => profile_update(*request, user_id@) is None,
        },
{
    let mut items: Vec<String> = Vec::new();
    let mut binds: Vec<SqlValue> = Vec::new();
    match &request.bio {
        Some(b) => {
            items.push(assignment("bio = "));
            binds.push(SqlValue::Text(Some(b.clone())));
        },
        None => {},
    }
    let ghost i1 = string_views(items@);
    let ghost b1 = bind_views(binds@);
    match &request.pronouns {
        Some(p) => {
            items.push(assignment("pronouns = "));
            binds.push(SqlValue::Text(Some(p.clone())));
        },
        None => {},
    }
    let ghost i2 = string_views(items@);
    let ghost b2 = bind_views(binds@);
    match request.accent_color {
        Some(c) => {
            items.push(assignment("accent_color = "));
            binds.push(SqlValue::Unsigned(Some(c)));
        },
        None => {},
    }
    let ghost i3 = string_views(items@);
    let ghost b3 = bind_views(binds@);
    match &request.theme_colors {
        Some(tc) => {
            let primary = if tc.len() > 0 {
                tc[0]
            } else {
                None
            };
            let secondary = if tc.len() > 1 {
                tc[1]
            } else {
                None
            };
            items.push(assignment("theme_color_primary = "));
            binds.push(SqlValue::Unsigned(primary));
            items.push(assignment("theme_color_secondary = "));
            binds.push(SqlValue::Unsigned(secondary));
        },
        None => {},
    }
    proof {
        let (pi, pb) = profile_items(*request);
        assert(string_views(items@) =~= pi) by {
            assert(i1.len() <= 1);
        }
        assert(bind_views(binds@) =~= pb);
    }
    if items.len() == 0 {
        return None;
    }
    let mut sql = "UPDATE user_profiles SET ".to_owned();
    let assignments = join_strings(&items, ", ");
    sql.append(assignments.as_str());
    sql.append(" WHERE id = ");
    sql.append("?");
    let ghost before = bind_views(binds@);
    binds.push(SqlValue::Text(Some(user_id.to_owned())));
    proof {
        assert(bind_views(binds@) =~= before + seq![SqlArg::Text(Some(user_id@))]);
    }
    Some(Statement { sql, binds })
}

/// The assignments and bound values of a settings update, in order: status,
/// locale, theme, gradient preset, developer mode.
pub open spec fn settings_items(req: UpdateSettingsRequest) -> (Seq<Seq<char>>, Seq<SqlArg>) {
    let (i1, b1) = match req.status {
        Some(v) => (seq!["status = "@ + "?"@], seq![SqlArg::Text(Some(v@))]),
        None => (Seq::empty(), Seq::empty()),
    };
    let (i2, b2) = match req.locale {
        Some(v) => (seq!["locale = "@ + "?"@], seq![SqlArg::Text(Some(v@))]),
        None => (Seq::empty(), Seq::empty()),
    };
    let (i3, b3) = match req.theme {
        Some(v) => (seq!["theme = "@ + "?"@], seq![SqlArg::Text(Some(v@))]),
        None => (Seq::empty(), Seq::empty()),
    };
    let (i4, b4) = match req.background_gradient_preset {
        Some(v) => (seq!["background_gradient_preset = "@ + "?"@], seq![SqlArg::Text(option_string_view(v))]),
        None => (Seq::empty(), Seq::empty()),
    };
    let (i5, b5) = match req.developer_mode {
        Some(v) => (seq!["developer_mode = "@ + "?"@], seq![SqlArg::Bool(v)]),
        None => (Seq::empty(), Seq::empty()),
    };
    (i1 + i2 + i3 + i4 + i5, b1 + b2 + b3 + b4 + b5)
}

/// The statuses a user can choose.
pub open spec fn is_status(s: Seq<char>) -> bool {
    s == "online"@ || s == "idle"@ || s == "dnd"@ || s == "invisible"@
}

/// The themes a user can choose.
pub open spec fn is_theme(s: Seq<char>) -> bool {
    s == "dark"@ || s == "light"@
}

/// A locale: between 2 and 6 characters.
pub open spec fn is_locale(s: Seq<char>) -> bool {
    2 <= s.len() <= 6
}

/// The background gradient presets a user can choose.
pub open spec fn gradient_presets() -> Seq<Seq<char>> {
    seq![
        "mint-apple"@, "citrus-sherbert"@, "retro-raincloud"@, "hanami"@, "sunrise"@, "cotton-candy"@,
        "lofi-vibes"@, "desert-khaki"@, "sunset"@, "chroma-glow"@, "forest"@, "crimson-moon"@,
        "midnight-blurple"@, "mars"@, "dusk"@, "under-the-sea"@, "retro-storm"@, "neon-nights"@,
        "strawberry-lemonade"@, "aurora"@, "sepia"@, "blurple-twilight"@,
    ]
}

/// The first unacceptable value of a settings update, in field order, as
/// the message its refusal carries: a status other than online, idle, dnd or
/// invisible; a locale not 2 to 6 characters long; a theme other than dark or
/// light; a gradient preset that is not one of `gradient_presets` (clearing
/// the preset is always acceptable).
#[verifier::opaque]
pub open spec fn settings_error(req: UpdateSettingsRequest) -> Option<Seq<char>> {
    if req.status matches Some(v) && !is_status(v@) {
        Some("status must be online, idle, dnd or invisible"@)
    } else if req.locale matches Some(v) && !is_locale(v@) {
        Some("locale must be between 2 and 6 characters"@)
    } else if req.theme matches Some(v) && !is_theme(v@) {
        Some("theme must be dark or light"@)
    } else if req.background_gradient_preset matches Some(Some(v)) && !gradient_presets().contains(v@) {
        Some("unknown background gradient preset"@)
    } else {
        None
    }
}

/// The statement a settings update runs for user `user_id`, or its refusal
/// (400): with the message of `settings_error` when a value is
/// unacceptable, "rien a modifier" when no field is to change.
pub open spec fn settings_update(req: UpdateSettingsRequest, user_id: Seq<char>) -> Result<(Seq<char>, Seq<SqlArg>), (u16, Seq<char>)> {
    let (items, binds) = settings_items(req);
    if settings_error(req) is Some {
        Err((400u16, settings_error(req)->0))
    } else if req.status is None && req.locale is None && req.theme is None && req.background_gradient_preset is None
        && req.developer_mode is None {
        Err((400u16, "rien a modifier"@))
    } else {
        Ok(("UPDATE user_settings SET "@ + joined(items, ", "@) + " WHERE id = "@ + "?"@, binds + seq![SqlArg::Text(Some(user_id))]))
    }
}

/// The names of the gradient presets.
fn gradient_preset_names() -> (v: Vec<&'static str>)
    ensures
        v@.map_values(|p: &str| p@) == gradient_presets(),
{
    let v = vec![
        "mint-apple", "citrus-sherbert", "retro-raincloud", "hanami", "sunrise", "cotton-candy",
        "lofi-vibes", "desert-khaki", "sunset", "chroma-glow", "forest", "crimson-moon",
        "midnight-blurple", "mars", "dusk", "under-the-sea", "retro-storm", "neon-nights",
        "strawberry-lemonade", "aurora", "sepia", "blurple-twilight",
    ];
    assert(v@.map_values(|p: &str| p@) =~= gradient_presets());
    v
}

/// Whether `p` is one of the gradient presets.
fn is_gradient_preset(p: &str) -> (r: bool)
    ensures
        r == gradient_presets().contains(p@),
{
    let names = gradient_preset_names();
    let ghost views = names@.map_values(|q: &str| q@);
    let mut i: usize = 0;
    while i < names.len()
        invariant
            views == names@.map_values(|q: &str| q@),
            views == gradient_presets(),
            0 <= i <= names@.len(),
            forall|k: int| 0 <= k < i ==> views[k] != p@,
        decreases names@.len() - i,
    {
        if str_equal(names[i], p) {
            assert(views[i as int] == p@);
            return true;
        }
        i = i + 1;
    }
    assert(!views.contains(p@));
    false
}

/// The refusal message for the first unacceptable value of a settings
/// update, if any.
fn check_settings(request: &UpdateSettingsRequest) -> (r: Option<&'static str>)
    ensures
        match r {
            Some(m) => settings_error(*request) == Some(m@),
            None => settings_error(*request) is None,
        },
{
    reveal(settings_error);
    match &request.status {
        Some(v) => {
            let s = v.as_str();
            if !(str_equal(s, "online") || str_equal(s, "idle") || str_equal(s, "dnd") || str_equal(s, "invisible")) {
                return Some("status must be online, idle, dnd or invisible");
            }
        },
        None => {},
    }
    match &request.locale {
        Some(v) => {
            let n = v.as_str().unicode_len();
            if n < 2 || n > 6 {
                return Some("locale must be between 2 and 6 characters");
            }
        },
        None => {},
    }
    match &request.theme {
        Some(v) => {
            let s = v.as_str();
            if !(str_equal(s, "dark") || str_equal(s, "light")) {
                return Some("theme must be dark or light");
            }
        },
        None => {},
    }
    match &request.background_gradient_preset {
        Some(Some(v)) => {
            if !is_gradient_preset(v.as_str()) {
                return Some("unknown background gradient preset");
            }
        },
        _ => {},
    }
    None
}

/// Builds the statement a settings update runs for user `user_id`.
pub fn update_settings_statement(request: &UpdateSettingsRequest, user_id: &str) -> (r: Result<Statement, ApiError>)
    ensures
        match r {
            Ok(st) => settings_update(*request, user_id@) == Ok::<(Seq<char>, Seq<SqlArg>), (u16, Seq<char>)>((st.sql@, bind_views(st.binds@))),
            Err(e) => settings_update(*request, user_id@) == Err::<(Seq<char>, Seq<SqlArg>), (u16, Seq<char>)>((e.status, e.message@)),
        },
{
    match check_settings(request) {
        Some(m) => return Err(ApiError { status: 400, message: m.to_owned() }),
        None => {},
    }
    let mut items: Vec<String> = Vec::new();
    let mut binds: Vec<SqlValue> = Vec::new();
    let mut has_updates = false;
    match &request.status {
        Some(v) => {
            items.push(assignment("status = "));
            binds.push(SqlValue::Text(Some(v.clone())));
            has_updates = true;
        },
        None => {},
    }
    let ghost i1 = string_views(items@);
    let ghost b1 = bind_views(binds@);
    match &request.locale {
        Some(v) => {
            items.push(assignment("locale = "));
            binds.push(SqlValue::Text(Some(v.clone())));
            has_updates = true;
        },
        None => {},
    }
    let ghost i2 = string_views(items@);
    let ghost b2 = bind_views(binds@);
    match &request.theme {
        Some(v) => {
            items.push(assignment("theme = "));
            binds.push(SqlValue::Text(Some(v.clone())));
            has_updates = true;
        },
        None => {},
    }
    let ghost i3 = string_views(items@);
    let ghost b3 = bind_views(binds@);
    match &request.background_gradient_preset {
        Some(v) => {
            items.push(assignment("background_gradient_preset = "));
            binds.push(SqlValue::Text(option_string_copy(v)));
            has_updates = true;
        },
        None => {},
    }
    let ghost i4 = string_views(items@);
    let ghost b4 = bind_views(binds@);
    match request.developer_mode {
        Some(v) => {
            items.push(assignment("developer_mode = "));
            binds.push(SqlValue::Bool(v));
            has_updates = true;
        },
        None => {},
    }
    if !has_updates {
        return Err(ApiError { status: 400, message: "rien a modifier".to_owned() });
    }
    proof {
        let (pi, pb) = settings_items(*request);
        assert(string_views(items@) =~= pi);
        assert(bind_views(binds@) =~= pb);
    }
    let mut sql = "UPDATE user_settings SET ".to_owned();
    let assignments = join_strings(&items, ", ");
    sql.append(assignments.as_str());
    sql.append(" WHERE id = ");
    sql.append("?");
    let ghost before = bind_views(binds@);
    binds.push(SqlValue::Text(Some(user_id.to_owned())));
    proof {
        assert(bind_views(binds@) =~= before + seq![SqlArg::Text(Some(user_id@))]);
    }
    Ok(Statement { sql, binds })
}

} // verus!
