//! Identifying a gateway connection and assembling what the `READY` event
//! tells the client about its guilds.

use vstd::prelude::*;

use crate::models::channel::GuildChannel;
use crate::models::guild::BaseGuild;
use crate::models::guild_member::{BaseGuildMember, GuildMemberRoleRow};
use crate::models::role::Role;
use crate::models::user::PublicUser;
use crate::state::{Audience, Sessions};
use crate::utils::text::{distinct_strings, join_with, option_string_copy, option_string_view, split_on, split_str, str_equal, str_views, string_set};
use crate::utils::token::{verified_user_id, verify_token};
use crate::ws::models::IdentifyPayload;
use crate::ws::session::SessionState;

verus! {

/// Who a connection identified as: the user, the login session (the
/// timestamp part of the token), and the client's operating system and
/// browser ("unknown" where not given).
pub struct IdentifiedClient {
    pub user_id: String,
    pub auth_session_id: String,
    pub os: String,
    pub browser: String,
}

/// A client property, or "unknown".
pub open spec fn property_or_unknown(p: Option<Seq<char>>) -> Seq<char> {
    match p {
        Some(v) => v,
        None => "unknown"@,
    }
}

/// A client property, or "unknown".
fn property_value(p: &Option<String>) -> (v: String)
    ensures
        v@ == property_or_unknown(option_string_view(*p)),
{
    match p {
        Some(v) => v.clone(),
        None => "unknown".to_owned(),
    }
}

/// Checks the token of an `Identify` payload under `secret`. The client is
/// identified when the token verifies and splits into exactly three
/// dot-separated parts; the login session is the middle part.
pub fn identify_client(payload: &IdentifyPayload, secret: &str) -> (r: Option<IdentifiedClient>)
    ensures
        match r {
            Some(c) => {
                &&& verified_user_id(payload.token@, secret@) == Ok::<Seq<char>, Seq<char>>(c.user_id@)
                &&& split_on(payload.token@, '.').len() == 3
                &&& c.auth_session_id@ == split_on(payload.token@, '.')[1]
                &&& c.os@ == property_or_unknown(option_string_view(payload.properties.os))
                &&& c.browser@ == property_or_unknown(option_string_view(payload.properties.browser))
            },
            None => verified_user_id(payload.token@, secret@) is Err || split_on(payload.token@, '.').len() != 3,
        },
{
    let user_id = match verify_token(payload.token.as_str(), secret) {
        Ok(id) => id,
        Err(_) => return None,
    };
    let parts = split_str(payload.token.as_str(), '.');
    proof {
        assert(str_views(parts@).len() == parts@.len());
    }
    if parts.len() != 3 {
        return None;
    }
    let auth_session_id = parts[1].to_owned();
    proof {
        assert(str_views(parts@)[1] == parts@[1]@);
    }
    Some(IdentifiedClient {
        user_id,
        auth_session_id,
        os: property_value(&payload.properties.os),
        browser: property_value(&payload.properties.browser),
    })
}

/// A member as `READY` lists it: who, where, the user's public data (if
/// known), the ids of the roles they hold and when they joined.
pub struct ReadyMember {
    pub user_id: String,
    pub guild_id: String,
    pub user: Option<PublicUser>,
    pub roles: Vec<String>,
    pub joined_at: u64,
}

/// A guild as `READY` lists it.
pub struct ReadyGuild {
    pub id: String,
    pub name: String,
    pub owner_id: String,
    pub icon: Option<String>,
    pub channels: Vec<GuildChannel>,
    pub roles: Vec<Role>,
    pub members: Vec<ReadyMember>,
    /// The users online in the guild, each once.
    pub presences: Vec<String>,
}

/// The channels of guild `gid`, in order.
pub open spec fn channels_in(cs: Seq<GuildChannel>, gid: Seq<char>) -> Seq<GuildChannel>
    decreases cs.len(),
{
    if cs.len() == 0 {
        Seq::empty()
    } else {
        let rest = channels_in(cs.drop_last(), gid);
        if cs.last().guild_id@ == gid {
            rest.push(cs.last())
        } else {
            rest
        }
    }
}

/// The roles of guild `gid`, in order.
pub open spec fn roles_in(rs: Seq<Role>, gid: Seq<char>) -> Seq<Role>
    decreases rs.len(),
{
    if rs.len() == 0 {
        Seq::empty()
    } else {
        let rest = roles_in(rs.drop_last(), gid);
        if rs.last().guild_id@ == gid {
            rest.push(rs.last())
        } else {
            rest
        }
    }
}

/// The members of guild `gid`, in order.
pub open spec fn members_in(ms: Seq<BaseGuildMember>, gid: Seq<char>) -> Seq<BaseGuildMember>
    decreases ms.len(),
{
    if ms.len() == 0 {
        Seq::empty()
    } else {
        let rest = members_in(ms.drop_last(), gid);
        if ms.last().guild_id@ == gid {
            rest.push(ms.last())
        } else {
            rest
        }
    }
}

/// The key under which a member's roles are grouped: guild id, `_`, user id.
pub open spec fn member_key(gid: Seq<char>, uid: Seq<char>) -> Seq<char> {
    gid + seq!['_'] + uid
}

/// The ids of the roles whose rows carry the key of (`gid`, `uid`), in order.
pub open spec fn role_ids_for(rows: Seq<GuildMemberRoleRow>, gid: Seq<char>, uid: Seq<char>) -> Seq<String>
    decreases rows.len(),
{
    if rows.len() == 0 {
        Seq::empty()
    } else {
        let rest = role_ids_for(rows.drop_last(), gid, uid);
        if member_key(rows.last().guild_id@, rows.last().user_id@) == member_key(gid, uid) {
            rest.push(rows.last().role_id)
        } else {
            rest
        }
    }
}

/// Keys of guild ids without `_` are equal only for equal guild and user
/// ids.
proof fn lemma_member_key_injective(a: Seq<char>, u: Seq<char>, gid: Seq<char>, uid: Seq<char>)
    requires
        !a.contains('_'),
        !gid.contains('_'),
        member_key(a, u) == member_key(gid, uid),
    ensures
        a == gid,
        u == uid,
{
    let k = member_key(a, u);
    if a.len() < gid.len() {
        assert(k[a.len() as int] == '_');
        assert(member_key(gid, uid)[a.len() as int] == gid[a.len() as int]);
        assert(gid.contains(gid[a.len() as int]));
    } else if a.len() > gid.len() {
        assert(member_key(gid, uid)[gid.len() as int] == '_');
        assert(k[gid.len() as int] == a[gid.len() as int]);
        assert(a.contains(a[gid.len() as int]));
    }
    assert(a =~= k.subrange(0, a.len() as int));
    assert(gid =~= member_key(gid, uid).subrange(0, gid.len() as int));
    assert(u =~= k.subrange(a.len() as int + 1, k.len() as int));
    assert(uid =~= member_key(gid, uid).subrange(gid.len() as int + 1, k.len() as int));
}

/// The role ids listed for (`gid`, `uid`) are those of the rows of that
/// guild and user, and no others.
proof fn lemma_role_ids_for(rows: Seq<GuildMemberRoleRow>, gid: Seq<char>, uid: Seq<char>)
    requires
        !gid.contains('_'),
        forall|i: int| 0 <= i < rows.len() ==> !(#[trigger] rows[i].guild_id@).contains('_'),
    ensures
        role_ids_for(rows, gid, uid).len() <= rows.len(),
        forall|role: String|
            role_ids_for(rows, gid, uid).contains(role) <==> exists|i: int|
                0 <= i < rows.len() && rows[i].guild_id@ == gid && rows[i].user_id@ == uid && #[trigger] rows[i].role_id
                    == role,
    decreases rows.len(),
{
    if rows.len() > 0 {
        let rest = rows.drop_last();
        assert forall|i: int| 0 <= i < rest.len() implies !(#[trigger] rest[i].guild_id@).contains('_') by {
            assert(rest[i] == rows[i]);
        }
        lemma_role_ids_for(rest, gid, uid);
        let last = rows.last();
        let matches = member_key(last.guild_id@, last.user_id@) == member_key(gid, uid);
        assert(!last.guild_id@.contains('_'));
        if matches {
            lemma_member_key_injective(last.guild_id@, last.user_id@, gid, uid);
        } else {
            assert(!(last.guild_id@ == gid && last.user_id@ == uid));
        }
        let prev = role_ids_for(rest, gid, uid);
        assert forall|role: String|
            role_ids_for(rows, gid, uid).contains(role) <==> exists|i: int|
                0 <= i < rows.len() && rows[i].guild_id@ == gid && rows[i].user_id@ == uid && #[trigger] rows[i].role_id
                    == role by {
            if role_ids_for(rows, gid, uid).contains(role) {
                if matches && role == last.role_id {
                    assert(rows[rows.len() - 1].role_id == role);
                } else {
                    if matches {
                        let j = choose|j: int| 0 <= j < prev.push(last.role_id).len() && prev.push(last.role_id)[j] == role;
                        assert(j < prev.len());
                        assert(prev[j] == role);
                    }
                    assert(prev.contains(role));
                    let i = choose|i: int|
                        0 <= i < rest.len() && rest[i].guild_id@ == gid && rest[i].user_id@ == uid && #[trigger] rest[i].role_id
                            == role;
                    assert(rows[i] == rest[i]);
                }
            }
            if exists|i: int|
                0 <= i < rows.len() && rows[i].guild_id@ == gid && rows[i].user_id@ == uid && #[trigger] rows[i].role_id == role {
                let i = choose|i: int|
                    0 <= i < rows.len() && rows[i].guild_id@ == gid && rows[i].user_id@ == uid && #[trigger] rows[i].role_id
                        == role;
                if i == rows.len() - 1 {
                    assert(role_ids_for(rows, gid, uid) == prev.push(last.role_id));
                    assert(prev.push(last.role_id)[prev.len() as int] == role);
                } else {
                    assert(rest[i] == rows[i]);
                    assert(prev.contains(role));
                    let j = choose|j: int| 0 <= j < prev.len() && prev[j] == role;
                    if matches {
                        assert(prev.push(last.role_id)[j] == role);
                    }
                }
            }
        }
    }
}

/// Law: a member that `READY` lists carries the role ids of exactly the
/// role rows of its own guild and user, whatever other members' rows hold
/// (for guild ids without `_`, as snowflake ids are).
pub proof fn lemma_ready_member_roles(
    r: ReadyMember,
    m: BaseGuildMember,
    gid: Seq<char>,
    users: Seq<PublicUser>,
    rows: Seq<GuildMemberRoleRow>,
)
    requires
        is_ready_member(r, m, gid, users, rows),
        !gid.contains('_'),
        forall|i: int| 0 <= i < rows.len() ==> !(#[trigger] rows[i].guild_id@).contains('_'),
    ensures
        r.roles@.len() <= rows.len(),
        forall|role: String|
            r.roles@.contains(role) <==> exists|i: int|
                0 <= i < rows.len() && rows[i].guild_id@ == gid && rows[i].user_id@ == m.user_id@ && #[trigger] rows[i].role_id
                    == role,
{
    lemma_role_ids_for(rows, gid, m.user_id@);
}

/// The last user of the list with id `uid`.
pub open spec fn user_named(users: Seq<PublicUser>, uid: Seq<char>) -> Option<PublicUser>
    decreases users.len(),
{
    if users.len() == 0 {
        None
    } else if users.last().id@ == uid {
        Some(users.last())
    } else {
        user_named(users.drop_last(), uid)
    }
}

/// The users online in guild `gid`: those that a connection receiving the
/// guild's events identified as.
pub open spec fn online_in(m: Map<Seq<char>, SessionState>, gid: Seq<char>) -> Set<Seq<char>> {
    Set::new(|u: Seq<char>| exists|k: Seq<char>| m.dom().contains(k) && m[k].guilds.contains(gid) && m[k].user_id == Some(u))
}

/// `r` lists member `m` of guild `gid`.
pub open spec fn is_ready_member(
    r: ReadyMember,
    m: BaseGuildMember,
    gid: Seq<char>,
    users: Seq<PublicUser>,
    rows: Seq<GuildMemberRoleRow>,
) -> bool {
    &&& r.user_id == m.user_id
    &&& r.guild_id@ == gid
    &&& r.user == user_named(users, m.user_id@)
    &&& r.roles@ == role_ids_for(rows, gid, m.user_id@)
    &&& r.joined_at == m.joined_at
}

/// Whether an earlier guild of the list has the same id as guild `i`.
pub open spec fn repeats_earlier(guilds: Seq<BaseGuild>, i: int) -> bool {
    exists|j: int| 0 <= j < i && guilds[j].id@ == guilds[i].id@
}

/// `r` lists guild `i` of `guilds`: its channels and roles (only at the
/// first occurrence of the guild's id), its members and the users online in
/// it.
pub open spec fn is_ready_guild(
    r: ReadyGuild,
    guilds: Seq<BaseGuild>,
    i: int,
    channels: Seq<GuildChannel>,
    roles: Seq<Role>,
    members: Seq<BaseGuildMember>,
    users: Seq<PublicUser>,
    rows: Seq<GuildMemberRoleRow>,
    online: Map<Seq<char>, SessionState>,
) -> bool {
    let g = guilds[i];
    let gid = g.id@;
    let ms = members_in(members, gid);
    &&& r.id == g.id
    &&& r.name == g.name
    &&& r.owner_id == g.owner_id
    &&& r.icon == g.icon
    &&& r.channels@ == (if repeats_earlier(guilds, i) { Seq::empty() } else { channels_in(channels, gid) })
    &&& r.roles@ == (if repeats_earlier(guilds, i) { Seq::empty() } else { roles_in(roles, gid) })
    &&& r.members@.len() == ms.len()
    &&& forall|k: int| 0 <= k < ms.len() ==> is_ready_member(#[trigger] r.members@[k], ms[k], gid, users, rows)
    &&& distinct_strings(r.presences@)
    &&& string_set(r.presences@) == online_in(online, gid)
}

fn channels_of_guild(cs: &Vec<GuildChannel>, gid: &str) -> (out: Vec<GuildChannel>)
    ensures
        out@ == channels_in(cs@, gid@),
{
    let mut out: Vec<GuildChannel> = Vec::new();
    let mut i: usize = 0;
    while i < cs.len()
        invariant
            0 <= i <= cs@.len(),
            out@ == channels_in(cs@.take(i as int), gid@),
        decreases cs@.len() - i,
    {
        proof {
            assert(cs@.take(i + 1).drop_last() =~= cs@.take(i as int));
        }
        if str_equal(cs[i].guild_id.as_str(), gid) {
            out.push(cs[i].duplicate());
        }
        i = i + 1;
    }
    assert(cs@.take(cs@.len() as int) =~= cs@);
    out
}

fn roles_of_guild(rs: &Vec<Role>, gid: &str) -> (out: Vec<Role>)
    ensures
        out@ == roles_in(rs@, gid@),
{
    let mut out: Vec<Role> = Vec::new();
    let mut i: usize = 0;
    while i < rs.len()
        invariant
            0 <= i <= rs@.len(),
            out@ == roles_in(rs@.take(i as int), gid@),
        decreases rs@.len() - i,
    {
        proof {
            assert(rs@.take(i + 1).drop_last() =~= rs@.take(i as int));
        }
        if str_equal(rs[i].guild_id.as_str(), gid) {
            out.push(rs[i].duplicate());
        }
        i = i + 1;
    }
    assert(rs@.take(rs@.len() as int) =~= rs@);
    out
}

fn role_ids_of_member(rows: &Vec<GuildMemberRoleRow>, gid: &str, uid: &str) -> (out: Vec<String>)
    ensures
        out@ == role_ids_for(rows@, gid@, uid@),
{
    let key = join_with(gid, "_", uid);
    proof {
        reveal_strlit("_");
        assert(key@ =~= member_key(gid@, uid@));
    }
    let mut out: Vec<String> = Vec::new();
    let mut i: usize = 0;
    while i < rows.len()
        invariant
            0 <= i <= rows@.len(),
            key@ == member_key(gid@, uid@),
            out@ == role_ids_for(rows@.take(i as int), gid@, uid@),
        decreases rows@.len() - i,
    {
        proof {
            assert(rows@.take(i + 1).drop_last() =~= rows@.take(i as int));
        }
        let row_key = join_with(rows[i].guild_id.as_str(), "_", rows[i].user_id.as_str());
        proof {
            reveal_strlit("_");
            assert(row_key@ =~= member_key(rows@[i as int].guild_id@, rows@[i as int].user_id@));
        }
        if str_equal(row_key.as_str(), key.as_str()) {
            out.push(rows[i].role_id.clone());
        }
        i = i + 1;
    }
    assert(rows@.take(rows@.len() as int) =~= rows@);
    out
}

fn find_user(users: &Vec<PublicUser>, uid: &str) -> (r: Option<PublicUser>)
    ensures
        r == user_named(users@, uid@),
{
    let mut i: usize = users.len();
    assert(users@.take(users@.len() as int) =~= users@);
    while i > 0
        invariant
            0 <= i <= users@.len(),
            user_named(users@, uid@) == user_named(users@.take(i as int), uid@),
        decreases i,
    {
        proof {
            assert(users@.take(i as int).drop_last() =~= users@.take(i - 1));
        }
        if str_equal(users[i - 1].id.as_str(), uid) {
            return Some(users[i - 1].duplicate());
        }
        i = i - 1;
    }
    None
}

fn members_of_guild(
    ms: &Vec<BaseGuildMember>,
    gid: &str,
    users: &Vec<PublicUser>,
    rows: &Vec<GuildMemberRoleRow>,
) -> (out: Vec<ReadyMember>)
    ensures
        out@.len() == members_in(ms@, gid@).len(),
        forall|k: int| 0 <= k < out@.len() ==> is_ready_member(#[trigger] out@[k], members_in(ms@, gid@)[k], gid@, users@, rows@),
{
    let mut out: Vec<ReadyMember> = Vec::new();
    let mut i: usize = 0;
    while i < ms.len()
        invariant
            0 <= i <= ms@.len(),
            out@.len() == members_in(ms@.take(i as int), gid@).len(),
            forall|k: int| 0 <= k < out@.len() ==> is_ready_member(#[trigger] out@[k], members_in(ms@.take(i as int), gid@)[k], gid@, users@, rows@),
        decreases ms@.len() - i,
    {
        proof {
            assert(ms@.take(i + 1).drop_last() =~= ms@.take(i as int));
        }
        if str_equal(ms[i].guild_id.as_str(), gid) {
            let uid = ms[i].user_id.as_str();
            let entry = ReadyMember {
                user_id: ms[i].user_id.clone(),
                guild_id: gid.to_owned(),
                user: find_user(users, uid),
                roles: role_ids_of_member(rows, gid, uid),
                joined_at: ms[i].joined_at,
            };
            out.push(entry);
        }
        i = i + 1;
    }
    assert(ms@.take(ms@.len() as int) =~= ms@);
    out
}

/// Assembles the guilds of the `READY` event from the stored rows: for each
/// guild row, in order, its channels and roles (only at the first occurrence
/// of its id), its members with their user data and role ids, and the users
/// online in it according to the connection registry.
pub fn ready_guilds(
    guilds: &Vec<BaseGuild>,
    channels: &Vec<GuildChannel>,
    roles: &Vec<Role>,
    members: &Vec<BaseGuildMember>,
    users: &Vec<PublicUser>,
    member_roles: &Vec<GuildMemberRoleRow>,
    sessions: &Sessions,
) -> (out: Vec<ReadyGuild>)
    ensures
        out@.len() == guilds@.len(),
        forall|i: int| 0 <= i < guilds@.len() ==> is_ready_guild(#[trigger] out@[i], guilds@, i, channels@, roles@, members@, users@, member_roles@, sessions@),
{
    let mut out: Vec<ReadyGuild> = Vec::new();
    let mut i: usize = 0;
    while i < guilds.len()
        invariant
            0 <= i <= guilds@.len(),
            out@.len() == i,
            forall|j: int| 0 <= j < i ==> is_ready_guild(#[trigger] out@[j], guilds@, j, channels@, roles@, members@, users@, member_roles@, sessions@),
        decreases guilds@.len() - i,
    {
        let gid = guilds[i].id.as_str();
        let mut repeated = false;
        let mut j: usize = 0;
        while j < i
            invariant
                0 <= j <= i < guilds@.len(),
                gid@ == guilds@[i as int].id@,
                repeated == exists|k: int| 0 <= k < j && guilds@[k].id@ == guilds@[i as int].id@,
            decreases i - j,
        {
            if str_equal(guilds[j].id.as_str(), gid) {
                repeated = true;
            }
            j = j + 1;
        }
        let (guild_channels, guild_roles) = if repeated {
            (Vec::new(), Vec::new())
        } else {
            (channels_of_guild(channels, gid), roles_of_guild(roles, gid))
        };
        let online = sessions.identified_users(Audience::Guild(gid));
        proof {
            assert(string_set(online@) =~= online_in(sessions@, gid@));
        }
        let entry = ReadyGuild {
            id: guilds[i].id.clone(),
            name: guilds[i].name.clone(),
            owner_id: guilds[i].owner_id.clone(),
            icon: option_string_copy(&guilds[i].icon),
            channels: guild_channels,
            roles: guild_roles,
            members: members_of_guild(members, gid, users, member_roles),
            presences: online,
        };
        out.push(entry);
        proof {
            assert(is_ready_guild(out@[i as int], guilds@, i as int, channels@, roles@, members@, users@, member_roles@, sessions@));
        }
        i = i + 1;
    }
    out
}

/// The ids of the guilds, in order.
pub fn guild_ids(guilds: &Vec<BaseGuild>) -> (ids: Vec<String>)
    ensures
        ids@.len() == guilds@.len(),
        forall|i: int| 0 <= i < ids@.len() ==> #[trigger] ids@[i] == guilds@[i].id,
{
    let mut ids: Vec<String> = Vec::new();
    let mut i: usize = 0;
    while i < guilds.len()
        invariant
            0 <= i <= guilds@.len(),
            ids@.len() == i,
            forall|k: int| 0 <= k < i ==> #[trigger] ids@[k] == guilds@[k].id,
        decreases guilds@.len() - i,
    {
        ids.push(guilds[i].id.clone());
        i = i + 1;
    }
    ids
}

} // verus!
