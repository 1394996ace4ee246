//! Creating a guild: who may, and the members it reports.

use vstd::prelude::*;

use crate::models::guild_member::{BaseGuildMember, GuildMember, GuildMemberRole};
use crate::models::role::Role;
use crate::utils::constants::is_staff;
use crate::routes::api::ApiError;
use crate::utils::text::{contains_str, str_equal, string_set};
use vstd::string::*;

verus! {

/// The body of a guild creation request.
pub struct CreateGuildRequest {
    pub name: String,
}

/// Whether a user with these public flags may create a guild: only staff
/// may.
pub fn may_create_guild(public_flags: u32) -> (r: bool)
    ensures
        r == (public_flags & 1u32 == 1u32),
{
    is_staff(public_flags)
}

/// Whether a guild name is acceptable: between 2 and 100 characters.
pub open spec fn guild_name_ok(name: Seq<char>) -> bool {
    2 <= name.len() <= 100
}

/// Checks the name of a guild to create: 400 "name must be between 2 and
/// 100 characters" otherwise.
pub fn check_guild_name(name: &str) -> (r: Result<(), ApiError>)
    ensures
        r is Ok <==> guild_name_ok(name@),
        r matches Err(e) ==> e.status == 400 && e.message@ == "name must be between 2 and 100 characters"@,
{
    let n = name.unicode_len();
    if n < 2 || n > 100 {
        Err(ApiError { status: 400, message: "name must be between 2 and 100 characters".to_owned() })
    } else {
        Ok(())
    }
}

/// The permission bits granted by the roles of the list whose ids are held:
/// the union of their permissions (0 when none is held).
pub open spec fn permissions_of(roles: Seq<Role>, held: Set<Seq<char>>) -> u64
    decreases roles.len(),
{
    if roles.len() == 0 {
        0
    } else {
        let rest = permissions_of(roles.drop_last(), held);
        if held.contains(roles.last().id@) {
            rest | roles.last().permissions
        } else {
            rest
        }
    }
}

/// The permissions of a member in a guild: the union of the permissions of
/// the guild's roles (`roles`) whose ids the member holds (`held`).
pub fn member_permissions(roles: &Vec<Role>, held: &Vec<String>) -> (p: u64)
    ensures
        p == permissions_of(roles@, string_set(held@)),
{
    let mut p: u64 = 0;
    let mut i: usize = 0;
    while i < roles.len()
        invariant
            0 <= i <= roles@.len(),
            p == permissions_of(roles@.take(i as int), string_set(held@)),
        decreases roles@.len() - i,
    {
        proof {
            assert(roles@.take(i + 1).drop_last() =~= roles@.take(i as int));
        }
        if contains_str(held, roles[i].id.as_str()) {
            p = p | roles[i].permissions;
        }
        i = i + 1;
    }
    assert(roles@.take(roles@.len() as int) =~= roles@);
    p
}

/// The last role of the list with id `rid`.
pub open spec fn role_named(roles: Seq<Role>, rid: Seq<char>) -> Option<Role>
    decreases roles.len(),
{
    if roles.len() == 0 {
        None
    } else if roles.last().id@ == rid {
        Some(roles.last())
    } else {
        role_named(roles.drop_last(), rid)
    }
}

/// The ids of the roles that user `uid` holds, in order.
pub open spec fn held_role_ids(rows: Seq<GuildMemberRole>, uid: Seq<char>) -> Seq<String>
    decreases rows.len(),
{
    if rows.len() == 0 {
        Seq::empty()
    } else {
        let rest = held_role_ids(rows.drop_last(), uid);
        if rows.last().user_id@ == uid {
            rest.push(rows.last().role_id)
        } else {
            rest
        }
    }
}

/// The roles with these ids, in order, skipping ids that name no role.
pub open spec fn roles_with_ids(roles: Seq<Role>, ids: Seq<String>) -> Seq<Role>
    decreases ids.len(),
{
    if ids.len() == 0 {
        Seq::empty()
    } else {
        let rest = roles_with_ids(roles, ids.drop_last());
        match role_named(roles, ids.last()@) {
            Some(r) => rest.push(r),
            None => rest,
        }
    }
}

fn find_role(roles: &Vec<Role>, rid: &str) -> (r: Option<Role>)
    ensures
        r == role_named(roles@, rid@),
{
    let mut i: usize = roles.len();
    assert(roles@.take(roles@.len() as int) =~= roles@);
    while i > 0
        invariant
            0 <= i <= roles@.len(),
            role_named(roles@, rid@) == role_named(roles@.take(i as int), rid@),
        decreases i,
    {
        proof {
            assert(roles@.take(i as int).drop_last() =~= roles@.take(i - 1));
        }
        if str_equal(roles[i - 1].id.as_str(), rid) {
            return Some(roles[i - 1].duplicate());
        }
        i = i - 1;
    }
    None
}

fn roles_of_member(rows: &Vec<GuildMemberRole>, roles: &Vec<Role>, uid: &str) -> (out: Vec<Role>)
    ensures
        out@ == roles_with_ids(roles@, held_role_ids(rows@, uid@)),
{
    let mut out: Vec<Role> = Vec::new();
    let mut i: usize = 0;
    while i < rows.len()
        invariant
            0 <= i <= rows@.len(),
            out@ == roles_with_ids(roles@, held_role_ids(rows@.take(i as int), uid@)),
        decreases rows@.len() - i,
    {
        proof {
            assert(rows@.take(i + 1).drop_last() =~= rows@.take(i as int));
        }
        if str_equal(rows[i].user_id.as_str(), uid) {
            let ghost ids = held_role_ids(rows@.take(i as int), uid@);
            proof {
                assert(held_role_ids(rows@.take(i + 1), uid@) == ids.push(rows@[i as int].role_id));
                assert(ids.push(rows@[i as int].role_id).drop_last() =~= ids);
            }
            match find_role(roles, rows[i].role_id.as_str()) {
                Some(role) => out.push(role),
                None => {},
            }
        }
        i = i + 1;
    }
    assert(rows@.take(rows@.len() as int) =~= rows@);
    out
}

/// The members of a new guild with the roles each holds: for each membership
/// in order, the roles named by the member's role rows (in row order), each
/// taken from `roles` (the last role with that id), skipping ids that name no
/// role.
pub fn members_with_roles(members: &Vec<BaseGuildMember>, member_roles: &Vec<GuildMemberRole>, roles: &Vec<Role>) -> (out: Vec<GuildMember>)
    ensures
        out@.len() == members@.len(),
        forall|i: int| #![trigger out@[i]] 0 <= i < members@.len() ==> {
            &&& out@[i].base == members@[i]
            &&& out@[i].roles@ == roles_with_ids(roles@, held_role_ids(member_roles@, members@[i].user_id@))
        },
{
    let mut out: Vec<GuildMember> = Vec::new();
    let mut i: usize = 0;
    while i < members.len()
        invariant
            0 <= i <= members@.len(),
            out@.len() == i,
            forall|k: int| #![trigger out@[k]] 0 <= k < i ==> {
                &&& out@[k].base == members@[k]
                &&& out@[k].roles@ == roles_with_ids(roles@, held_role_ids(member_roles@, members@[k].user_id@))
            },
        decreases members@.len() - i,
    {
        let member_roles_list = roles_of_member(member_roles, roles, members[i].user_id.as_str());
        out.push(GuildMember { base: members[i].duplicate(), roles: member_roles_list });
        i = i + 1;
    }
    out
}

} // verus!
