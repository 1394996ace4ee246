//! The listing of discoverable guilds.

use vstd::prelude::*;

use crate::models::guild::DiscoverableGuild;
use crate::routes::api::{bind_views, SqlArg, SqlValue, Statement};
use crate::utils::text::{join_strings, joined};

verus! {

/// The listing: every discoverable guild at once.
pub struct DiscoverableGuildsResponse {
    pub guilds: Vec<DiscoverableGuild>,
    pub offset: u64,
    pub limit: u64,
    pub total: u64,
}

impl DiscoverableGuildsResponse {
    /// The listing of `guilds`: offset 0, and both limit and total the number
    /// of guilds.
    pub fn new(guilds: Vec<DiscoverableGuild>) -> (r: Self)
        ensures
            r.guilds@ == guilds@,
            r.offset == 0,
            r.total == guilds@.len(),
            r.limit == guilds@.len(),
    {
        let total = guilds.len() as u64;
        DiscoverableGuildsResponse { limit: total, offset: 0, total, guilds }
    }
}

/// `n` placeholders joined by ", ".
pub open spec fn placeholders(n: nat) -> Seq<char> {
    joined(Seq::new(n, |i: int| "?"@), ", "@)
}

/// The query counting how many of `n` users (bound to the placeholders) are
/// members of guild `guild_id`.
pub open spec fn presence_count_query(guild_id: Seq<char>, n: nat) -> Seq<char> {
    "SELECT COUNT(DISTINCT user_id) as c FROM guild_members WHERE guild_id = '"@ + guild_id + "' AND user_id IN ("@
        + placeholders(n) + ")"@
}

/// Builds the query counting how many of `n` connected users are members of
/// guild `guild_id`.
pub fn presence_count_sql(guild_id: &str, n: usize) -> (sql: String)
    ensures
        sql@ == presence_count_query(guild_id@, n as nat),
{
    let mut marks: Vec<String> = Vec::new();
    let mut i: usize = 0;
    while i < n
        invariant
            0 <= i <= n,
            marks@.len() == i,
            forall|k: int| 0 <= k < i ==> #[trigger] marks@[k]@ == "?"@,
        decreases n - i,
    {
        marks.push("?".to_owned());
        i = i + 1;
    }
    let list = join_strings(&marks, ", ");
    proof {
        assert(marks@.map_values(|p: String| p@) =~= Seq::new(n as nat, |i: int| "?"@));
    }
    let mut sql = "SELECT COUNT(DISTINCT user_id) as c FROM guild_members WHERE guild_id = '".to_owned();
    sql.append(guild_id);
    sql.append("' AND user_id IN (");
    sql.append(list.as_str());
    sql.append(")");
    sql
}

/// The statement counting how many of the connected users `user_ids` are
/// members of guild `guild_id`, the ids bound in order; none when no user is
/// connected (the count is then 0 without a query).
pub open spec fn presence_count(guild_id: Seq<char>, user_ids: Seq<String>) -> Option<(Seq<char>, Seq<SqlArg>)> {
    if user_ids.len() == 0 {
        None
    } else {
        Some((
            presence_count_query(guild_id, user_ids.len()),
            user_ids.map_values(|u: String| SqlArg::Text(Some(u@))),
        ))
    }
}

/// Builds the statement counting the connected users in guild `guild_id`.
pub fn presence_count_statement(guild_id: &str, user_ids: &Vec<String>) -> (r: Option<Statement>)
    ensures
        match r {
            Some(st) => presence_count(guild_id@, user_ids@) == Some((st.sql@, bind_views(st.binds@))),
            None => presence_count(guild_id@, user_ids@) is None,
        },
{
    if user_ids.len() == 0 {
        return None;
    }
    let sql = presence_count_sql(guild_id, user_ids.len());
    let mut binds: Vec<SqlValue> = Vec::new();
    let mut i: usize = 0;
    while i < user_ids.len()
        invariant
            0 <= i <= user_ids@.len(),
            bind_views(binds@) == user_ids@.take(i as int).map_values(|u: String| SqlArg::Text(Some(u@))),
        decreases user_ids@.len() - i,
    {
        let ghost before = binds@;
        let u = user_ids[i].clone();
        assert(u@ == user_ids@[i as int]@);
        binds.push(SqlValue::Text(Some(u)));
        proof {
            let target = user_ids@.take(i + 1).map_values(|u: String| SqlArg::Text(Some(u@)));
            let prev = user_ids@.take(i as int).map_values(|u: String| SqlArg::Text(Some(u@)));
            assert(binds@.len() == before.len() + 1);
            assert(bind_views(before).len() == before.len());
            assert(prev.len() == i);
            assert(before.len() == i);
            assert(target.len() == i + 1);
            assert(bind_views(binds@).len() == i + 1);
            assert forall|k: int| 0 <= k < binds@.len() implies #[trigger] bind_views(binds@)[k] == target[k] by {
                if k < before.len() {
                    assert(binds@[k] == before[k]);
                    assert(bind_views(before)[k] == prev[k]);
                    assert(user_ids@.take(i + 1)[k] == user_ids@.take(i as int)[k]);
                } else {
                    assert(user_ids@.take(i + 1)[k] == user_ids@[i as int]);
                }
            }
            assert(bind_views(binds@) =~= target);
        }
        i = i + 1;
    }
    assert(user_ids@.take(user_ids@.len() as int) =~= user_ids@);
    Some(Statement { sql, binds })
}

} // verus!
