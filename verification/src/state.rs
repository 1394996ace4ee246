//! The registry of live gateway connections, keyed by connection id, and the
//! choice of which connections an event reaches.

use vstd::prelude::*;

use crate::utils::constants::gateway::Opcode;
use crate::utils::text::{contains_str, distinct_strings, option_string_view, push_unique, str_equal, string_set};
use crate::ws::models::GatewayPayload;
use crate::ws::session::{next_sequence, GatewaySession, SessionState};

verus! {

/// Whether some connection of `s` has id `k`.
pub open spec fn has_id(s: Seq<GatewaySession>, k: Seq<char>) -> bool {
    exists|i: int| 0 <= i < s.len() && s[i].id@ == k
}

/// A position of `s` holding a connection with id `k`.
pub open spec fn index_of_id(s: Seq<GatewaySession>, k: Seq<char>) -> int {
    choose|i: int| 0 <= i < s.len() && s[i].id@ == k
}

/// No two connections of `s` share an id.
pub open spec fn unique_ids(s: Seq<GatewaySession>) -> bool {
    forall|i: int, j: int| 0 <= i < s.len() && 0 <= j < s.len() && i != j ==> s[i].id@ != s[j].id@
}

/// The connections of `s` by id.
pub open spec fn sessions_map(s: Seq<GatewaySession>) -> Map<Seq<char>, SessionState> {
    Map::new(|k: Seq<char>| has_id(s, k), |k: Seq<char>| s[index_of_id(s, k)]@)
}

/// The live gateway connections, at most one per id.
pub struct Sessions {
    sessions: Vec<GatewaySession>,
}

impl View for Sessions {
    type V = Map<Seq<char>, SessionState>;

    closed spec fn view(&self) -> Map<Seq<char>, SessionState> {
        sessions_map(self.sessions@)
    }
}

/// Which connections an event goes to.
#[derive(Clone, Copy)]
pub enum Audience<'a> {
    /// Every connection.
    Everyone,
    /// The connections identified as this user.
    User(&'a str),
    /// The connections that receive this guild's events.
    Guild(&'a str),
}

/// Whether a connection in state `st` belongs to the audience.
pub open spec fn in_audience(audience: Audience, st: SessionState) -> bool {
    match audience {
        Audience::Everyone => true,
        Audience::User(u) => st.user_id == Some(u@),
        Audience::Guild(g) => st.guilds.contains(g@),
    }
}

/// The ids of the connections of `m` in the audience.
pub open spec fn audience_of(m: Map<Seq<char>, SessionState>, audience: Audience) -> Set<Seq<char>> {
    Set::new(|k: Seq<char>| m.dom().contains(k) && in_audience(audience, m[k]))
}

/// The users that connections of `m` in the audience identified as.
pub open spec fn users_of(m: Map<Seq<char>, SessionState>, audience: Audience) -> Set<Seq<char>> {
    Set::new(|u: Seq<char>| exists|k: Seq<char>| m.dom().contains(k) && in_audience(audience, m[k]) && m[k].user_id == Some(u))
}

/// The (connection id, guild id) pairs to which a presence change of
/// `user_id` in `guilds` is announced: connections identified as another
/// user, for each guild of `guilds` whose events they receive.
pub open spec fn presence_pairs(
    m: Map<Seq<char>, SessionState>,
    user_id: Seq<char>,
    guilds: Set<Seq<char>>,
) -> Set<(Seq<char>, Seq<char>)> {
    Set::new(
        |p: (Seq<char>, Seq<char>)|
            m.dom().contains(p.0) && (m[p.0].user_id matches Some(u) && u != user_id) && guilds.contains(p.1)
                && m[p.0].guilds.contains(p.1),
    )
}

/// The pairs of a list, as a set of pairs of character sequences.
pub open spec fn pair_set(v: Seq<(String, String)>) -> Set<(Seq<char>, Seq<char>)> {
    Set::new(|p: (Seq<char>, Seq<char>)| exists|i: int| 0 <= i < v.len() && v[i].0@ == p.0 && v[i].1@ == p.1)
}

/// No two pairs of the list are equal.
pub open spec fn distinct_pairs(v: Seq<(String, String)>) -> bool {
    forall|i: int, j: int| 0 <= i < v.len() && 0 <= j < v.len() && i != j ==> !(v[i].0@ == v[j].0@ && v[i].1@ == v[j].1@)
}

/// Adds the pair `(a, b)` to the list unless an equal pair is already there.
fn push_unique_pair(v: &mut Vec<(String, String)>, a: String, b: String)
    requires
        distinct_pairs(old(v)@),
    ensures
        distinct_pairs(final(v)@),
        pair_set(final(v)@) == pair_set(old(v)@).insert((a@, b@)),
{
    let mut i: usize = 0;
    while i < v.len()
        invariant
            0 <= i <= v@.len(),
            distinct_pairs(v@),
            forall|k: int| 0 <= k < i ==> !(v@[k].0@ == a@ && v@[k].1@ == b@),
        decreases v@.len() - i,
    {
        if str_equal(v[i].0.as_str(), a.as_str()) && str_equal(v[i].1.as_str(), b.as_str()) {
            assert(pair_set(v@) =~= pair_set(v@).insert((a@, b@)));
            return;
        }
        i = i + 1;
    }
    let ghost before = v@;
    v.push((a, b));
    proof {
        assert forall|p: (Seq<char>, Seq<char>)| #[trigger] pair_set(v@).contains(p) == pair_set(before).insert((a@, b@)).contains(p) by {
            if pair_set(before).contains(p) {
                let j = choose|j: int| 0 <= j < before.len() && before[j].0@ == p.0 && before[j].1@ == p.1;
                assert(v@[j] == before[j]);
            }
            if p == (a@, b@) {
                assert(v@[before.len() as int].0@ == p.0);
            }
            if pair_set(v@).contains(p) && p != (a@, b@) {
                let j = choose|j: int| 0 <= j < v@.len() && v@[j].0@ == p.0 && v@[j].1@ == p.1;
                assert(j < before.len());
            }
        }
        assert(pair_set(v@) =~= pair_set(before).insert((a@, b@)));
    }
}

/// One dispatch to deliver: the connection it goes to and the payload.
pub struct Delivery<T> {
    pub session_id: String,
    pub payload: GatewayPayload<T>,
}

/// `st` with its sequence number advanced.
pub open spec fn advanced(st: SessionState) -> SessionState {
    SessionState { sequence: next_sequence(st.sequence), ..st }
}

/// The registry after dispatching to `audience`: the connections of the
/// audience have advanced their sequence numbers, the others are unchanged.
pub open spec fn after_dispatch(m: Map<Seq<char>, SessionState>, audience: Audience) -> Map<Seq<char>, SessionState> {
    Map::new(
        |k: Seq<char>| m.dom().contains(k),
        |k: Seq<char>| if in_audience(audience, m[k]) { advanced(m[k]) } else { m[k] },
    )
}

/// What a dispatch of event `event_name` with data `d` to `audience` did,
/// taking the registry from `before` to `after` and handing out
/// `deliveries`: the audience's sequence numbers advanced; each delivery
/// goes to a connection of the audience, carries a clone of `d`, the event
/// name and the connection's sequence number; no connection gets two; every
/// connection of the audience gets one.
pub open spec fn dispatched<T: Clone>(
    before: Map<Seq<char>, SessionState>,
    after: Map<Seq<char>, SessionState>,
    audience: Audience,
    event_name: Seq<char>,
    d: T,
    deliveries: Seq<Delivery<T>>,
) -> bool {
    &&& after == after_dispatch(before, audience)
    &&& forall|m: int| #![trigger deliveries[m]] 0 <= m < deliveries.len() ==> {
        let id = deliveries[m].session_id@;
        let p = deliveries[m].payload;
        &&& before.dom().contains(id)
        &&& in_audience(audience, before[id])
        &&& p.op == Opcode::Dispatch
        &&& option_string_view(p.t) == Some(event_name)
        &&& p.s == Some(before[id].sequence)
        &&& p.d matches Some(x) && cloned(d, x)
    }
    &&& forall|m: int, n: int| 0 <= m < deliveries.len() && 0 <= n < deliveries.len() && m != n
        ==> deliveries[m].session_id@ != deliveries[n].session_id@
    &&& forall|k: Seq<char>| before.dom().contains(k) && in_audience(audience, #[trigger] before[k])
        ==> exists|m: int| 0 <= m < deliveries.len() && deliveries[m].session_id@ == k
}

proof fn lemma_map_at(s: Seq<GatewaySession>, i: int)
    requires
        unique_ids(s),
        0 <= i < s.len(),
    ensures
        sessions_map(s).dom().contains(s[i].id@),
        sessions_map(s)[s[i].id@] == s[i]@,
        index_of_id(s, s[i].id@) == i,
{
    assert(has_id(s, s[i].id@));
}

proof fn lemma_map_update(s: Seq<GatewaySession>, i: int, x: GatewaySession)
    requires
        unique_ids(s),
        0 <= i < s.len(),
        x.id@ == s[i].id@,
    ensures
        unique_ids(s.update(i, x)),
        sessions_map(s.update(i, x)) == sessions_map(s).insert(x.id@, x@),
{
    let t = s.update(i, x);
    assert forall|a: int, b: int| 0 <= a < t.len() && 0 <= b < t.len() && a != b implies t[a].id@ != t[b].id@ by {
        assert(s[a].id@ != s[b].id@);
    }
    assert forall|k: Seq<char>| #[trigger] has_id(t, k) == has_id(s, k) by {
        if has_id(s, k) {
            let j = choose|j: int| 0 <= j < s.len() && s[j].id@ == k;
            assert(t[j].id@ == k);
        }
        if has_id(t, k) {
            let j = choose|j: int| 0 <= j < t.len() && t[j].id@ == k;
            assert(s[j].id@ == k);
        }
    }
    assert forall|k: Seq<char>| has_id(t, k) implies #[trigger] sessions_map(t)[k] == sessions_map(s).insert(x.id@, x@)[k] by {
        let j = index_of_id(t, k);
        lemma_map_at(t, j);
        if j != i {
            lemma_map_at(s, j);
        }
    }
    assert(sessions_map(t) =~= sessions_map(s).insert(x.id@, x@));
}

proof fn lemma_map_push(s: Seq<GatewaySession>, x: GatewaySession)
    requires
        unique_ids(s),
        !has_id(s, x.id@),
    ensures
        unique_ids(s.push(x)),
        sessions_map(s.push(x)) == sessions_map(s).insert(x.id@, x@),
{
    let t = s.push(x);
    assert forall|a: int, b: int| 0 <= a < t.len() && 0 <= b < t.len() && a != b implies t[a].id@ != t[b].id@ by {
        if a < s.len() && b < s.len() {
            assert(s[a].id@ != s[b].id@);
        } else if a < s.len() {
            assert(t[a].id@ == s[a].id@);
        } else {
            assert(t[b].id@ == s[b].id@);
        }
    }
    assert forall|k: Seq<char>| #[trigger] has_id(t, k) == (has_id(s, k) || k == x.id@) by {
        if has_id(s, k) {
            let j = choose|j: int| 0 <= j < s.len() && s[j].id@ == k;
            assert(t[j].id@ == k);
        }
        if k == x.id@ {
            assert(t[s.len() as int].id@ == k);
        }
        if has_id(t, k) && k != x.id@ {
            let j = choose|j: int| 0 <= j < t.len() && t[j].id@ == k;
            assert(j < s.len());
            assert(s[j].id@ == k);
        }
    }
    assert forall|k: Seq<char>| has_id(t, k) implies #[trigger] sessions_map(t)[k] == sessions_map(s).insert(x.id@, x@)[k] by {
        let j = index_of_id(t, k);
        lemma_map_at(t, j);
        if j < s.len() {
            lemma_map_at(s, j);
        }
    }
    assert(sessions_map(t) =~= sessions_map(s).insert(x.id@, x@));
}

proof fn lemma_map_remove(s: Seq<GatewaySession>, i: int)
    requires
        unique_ids(s),
        0 <= i < s.len(),
    ensures
        unique_ids(s.remove(i)),
        sessions_map(s.remove(i)) == sessions_map(s).remove(s[i].id@),
{
    let t = s.remove(i);
    let k0 = s[i].id@;
    assert forall|a: int, b: int| 0 <= a < t.len() && 0 <= b < t.len() && a != b implies t[a].id@ != t[b].id@ by {
        let a0 = if a < i { a } else { a + 1 };
        let b0 = if b < i { b } else { b + 1 };
        assert(s[a0].id@ != s[b0].id@);
    }
    assert forall|k: Seq<char>| #[trigger] has_id(t, k) == (has_id(s, k) && k != k0) by {
        if has_id(s, k) && k != k0 {
            let j = choose|j: int| 0 <= j < s.len() && s[j].id@ == k;
            if j < i {
                assert(t[j].id@ == k);
            } else {
                assert(j != i);
                assert(t[j - 1].id@ == k);
            }
        }
        if has_id(t, k) {
            let j = choose|j: int| 0 <= j < t.len() && t[j].id@ == k;
            let j0 = if j < i { j } else { j + 1 };
            assert(s[j0].id@ == k);
            assert(j0 != i);
            assert(s[j0].id@ != s[i].id@);
        }
    }
    assert forall|k: Seq<char>| has_id(t, k) implies #[trigger] sessions_map(t)[k] == sessions_map(s).remove(k0)[k] by {
        let j = index_of_id(t, k);
        lemma_map_at(t, j);
        let j0 = if j < i { j } else { j + 1 };
        lemma_map_at(s, j0);
    }
    assert(sessions_map(t) =~= sessions_map(s).remove(k0));
}

proof fn lemma_map_dispatch(s: Seq<GatewaySession>, t: Seq<GatewaySession>, audience: Audience)
    requires
        unique_ids(s),
        s.len() == t.len(),
        forall|j: int| 0 <= j < s.len() ==> #[trigger] t[j].id@ == s[j].id@,
        forall|j: int| 0 <= j < s.len() ==> #[trigger] t[j]@ == (if in_audience(audience, s[j]@) {
            advanced(s[j]@)
        } else {
            s[j]@
        }),
    ensures
        unique_ids(t),
        sessions_map(t) == after_dispatch(sessions_map(s), audience),
{
    assert forall|a: int, b: int| 0 <= a < t.len() && 0 <= b < t.len() && a != b implies t[a].id@ != t[b].id@ by {
        assert(t[a].id@ == s[a].id@);
        assert(t[b].id@ == s[b].id@);
    }
    assert forall|k: Seq<char>| #[trigger] has_id(t, k) == has_id(s, k) by {
        if has_id(s, k) {
            let j = choose|j: int| 0 <= j < s.len() && s[j].id@ == k;
            assert(t[j].id@ == s[j].id@);
        }
        if has_id(t, k) {
            let j = choose|j: int| 0 <= j < t.len() && t[j].id@ == k;
            assert(t[j].id@ == s[j].id@);
        }
    }
    assert forall|k: Seq<char>| has_id(t, k) implies #[trigger] sessions_map(t)[k] == after_dispatch(sessions_map(s), audience)[k] by {
        let j = index_of_id(t, k);
        lemma_map_at(t, j);
        assert(t[j].id@ == s[j].id@);
        lemma_map_at(s, j);
    }
    assert(sessions_map(t) =~= after_dispatch(sessions_map(s), audience));
}

/// Whether `session` belongs to the audience.
/// Law: after `insert` of a connection, its id looks up that connection and
/// every other id looks up what it did before; after `remove` of an id, no
/// connection is left under it and every other id looks up what it did
/// before.
pub proof fn lemma_registry_insert_remove(
    m: Map<Seq<char>, SessionState>,
    k: Seq<char>,
    st: SessionState,
    other: Seq<char>,
)
    requires
        other != k,
    ensures
        m.insert(k, st).dom().contains(k),
        m.insert(k, st)[k] == st,
        m.insert(k, st).dom().contains(other) == m.dom().contains(other),
        m.dom().contains(other) ==> m.insert(k, st)[other] == m[other],
        !m.remove(k).dom().contains(k),
        m.remove(k).dom().contains(other) == m.dom().contains(other),
        m.dom().contains(other) ==> m.remove(k)[other] == m[other],
{
}

/// Law: a dispatch keeps every connection and what it identified as; it
/// advances by one the sequence number of each connection of its audience
/// and leaves the others' alone.
pub proof fn lemma_dispatch_advances_audience(m: Map<Seq<char>, SessionState>, audience: Audience, k: Seq<char>)
    requires
        m.dom().contains(k),
    ensures
        after_dispatch(m, audience).dom() == m.dom(),
        after_dispatch(m, audience)[k].user_id == m[k].user_id,
        after_dispatch(m, audience)[k].auth_session_id == m[k].auth_session_id,
        after_dispatch(m, audience)[k].guilds == m[k].guilds,
        after_dispatch(m, audience)[k].sequence == (if in_audience(audience, m[k]) {
            next_sequence(m[k].sequence)
        } else {
            m[k].sequence
        }),
{
    assert(after_dispatch(m, audience).dom() =~= m.dom());
}

/// Law: a dispatch changes no audience: each connection receives after it
/// the events it received before.
pub proof fn lemma_dispatch_keeps_audiences(m: Map<Seq<char>, SessionState>, audience: Audience, other: Audience)
    ensures
        audience_of(after_dispatch(m, audience), other) == audience_of(m, other),
        users_of(after_dispatch(m, audience), other) == users_of(m, other),
{
    let after = after_dispatch(m, audience);
    assert(audience_of(after, other) =~= audience_of(m, other));
    assert forall|u: Seq<char>| users_of(after, other).contains(u) <==> users_of(m, other).contains(u) by {
        if users_of(m, other).contains(u) {
            let k = choose|k: Seq<char>| m.dom().contains(k) && in_audience(other, m[k]) && m[k].user_id == Some(u);
            assert(after.dom().contains(k) && in_audience(other, after[k]) && after[k].user_id == Some(u));
        }
        if users_of(after, other).contains(u) {
            let k = choose|k: Seq<char>|
                after.dom().contains(k) && in_audience(other, after[k]) && after[k].user_id == Some(u);
            assert(m.dom().contains(k) && in_audience(other, m[k]) && m[k].user_id == Some(u));
        }
    }
    assert(users_of(after, other) =~= users_of(m, other));
}

fn session_in_audience(session: &GatewaySession, audience: Audience) -> (r: bool)
    ensures
        r == in_audience(audience, session@),
{
    match audience {
        Audience::Everyone => true,
        Audience::User(user_id) => session.is_user(user_id),
        Audience::Guild(guild_id) => session.in_guild(guild_id),
    }
}

impl Sessions {
    #[verifier::type_invariant]
    spec fn ids_unique(&self) -> bool {
        unique_ids(self.sessions@)
    }

    /// No connections.
    pub fn new() -> (r: Self)
        ensures
            r@ == Map::<Seq<char>, SessionState>::empty(),
    {
        let r = Sessions { sessions: Vec::new() };
        assert(r@ =~= Map::<Seq<char>, SessionState>::empty());
        r
    }

    /// The number of connections.
    pub fn len(&self) -> (n: usize)
        ensures
            n == self@.dom().len(),
    {
        proof {
            use_type_invariant(self);
            self.lemma_dom_len();
        }
        self.sessions.len()
    }

    proof fn lemma_dom_len(&self)
        requires
            unique_ids(self.sessions@),
        ensures
            self@.dom().len() == self.sessions@.len(),
            self@.dom().finite(),
        decreases self.sessions@.len(),
    {
        let s = self.sessions@;
        let ids = s.map_values(|x: GatewaySession| x.id@);
        assert forall|a: int, b: int| 0 <= a < ids.len() && 0 <= b < ids.len() && a != b implies ids[a] != ids[b] by {
            assert(s[a].id@ != s[b].id@);
        }
        ids.unique_seq_to_set();
        assert forall|k: Seq<char>| self@.dom().contains(k) <==> ids.to_set().contains(k) by {
            if self@.dom().contains(k) {
                let j = choose|j: int| 0 <= j < s.len() && s[j].id@ == k;
                assert(ids[j] == k);
            }
            if ids.to_set().contains(k) {
                let j = choose|j: int| 0 <= j < ids.len() && ids[j] == k;
                assert(has_id(s, k));
            }
        }
        assert(self@.dom() =~= ids.to_set());
    }

    /// The position of the connection with id `id`, if there is one.
    fn position(&self, id: &str) -> (r: Option<usize>)
        ensures
            match r {
                Some(i) => i < self.sessions@.len() && self.sessions@[i as int].id@ == id@,
                None => !has_id(self.sessions@, id@),
            },
    {
        let mut i: usize = 0;
        while i < self.sessions.len()
            invariant
                0 <= i <= self.sessions@.len(),
                forall|j: int| 0 <= j < i ==> self.sessions@[j].id@ != id@,
            decreases self.sessions@.len() - i,
        {
            if str_equal(self.sessions[i].id.as_str(), id) {
                return Some(i);
            }
            i = i + 1;
        }
        None
    }

    /// Whether a connection with id `id` is registered.
    pub fn contains(&self, id: &str) -> (r: bool)
        ensures
            r == self@.dom().contains(id@),
    {
        self.position(id).is_some()
    }

    /// The connection with id `id`.
    pub fn get(&self, id: &str) -> (r: Option<&GatewaySession>)
        ensures
            match r {
                Some(s) => self@.dom().contains(id@) && s.id@ == id@ && s@ == self@[id@],
                None => !self@.dom().contains(id@),
            },
    {
        proof {
            use_type_invariant(self);
        }
        match self.position(id) {
            Some(i) => {
                proof {
                    lemma_map_at(self.sessions@, i as int);
                }
                Some(&self.sessions[i])
            },
            None => None,
        }
    }

    /// Registers `session`, replacing a connection with the same id.
    pub fn insert(&mut self, session: GatewaySession)
        ensures
            final(self)@ == old(self)@.insert(session.id@, session@),
    {
        proof {
            use_type_invariant(&*self);
        }
        let position = self.position(session.id.as_str());
        let mut v: Vec<GatewaySession> = Vec::new();
        std::mem::swap(&mut v, &mut self.sessions);
        match position {
            Some(i) => {
                proof {
                    lemma_map_update(v@, i as int, session);
                }
                v.set(i, session);
            },
            None => {
                proof {
                    lemma_map_push(v@, session);
                }
                v.push(session);
            },
        }
        self.sessions = v;
    }

    /// Unregisters the connection with id `id` and hands it back.
    pub fn remove(&mut self, id: &str) -> (r: Option<GatewaySession>)
        ensures
            final(self)@ == old(self)@.remove(id@),
            match r {
                Some(s) => old(self)@.dom().contains(id@) && s.id@ == id@ && s@ == old(self)@[id@],
                None => !old(self)@.dom().contains(id@),
            },
    {
        proof {
            use_type_invariant(&*self);
        }
        match self.position(id) {
            Some(i) => {
                let mut v: Vec<GatewaySession> = Vec::new();
                std::mem::swap(&mut v, &mut self.sessions);
                proof {
                    lemma_map_at(v@, i as int);
                    lemma_map_remove(v@, i as int);
                }
                let s = v.remove(i);
                self.sessions = v;
                Some(s)
            },
            None => {
                assert(old(self)@.remove(id@) =~= old(self)@);
                None
            },
        }
    }

    /// Records that connection `id` identified as `user_id` in login session
    /// `auth_session_id` and receives the events of `guilds`; its sequence
    /// number is kept. Nothing happens if no such connection is registered.
    pub fn identify(&mut self, id: &str, user_id: String, auth_session_id: String, guilds: Vec<String>) -> (found: bool)
        ensures
            found == old(self)@.dom().contains(id@),
            found ==> final(self)@ == old(self)@.insert(
                id@,
                SessionState {
                    user_id: Some(user_id@),
                    auth_session_id: Some(auth_session_id@),
                    sequence: old(self)@[id@].sequence,
                    guilds: string_set(guilds@),
                },
            ),
            !found ==> final(self)@ == old(self)@,
    {
        proof {
            use_type_invariant(&*self);
        }
        match self.position(id) {
            Some(i) => {
                let mut v: Vec<GatewaySession> = Vec::new();
                std::mem::swap(&mut v, &mut self.sessions);
                let updated = GatewaySession {
                    id: v[i].id.clone(),
                    user_id: Some(user_id),
                    auth_session_id: Some(auth_session_id),
                    sequence: v[i].sequence,
                    guilds,
                };
                proof {
                    lemma_map_at(v@, i as int);
                    lemma_map_update(v@, i as int, updated);
                }
                v.set(i, updated);
                self.sessions = v;
                true
            },
            None => false,
        }
    }

    /// Builds the heartbeat acknowledgement for connection `id`, which takes
    /// the connection's next sequence number; `None` if no such connection is
    /// registered.
    pub fn heartbeat_ack<T>(&mut self, id: &str) -> (r: Option<GatewayPayload<T>>)
        ensures
            match r {
                Some(p) => {
                    &&& old(self)@.dom().contains(id@)
                    &&& p.op == Opcode::HeartbeatAck
                    &&& p.d is None
                    &&& p.t is None
                    &&& p.s == Some(old(self)@[id@].sequence)
                    &&& final(self)@ == old(self)@.insert(id@, advanced(old(self)@[id@]))
                },
                None => !old(self)@.dom().contains(id@) && final(self)@ == old(self)@,
            },
    {
        proof {
            use_type_invariant(&*self);
        }
        match self.position(id) {
            Some(i) => {
                let mut v: Vec<GatewaySession> = Vec::new();
                std::mem::swap(&mut v, &mut self.sessions);
                let ghost before = v@;
                let p = v[i].send(Opcode::HeartbeatAck, None, None);
                proof {
                    lemma_map_at(before, i as int);
                    assert(v@ == before.update(i as int, v@[i as int]));
                    lemma_map_update(before, i as int, v@[i as int]);
                    assert(v@[i as int]@ == advanced(before[i as int]@));
                }
                self.sessions = v;
                Some(p)
            },
            None => None,
        }
    }

    /// Builds the dispatch of event `event_name` with data `d` to every
    /// connection of the audience, once each: each payload carries a clone of
    /// `d` and the connection's sequence number, which then advances; the
    /// other connections are untouched.
    pub fn dispatch<T: Clone>(&mut self, audience: Audience, event_name: &str, d: &T) -> (deliveries: Vec<Delivery<T>>)
        ensures
            dispatched(old(self)@, final(self)@, audience, event_name@, *d, deliveries@),
    {
        proof {
            use_type_invariant(&*self);
        }
        let mut v: Vec<GatewaySession> = Vec::new();
        std::mem::swap(&mut v, &mut self.sessions);
        let ghost s0 = v@;
        let ghost mut idx: Seq<int> = Seq::empty();
        let mut out: Vec<Delivery<T>> = Vec::new();
        let mut i: usize = 0;
        while i < v.len()
            invariant
                unique_ids(s0),
                v@.len() == s0.len(),
                0 <= i <= v@.len(),
                forall|j: int| 0 <= j < s0.len() ==> #[trigger] v@[j].id@ == s0[j].id@,
                forall|j: int| 0 <= j < i ==> #[trigger] v@[j]@ == (if in_audience(audience, s0[j]@) {
                    advanced(s0[j]@)
                } else {
                    s0[j]@
                }),
                forall|j: int| i <= j < s0.len() ==> #[trigger] v@[j] == s0[j],
                idx.len() == out@.len(),
                forall|m: int, n: int| 0 <= m < n < idx.len() ==> idx[m] < idx[n],
                forall|m: int| #![trigger idx[m]] 0 <= m < idx.len() ==> {
                    let j = idx[m];
                    let p = out@[m].payload;
                    &&& 0 <= j < i
                    &&& in_audience(audience, s0[j]@)
                    &&& out@[m].session_id@ == s0[j].id@
                    &&& p.op == Opcode::Dispatch
                    &&& option_string_view(p.t) == Some(event_name@)
                    &&& p.s == Some(s0[j]@.sequence)
                    &&& p.d matches Some(x) && cloned(*d, x)
                },
                forall|j: int| 0 <= j < i && in_audience(audience, #[trigger] s0[j]@)
                    ==> exists|m: int| 0 <= m < idx.len() && idx[m] == j,
            decreases v@.len() - i,
        {
            if session_in_audience(&v[i], audience) {
                let data = d.clone();
                let ghost before = v@;
                let payload = v[i].dispatch(event_name, data);
                let session_id = v[i].id.clone();
                proof {
                    assert(v@ == before.update(i as int, v@[i as int]));
                }
                out.push(Delivery { session_id, payload });
                proof {
                    let ghost old_idx = idx;
                    idx = idx.push(i as int);
                    assert forall|j: int| 0 <= j < i + 1 && in_audience(audience, #[trigger] s0[j]@)
                        implies exists|m: int| 0 <= m < idx.len() && idx[m] == j by {
                        if j == i {
                            assert(idx[idx.len() - 1] == j);
                        } else {
                            let m = choose|m: int| 0 <= m < old_idx.len() && old_idx[m] == j;
                            assert(idx[m] == j);
                        }
                    }
                }
            }
            i = i + 1;
        }
        proof {
            lemma_map_dispatch(s0, v@, audience);
            assert forall|m: int| #![trigger out@[m]] 0 <= m < out@.len() implies {
                let id = out@[m].session_id@;
                &&& sessions_map(s0).dom().contains(id)
                &&& sessions_map(s0)[id] == s0[idx[m]]@
            } by {
                assert(0 <= idx[m] < s0.len());
                lemma_map_at(s0, idx[m]);
            }
            assert forall|m: int, n: int| 0 <= m < out@.len() && 0 <= n < out@.len() && m != n
                implies out@[m].session_id@ != out@[n].session_id@ by {
                assert(idx[m] != idx[n]) by {
                    if m < n {
                        assert(idx[m] < idx[n]);
                    } else {
                        assert(idx[n] < idx[m]);
                    }
                }
                assert(0 <= idx[m] < s0.len());
                assert(0 <= idx[n] < s0.len());
            }
            assert forall|k: Seq<char>| sessions_map(s0).dom().contains(k) && in_audience(audience, #[trigger] sessions_map(s0)[k])
                implies exists|m: int| 0 <= m < out@.len() && out@[m].session_id@ == k by {
                let j = index_of_id(s0, k);
                lemma_map_at(s0, j);
                let m = choose|m: int| 0 <= m < idx.len() && idx[m] == j;
                assert(out@[m].session_id@ == k);
            }
        }
        self.sessions = v;
        out
    }

    /// Builds the dispatch of an event to every connection.
    pub fn dispatch_all<T: Clone>(&mut self, event_name: &str, d: &T) -> (deliveries: Vec<Delivery<T>>)
        ensures
            dispatched(old(self)@, final(self)@, Audience::Everyone, event_name@, *d, deliveries@),
    {
        self.dispatch(Audience::Everyone, event_name, d)
    }

    /// Builds the dispatch of an event to the connections identified as
    /// `user_id`.
    pub fn dispatch_user<T: Clone>(&mut self, event_name: &str, d: &T, user_id: &str) -> (deliveries: Vec<Delivery<T>>)
        ensures
            dispatched(old(self)@, final(self)@, Audience::User(user_id), event_name@, *d, deliveries@),
    {
        self.dispatch(Audience::User(user_id), event_name, d)
    }

    /// Builds the dispatch of an event to the connections that receive the
    /// events of guild `guild_id`.
    pub fn dispatch_guild<T: Clone>(&mut self, event_name: &str, d: &T, guild_id: &str) -> (deliveries: Vec<Delivery<T>>)
        ensures
            dispatched(old(self)@, final(self)@, Audience::Guild(guild_id), event_name@, *d, deliveries@),
    {
        self.dispatch(Audience::Guild(guild_id), event_name, d)
    }

    /// The ids of the connections in the audience, each once.
    pub fn audience_ids(&self, audience: Audience) -> (ids: Vec<String>)
        ensures
            distinct_strings(ids@),
            string_set(ids@) == audience_of(self@, audience),
    {
        proof {
            use_type_invariant(self);
        }
        let ghost s0 = self.sessions@;
        let mut ids: Vec<String> = Vec::new();
        let mut i: usize = 0;
        assert(string_set(ids@) =~= Set::<Seq<char>>::empty());
        while i < self.sessions.len()
            invariant
                s0 == self.sessions@,
                unique_ids(s0),
                0 <= i <= s0.len(),
                distinct_strings(ids@),
                string_set(ids@) == Set::new(|k: Seq<char>| exists|j: int| 0 <= j < i && s0[j].id@ == k && in_audience(audience, s0[j]@)),
            decreases s0.len() - i,
        {
            let ghost before = string_set(ids@);
            if session_in_audience(&self.sessions[i], audience) {
                push_unique(&mut ids, self.sessions[i].id.clone());
            }
            proof {
                assert(string_set(ids@) =~= Set::new(|k: Seq<char>| exists|j: int| 0 <= j < i + 1 && s0[j].id@ == k && in_audience(audience, s0[j]@))) by {
                    assert forall|k: Seq<char>| #[trigger] string_set(ids@).contains(k) <==> (exists|j: int| 0 <= j < i + 1 && s0[j].id@ == k && in_audience(audience, s0[j]@)) by {
                        if exists|j: int| 0 <= j < i + 1 && s0[j].id@ == k && in_audience(audience, s0[j]@) {
                            let j = choose|j: int| 0 <= j < i + 1 && s0[j].id@ == k && in_audience(audience, s0[j]@);
                            if j < i {
                                assert(before.contains(k));
                            }
                        }
                    }
                }
            }
            i = i + 1;
        }
        proof {
            assert forall|k: Seq<char>| #[trigger] string_set(ids@).contains(k) <==> audience_of(self@, audience).contains(k) by {
                if string_set(ids@).contains(k) {
                    let j = choose|j: int| 0 <= j < s0.len() && s0[j].id@ == k && in_audience(audience, s0[j]@);
                    lemma_map_at(s0, j);
                }
                if audience_of(self@, audience).contains(k) {
                    let j = index_of_id(s0, k);
                    lemma_map_at(s0, j);
                }
            }
            assert(string_set(ids@) =~= audience_of(self@, audience));
        }
        ids
    }

    /// The users that connections in the audience identified as, each once.
    pub fn identified_users(&self, audience: Audience) -> (users: Vec<String>)
        ensures
            distinct_strings(users@),
            string_set(users@) == users_of(self@, audience),
    {
        proof {
            use_type_invariant(self);
        }
        let ghost s0 = self.sessions@;
        let mut users: Vec<String> = Vec::new();
        let mut i: usize = 0;
        assert(string_set(users@) =~= Set::<Seq<char>>::empty());
        while i < self.sessions.len()
            invariant
                s0 == self.sessions@,
                unique_ids(s0),
                0 <= i <= s0.len(),
                distinct_strings(users@),
                string_set(users@) == Set::new(|u: Seq<char>| exists|j: int| 0 <= j < i && in_audience(audience, s0[j]@) && s0[j]@.user_id == Some(u)),
            decreases s0.len() - i,
        {
            let ghost before = string_set(users@);
            if session_in_audience(&self.sessions[i], audience) {
                match &self.sessions[i].user_id {
                    Some(u) => {
                        push_unique(&mut users, u.clone());
                    },
                    None => {},
                }
            }
            proof {
                assert(string_set(users@) =~= Set::new(|u: Seq<char>| exists|j: int| 0 <= j < i + 1 && in_audience(audience, s0[j]@) && s0[j]@.user_id == Some(u))) by {
                    assert forall|u: Seq<char>| #[trigger] string_set(users@).contains(u) <==> (exists|j: int| 0 <= j < i + 1 && in_audience(audience, s0[j]@) && s0[j]@.user_id == Some(u)) by {
                        if exists|j: int| 0 <= j < i + 1 && in_audience(audience, s0[j]@) && s0[j]@.user_id == Some(u) {
                            let j = choose|j: int| 0 <= j < i + 1 && in_audience(audience, s0[j]@) && s0[j]@.user_id == Some(u);
                            if j < i {
                                assert(before.contains(u));
                            }
                        }
                    }
                }
            }
            i = i + 1;
        }
        proof {
            assert forall|u: Seq<char>| #[trigger] string_set(users@).contains(u) <==> users_of(self@, audience).contains(u) by {
                if string_set(users@).contains(u) {
                    let j = choose|j: int| 0 <= j < s0.len() && in_audience(audience, s0[j]@) && s0[j]@.user_id == Some(u);
                    lemma_map_at(s0, j);
                    assert(self@.dom().contains(s0[j].id@));
                }
                if users_of(self@, audience).contains(u) {
                    let k = choose|k: Seq<char>| self@.dom().contains(k) && in_audience(audience, self@[k]) && self@[k].user_id == Some(u);
                    let j = index_of_id(s0, k);
                    lemma_map_at(s0, j);
                }
            }
            assert(string_set(users@) =~= users_of(self@, audience));
        }
        users
    }

    /// Where a presence change of `user_id`, who receives the events of
    /// `guild_ids`, is announced: each connection identified as another user,
    /// once for each of those guilds whose events it receives.
    pub fn presence_targets(&self, user_id: &str, guild_ids: &Vec<String>) -> (pairs: Vec<(String, String)>)
        ensures
            distinct_pairs(pairs@),
            pair_set(pairs@) == presence_pairs(self@, user_id@, string_set(guild_ids@)),
    {
        proof {
            use_type_invariant(self);
        }
        let ghost s0 = self.sessions@;
        let ghost gs = string_set(guild_ids@);
        let mut pairs: Vec<(String, String)> = Vec::new();
        assert(pair_set(pairs@) =~= Set::<(Seq<char>, Seq<char>)>::empty());
        let mut i: usize = 0;
        while i < self.sessions.len()
            invariant
                s0 == self.sessions@,
                gs == string_set(guild_ids@),
                unique_ids(s0),
                0 <= i <= s0.len(),
                distinct_pairs(pairs@),
                pair_set(pairs@) == Set::new(|p: (Seq<char>, Seq<char>)| exists|j: int| 0 <= j < i && s0[j].id@ == p.0
                    && (s0[j]@.user_id matches Some(u) && u != user_id@) && gs.contains(p.1) && s0[j]@.guilds.contains(p.1)),
            decreases s0.len() - i,
        {
            let ghost before = pair_set(pairs@);
            let eligible = match &self.sessions[i].user_id {
                Some(peer) => !str_equal(peer.as_str(), user_id),
                None => false,
            };
            let mut l: usize = 0;
            while l < guild_ids.len()
                invariant
                    s0 == self.sessions@,
                    gs == string_set(guild_ids@),
                    0 <= i < s0.len(),
                    0 <= l <= guild_ids@.len(),
                    eligible == (s0[i as int]@.user_id matches Some(u) && u != user_id@),
                    distinct_pairs(pairs@),
                    pair_set(pairs@) == before.union(Set::new(|p: (Seq<char>, Seq<char>)| eligible && p.0 == s0[i as int].id@
                        && (exists|q: int| 0 <= q < l && guild_ids@[q]@ == p.1) && s0[i as int]@.guilds.contains(p.1))),
                decreases guild_ids@.len() - l,
            {
                let ghost mid = pair_set(pairs@);
                if eligible && self.sessions[i].in_guild(guild_ids[l].as_str()) {
                    push_unique_pair(&mut pairs, self.sessions[i].id.clone(), guild_ids[l].clone());
                }
                proof {
                    assert(pair_set(pairs@) =~= before.union(Set::new(|p: (Seq<char>, Seq<char>)| eligible && p.0 == s0[i as int].id@
                        && (exists|q: int| 0 <= q < l + 1 && guild_ids@[q]@ == p.1) && s0[i as int]@.guilds.contains(p.1)))) by {
                        assert forall|p: (Seq<char>, Seq<char>)| #[trigger] pair_set(pairs@).contains(p) ==
                            before.union(Set::new(|p: (Seq<char>, Seq<char>)| eligible && p.0 == s0[i as int].id@
                            && (exists|q: int| 0 <= q < l + 1 && guild_ids@[q]@ == p.1) && s0[i as int]@.guilds.contains(p.1))).contains(p) by {
                            if exists|q: int| 0 <= q < l + 1 && guild_ids@[q]@ == p.1 {
                                let q = choose|q: int| 0 <= q < l + 1 && guild_ids@[q]@ == p.1;
                                if q < l {
                                    assert(exists|q: int| 0 <= q < l && guild_ids@[q]@ == p.1);
                                }
                            }
                            if exists|q: int| 0 <= q < l && guild_ids@[q]@ == p.1 {
                                let q = choose|q: int| 0 <= q < l && guild_ids@[q]@ == p.1;
                                assert(exists|q: int| 0 <= q < l + 1 && guild_ids@[q]@ == p.1);
                            }
                        }
                    }
                }
                l = l + 1;
            }
            proof {
                assert(pair_set(pairs@) =~= Set::new(|p: (Seq<char>, Seq<char>)| exists|j: int| 0 <= j < i + 1 && s0[j].id@ == p.0
                    && (s0[j]@.user_id matches Some(u) && u != user_id@) && gs.contains(p.1) && s0[j]@.guilds.contains(p.1))) by {
                    assert forall|p: (Seq<char>, Seq<char>)| #[trigger] pair_set(pairs@).contains(p) <==> (exists|j: int| 0 <= j < i + 1 && s0[j].id@ == p.0
                        && (s0[j]@.user_id matches Some(u) && u != user_id@) && gs.contains(p.1) && s0[j]@.guilds.contains(p.1)) by {
                        if exists|j: int| 0 <= j < i + 1 && s0[j].id@ == p.0
                            && (s0[j]@.user_id matches Some(u) && u != user_id@) && gs.contains(p.1) && s0[j]@.guilds.contains(p.1) {
                            let j = choose|j: int| 0 <= j < i + 1 && s0[j].id@ == p.0
                                && (s0[j]@.user_id matches Some(u) && u != user_id@) && gs.contains(p.1) && s0[j]@.guilds.contains(p.1);
                            if j < i {
                                assert(before.contains(p));
                            } else {
                                let q = choose|q: int| 0 <= q < guild_ids@.len() && guild_ids@[q]@ == p.1;
                                assert(exists|q: int| 0 <= q < guild_ids@.len() && guild_ids@[q]@ == p.1);
                            }
                        }
                        if pair_set(pairs@).contains(p) && !before.contains(p) {
                            let q = choose|q: int| 0 <= q < guild_ids@.len() && guild_ids@[q]@ == p.1;
                            assert(gs.contains(p.1));
                            assert(s0[i as int].id@ == p.0);
                        }
                    }
                }
            }
            i = i + 1;
        }
        proof {
            assert forall|p: (Seq<char>, Seq<char>)| #[trigger] pair_set(pairs@).contains(p) <==> presence_pairs(self@, user_id@, gs).contains(p) by {
                if pair_set(pairs@).contains(p) {
                    let j = choose|j: int| 0 <= j < s0.len() && s0[j].id@ == p.0
                        && (s0[j]@.user_id matches Some(u) && u != user_id@) && gs.contains(p.1) && s0[j]@.guilds.contains(p.1);
                    lemma_map_at(s0, j);
                }
                if presence_pairs(self@, user_id@, gs).contains(p) {
                    let j = index_of_id(s0, p.0);
                    lemma_map_at(s0, j);
                }
            }
            assert(pair_set(pairs@) =~= presence_pairs(self@, user_id@, gs));
        }
        pairs
    }
}

} // verus!
