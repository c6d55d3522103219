//! The selection rules of the stores of other servers and of other servers'
//! `times`. The stores themselves are tables of a persistent key-value
//! database; a query reads a table (its records in key order) and the rules
//! here decide what the query answers and which key a write touches.

use vstd::prelude::*;
use crate::decimal::{lemma_decimal_digits, lemma_decimal_injective, is_digit, push_decimal, spec_decimal};
use crate::other_server::{OtherServer, OtherTimes};

verus! {

/// The table that holds other servers, keyed by server name.
pub const OTHER_SERVER_TABLE: &'static str = "OtherServerDataTable";

/// The table that holds other servers' `times`, keyed by [`other_times_key`].
pub const OTHER_TIMES_TABLE: &'static str = "OtherTimesDataTable";

/// A store of other servers, keyed by server name. Its implementations keep
/// the table in a database; lookups by guild id answer
/// [`select_by_guild_id`] of the table.
pub trait OtherServerRepository {
    type Error;

    /// Writes `other_server` under its name, replacing what that name held.
    fn upsert(&self, other_server: OtherServer) -> Result<OtherServer, Self::Error>;

    /// The server stored under `server_name`.
    fn get(&self, server_name: &str) -> Result<Option<OtherServer>, Self::Error>;

    /// Every stored server, in key order.
    fn get_all(&self) -> Result<Vec<OtherServer>, Self::Error>;

    /// The first stored server, in key order, with `guild_id`.
    fn get_from_guild_id(&self, guild_id: u64) -> Result<Option<OtherServer>, Self::Error>;

    /// Removes the server stored under `server_name` and answers it.
    fn delete(&self, server_name: &str) -> Result<OtherServer, Self::Error>;
}

/// A store of other servers' `times`, keyed by [`other_times_key`]. Its
/// implementations keep the table in a database; their answers are those of
/// [`select_other_times`], [`times_data`], [`times_of_member`] and
/// [`plan_other_times_delete`] on the table.
pub trait OtherTimesRepository {
    type Error;

    /// Writes `other_times` under the key of its member and guild.
    fn upsert(&self, other_times: OtherTimes) -> Result<OtherTimes, Self::Error>;

    /// The first stored `times` of `member_id` on the server `server_name`.
    fn get(&self, server_name: &str, member_id: u64) -> Result<Option<OtherTimes>, Self::Error>;

    /// Every stored `times`, in key order.
    fn get_all(&self) -> Result<Vec<OtherTimes>, Self::Error>;

    /// Every stored `times` of `member_id`, in key order.
    fn get_from_member_id(&self, member_id: u64) -> Result<Vec<OtherTimes>, Self::Error>;

    /// Removes the first stored `times` of `member_id` on `server_name`, if
    /// any, and answers it.
    fn delete(&self, server_name: &str, member_id: u64) -> Result<Option<OtherTimes>, Self::Error>;
}

/// What the store of other servers refuses.
#[derive(Debug, Clone, PartialEq, Eq)]
pub enum OtherServerRepositoryError {
    /// No server is stored under this name.
    NotFound(String),
}

/// What deleting the server stored under `server_name` answers, given what
/// that name held before the delete: that server, or the error that there was
/// none.
pub fn other_server_from_delete(read: Option<OtherServer>, server_name: &str) -> (r: Result<OtherServer, OtherServerRepositoryError>)
    ensures
        match read {
            Some(s) => r == Ok::<OtherServer, OtherServerRepositoryError>(s),
            None => r matches Err(OtherServerRepositoryError::NotFound(n)) && n@ == server_name@,
        },
{
    match read {
        Some(s) => Ok(s),
        None => Err(OtherServerRepositoryError::NotFound(server_name.to_owned())),
    }
}

/// The key under which another server is stored: its name.
pub fn other_server_key(other_server: &OtherServer) -> (r: String)
    ensures
        r == other_server.server_name,
{
    other_server.server_name.clone()
}

/// The servers of `all`, in order, whose guild id is `guild_id`.
pub open spec fn spec_servers_with_guild(all: Seq<OtherServer>, guild_id: u64) -> Seq<OtherServer>
    decreases all.len(),
{
    if all.len() == 0 {
        Seq::empty()
    } else {
        let rest = spec_servers_with_guild(all.drop_last(), guild_id);
        if all.last().guild_id == guild_id {
            rest.push(all.last())
        } else {
            rest
        }
    }
}

/// The first element of a sequence, if there is one.
pub open spec fn spec_first<T>(s: Seq<T>) -> Option<T> {
    if s.len() == 0 {
        None
    } else {
        Some(s[0])
    }
}

/// The server that a lookup by guild id answers: the first, in table order,
/// with that guild id.
pub fn select_by_guild_id(all: &Vec<OtherServer>, guild_id: u64) -> (r: Option<OtherServer>)
    ensures
        r == spec_first(spec_servers_with_guild(all@, guild_id)),
{
    let mut found: Vec<OtherServer> = Vec::new();
    let mut i: usize = 0;
    assert(all@.take(0) =~= Seq::<OtherServer>::empty());
    while i < all.len()
        invariant
            i <= all.len(),
            found@ == spec_servers_with_guild(all@.take(i as int), guild_id),
        decreases all.len() - i,
    {
        assert(all@.take(i + 1).drop_last() =~= all@.take(i as int));
        if all[i].guild_id == guild_id {
            found.push(all[i].duplicate());
        }
        i = i + 1;
    }
    assert(all@.take(all.len() as int) =~= all@);
    if found.len() == 0 {
        None
    } else {
        Some(found.remove(0))
    }
}

/// Every server that `select_by_guild_id` can answer is in the table with the
/// asked guild id, and it answers nothing only when no server has that id.
pub proof fn lemma_servers_with_guild(all: Seq<OtherServer>, guild_id: u64)
    ensures
        forall|j: int| #![trigger spec_servers_with_guild(all, guild_id)[j]]
            0 <= j < spec_servers_with_guild(all, guild_id).len() ==>
            spec_servers_with_guild(all, guild_id)[j].guild_id == guild_id
            && all.contains(spec_servers_with_guild(all, guild_id)[j]),
        spec_servers_with_guild(all, guild_id).len() == 0 <==> (forall|i: int| 0 <= i < all.len() ==> #[trigger] all[i].guild_id != guild_id),
    decreases all.len(),
{
    if all.len() > 0 {
        lemma_servers_with_guild(all.drop_last(), guild_id);
        let rest = spec_servers_with_guild(all.drop_last(), guild_id);
        assert forall|j: int| #![trigger spec_servers_with_guild(all, guild_id)[j]]
            0 <= j < spec_servers_with_guild(all, guild_id).len() implies
            spec_servers_with_guild(all, guild_id)[j].guild_id == guild_id
            && all.contains(spec_servers_with_guild(all, guild_id)[j]) by {
            if j < rest.len() {
                assert(spec_servers_with_guild(all, guild_id)[j] == rest[j]);
                assert(all.drop_last().contains(rest[j]));
                let k = choose|k: int| 0 <= k < all.drop_last().len() && all.drop_last()[k] == rest[j];
                assert(all[k] == rest[j]);
            } else {
                assert(all[all.len() - 1] == all.last());
            }
        }
        if all.last().guild_id != guild_id {
            assert forall|i: int| 0 <= i < all.len() && rest.len() == 0 implies #[trigger] all[i].guild_id != guild_id by {
                if i < all.len() - 1 {
                    assert(all.drop_last()[i] == all[i]);
                }
            }
        }
    }
}

/// A stored `times` of another server together with its key.
#[derive(Debug, Clone, PartialEq, Eq)]
pub struct OtherTimesKv {
    pub other_times_data: OtherTimes,
    pub key: String,
}

/// The key of a member's `times` on another server: the member id and the
/// guild id in decimal, joined by `_`.
pub open spec fn spec_other_times_key(member_id: u64, guild_id: u64) -> Seq<char> {
    spec_decimal(member_id as nat) + seq!['_'] + spec_decimal(guild_id as nat)
}

/// The key of a member's `times` on another server.
pub fn other_times_key(member_id: u64, guild_id: u64) -> (r: String)
    ensures
        r@ == spec_other_times_key(member_id, guild_id),
{
    let mut s = String::new();
    push_decimal(&mut s, member_id);
    proof {
        reveal_strlit("_");
    }
    s.append("_");
    push_decimal(&mut s, guild_id);
    assert(s@ =~= spec_other_times_key(member_id, guild_id));
    s
}

/// Two `times` get the same key exactly when they belong to the same member
/// and the same guild: a key is never shared by records of different members
/// or guilds.
pub proof fn lemma_other_times_key_injective(m1: u64, g1: u64, m2: u64, g2: u64)
    ensures
        spec_other_times_key(m1, g1) == spec_other_times_key(m2, g2) <==> (m1 == m2 && g1 == g2),
{
    let d1 = spec_decimal(m1 as nat);
    let d2 = spec_decimal(m2 as nat);
    let k1 = spec_other_times_key(m1, g1);
    let k2 = spec_other_times_key(m2, g2);
    lemma_decimal_digits(m1 as nat);
    lemma_decimal_digits(m2 as nat);
    lemma_decimal_digits(g1 as nat);
    lemma_decimal_digits(g2 as nat);
    if k1 == k2 {
        if d1.len() < d2.len() {
            assert(k1[d1.len() as int] == '_');
            assert(k2[d1.len() as int] == d2[d1.len() as int]);
            assert(is_digit(d2[d1.len() as int]));
        }
        if d2.len() < d1.len() {
            assert(k2[d2.len() as int] == '_');
            assert(k1[d2.len() as int] == d1[d2.len() as int]);
            assert(is_digit(d1[d2.len() as int]));
        }
        assert(d1.len() == d2.len());
        assert(d1 =~= k1.take(d1.len() as int));
        assert(d2 =~= k2.take(d2.len() as int));
        lemma_decimal_injective(m1, m2);
        assert(spec_decimal(g1 as nat) =~= k1.skip(d1.len() as int + 1));
        assert(spec_decimal(g2 as nat) =~= k2.skip(d2.len() as int + 1));
        lemma_decimal_injective(g1, g2);
    }
}

impl OtherTimesKv {
    /// The record that stores `other_times_data`, under the key of its member
    /// and guild.
    pub fn from_other_times(other_times_data: OtherTimes) -> (r: Self)
        ensures
            r.other_times_data == other_times_data,
            r.key@ == spec_other_times_key(other_times_data.src_member_id, other_times_data.dst_guild_id),
    {
        let key = other_times_key(other_times_data.src_member_id, other_times_data.dst_guild_id);
        Self { other_times_data, key }
    }
}

/// Whether a `times` belongs to `member_id` on the server named `server_name`.
pub open spec fn times_matches(t: OtherTimes, server_name: Seq<char>, member_id: u64) -> bool {
    t.src_member_id == member_id && t.dst_server_name@ == server_name
}

/// The `times` of `all`, in order, of `member_id` on the server named `server_name`.
pub open spec fn spec_times_matching(all: Seq<OtherTimesKv>, server_name: Seq<char>, member_id: u64) -> Seq<OtherTimes>
    decreases all.len(),
{
    if all.len() == 0 {
        Seq::empty()
    } else {
        let rest = spec_times_matching(all.drop_last(), server_name, member_id);
        if times_matches(all.last().other_times_data, server_name, member_id) {
            rest.push(all.last().other_times_data)
        } else {
            rest
        }
    }
}


/// Every `times` a lookup can answer is stored in the table and belongs to the
/// asked member on the asked server; the lookup answers nothing only when no
/// stored `times` matches.
pub proof fn lemma_times_matching(all: Seq<OtherTimesKv>, server_name: Seq<char>, member_id: u64)
    ensures
        forall|j: int| #![trigger spec_times_matching(all, server_name, member_id)[j]]
            0 <= j < spec_times_matching(all, server_name, member_id).len() ==>
            times_matches(spec_times_matching(all, server_name, member_id)[j], server_name, member_id)
            && exists|i: int| 0 <= i < all.len() && all[i].other_times_data == spec_times_matching(all, server_name, member_id)[j],
        spec_times_matching(all, server_name, member_id).len() == 0 <==> (forall|i: int| 0 <= i < all.len() ==> !times_matches(#[trigger] all[i].other_times_data, server_name, member_id)),
    decreases all.len(),
{
    if all.len() > 0 {
        lemma_times_matching(all.drop_last(), server_name, member_id);
        let rest = spec_times_matching(all.drop_last(), server_name, member_id);
        let found = spec_times_matching(all, server_name, member_id);
        assert forall|j: int| #![trigger found[j]] 0 <= j < found.len() implies
            times_matches(found[j], server_name, member_id)
            && exists|i: int| 0 <= i < all.len() && all[i].other_times_data == found[j] by {
            if j < rest.len() {
                assert(found[j] == rest[j]);
                let i = choose|i: int| 0 <= i < all.drop_last().len() && all.drop_last()[i].other_times_data == rest[j];
                assert(all[i] == all.drop_last()[i]);
            } else {
                assert(all[all.len() - 1] == all.last());
            }
        }
        if !times_matches(all.last().other_times_data, server_name, member_id) {
            assert forall|i: int| 0 <= i < all.len() && rest.len() == 0 implies !times_matches(#[trigger] all[i].other_times_data, server_name, member_id) by {
                if i < all.len() - 1 {
                    assert(all.drop_last()[i] == all[i]);
                }
            }
        }
    }
}

/// A write followed by a read gives back what was written: when the table
/// holds `t` and no other `times` of the same member on the same server, the
/// lookup of that member on that server answers `t`. Writing `t` stores it
/// under the key of its member and guild, replacing what that key held, so
/// the write leaves the table in this state unless another guild's `times`
/// of that member carries the same server name.
pub proof fn law_lookup_after_write(all: Seq<OtherTimesKv>, t: OtherTimes)
    requires
        exists|i: int| 0 <= i < all.len() && #[trigger] all[i].other_times_data == t,
        forall|i: int| 0 <= i < all.len() && times_matches(#[trigger] all[i].other_times_data, t.dst_server_name@, t.src_member_id)
            ==> all[i].other_times_data == t,
    ensures
        spec_first(spec_times_matching(all, t.dst_server_name@, t.src_member_id)) == Some(t),
{
    lemma_times_matching(all, t.dst_server_name@, t.src_member_id);
    let found = spec_times_matching(all, t.dst_server_name@, t.src_member_id);
    let i0 = choose|i: int| 0 <= i < all.len() && #[trigger] all[i].other_times_data == t;
    assert(times_matches(all[i0].other_times_data, t.dst_server_name@, t.src_member_id));
    assert(found.len() > 0);
    assert(times_matches(found[0], t.dst_server_name@, t.src_member_id));
    let i1 = choose|i: int| 0 <= i < all.len() && all[i].other_times_data == found[0];
    assert(all[i1].other_times_data == found[0]);
}

/// The `times` of `all`, in order, of `member_id`.
pub open spec fn spec_times_of_member(all: Seq<OtherTimesKv>, member_id: u64) -> Seq<OtherTimes>
    decreases all.len(),
{
    if all.len() == 0 {
        Seq::empty()
    } else {
        let rest = spec_times_of_member(all.drop_last(), member_id);
        if all.last().other_times_data.src_member_id == member_id {
            rest.push(all.last().other_times_data)
        } else {
            rest
        }
    }
}

/// The `times` of all records, in order.
pub open spec fn spec_times_data(all: Seq<OtherTimesKv>) -> Seq<OtherTimes> {
    Seq::new(all.len(), |i: int| all[i].other_times_data)
}

fn str_equals(a: &String, b: &str) -> (r: bool)
    ensures
        r == (a@ == b@),
{
    let b_owned = b.to_owned();
    *a == b_owned
}

/// The `times` of `member_id` on the server named `server_name`, in table order.
pub fn times_matching(all: &Vec<OtherTimesKv>, server_name: &str, member_id: u64) -> (r: Vec<OtherTimes>)
    ensures
        r@ == spec_times_matching(all@, server_name@, member_id),
{
    let mut found: Vec<OtherTimes> = Vec::new();
    let mut i: usize = 0;
    assert(all@.take(0) =~= Seq::<OtherTimesKv>::empty());
    while i < all.len()
        invariant
            i <= all.len(),
            found@ == spec_times_matching(all@.take(i as int), server_name@, member_id),
        decreases all.len() - i,
    {
        assert(all@.take(i + 1).drop_last() =~= all@.take(i as int));
        let t = &all[i].other_times_data;
        if t.src_member_id == member_id && str_equals(&t.dst_server_name, server_name) {
            found.push(t.duplicate());
        }
        i = i + 1;
    }
    assert(all@.take(all.len() as int) =~= all@);
    found
}

/// The `times` of `member_id`, in table order.
pub fn times_of_member(all: &Vec<OtherTimesKv>, member_id: u64) -> (r: Vec<OtherTimes>)
    ensures
        r@ == spec_times_of_member(all@, member_id),
{
    let mut found: Vec<OtherTimes> = Vec::new();
    let mut i: usize = 0;
    assert(all@.take(0) =~= Seq::<OtherTimesKv>::empty());
    while i < all.len()
        invariant
            i <= all.len(),
            found@ == spec_times_of_member(all@.take(i as int), member_id),
        decreases all.len() - i,
    {
        assert(all@.take(i + 1).drop_last() =~= all@.take(i as int));
        if all[i].other_times_data.src_member_id == member_id {
            found.push(all[i].other_times_data.duplicate());
        }
        i = i + 1;
    }
    assert(all@.take(all.len() as int) =~= all@);
    found
}

/// The `times` of all records, in table order.
pub fn times_data(all: &Vec<OtherTimesKv>) -> (r: Vec<OtherTimes>)
    ensures
        r@ == spec_times_data(all@),
{
    let mut out: Vec<OtherTimes> = Vec::new();
    let mut i: usize = 0;
    while i < all.len()
        invariant
            i <= all.len(),
            out@ =~= spec_times_data(all@.take(i as int)),
        decreases all.len() - i,
    {
        out.push(all[i].other_times_data.duplicate());
        i = i + 1;
        assert(out@ =~= spec_times_data(all@.take(i as int)));
    }
    assert(all@.take(all.len() as int) =~= all@);
    out
}

/// What a lookup of `member_id`'s `times` on `server_name` answers: the first
/// match in table order.
pub fn select_other_times(all: &Vec<OtherTimesKv>, server_name: &str, member_id: u64) -> (r: Option<OtherTimes>)
    ensures
        r == spec_first(spec_times_matching(all@, server_name@, member_id)),
{
    let mut found = times_matching(all, server_name, member_id);
    if found.len() == 0 {
        None
    } else {
        Some(found.remove(0))
    }
}

/// What deleting `member_id`'s `times` on `server_name` does: nothing when
/// there is no match; otherwise the first match is removed, under the key of
/// its member and guild, and answered.
pub fn plan_other_times_delete(all: &Vec<OtherTimesKv>, server_name: &str, member_id: u64) -> (r: Option<OtherTimesKv>)
    ensures
        match spec_first(spec_times_matching(all@, server_name@, member_id)) {
            None => r is None,
            Some(t) => r matches Some(kv) && kv.other_times_data == t
                && kv.key@ == spec_other_times_key(t.src_member_id, t.dst_guild_id),
        },
{
    match select_other_times(all, server_name, member_id) {
        None => None,
        Some(t) => Some(OtherTimesKv::from_other_times(t)),
    }
}

/// The records of a table written through [`OtherTimesKv::from_other_times`]:
/// each is stored under the key of its member and guild.
pub open spec fn keys_follow_records(all: Seq<OtherTimesKv>) -> bool {
    forall|i: int| 0 <= i < all.len() ==> (#[trigger] all[i]).key@
        == spec_other_times_key(all[i].other_times_data.src_member_id, all[i].other_times_data.dst_guild_id)
}

/// Deleting spares every other record: the key a delete removes is held by no
/// stored `times` of another member or another guild.
pub proof fn law_delete_spares_other_records(all: Seq<OtherTimesKv>, server_name: Seq<char>, member_id: u64, removed: OtherTimesKv, j: int)
    requires
        keys_follow_records(all),
        spec_first(spec_times_matching(all, server_name, member_id)) == Some(removed.other_times_data),
        removed.key@ == spec_other_times_key(removed.other_times_data.src_member_id, removed.other_times_data.dst_guild_id),
        0 <= j < all.len(),
        all[j].other_times_data.src_member_id != removed.other_times_data.src_member_id
            || all[j].other_times_data.dst_guild_id != removed.other_times_data.dst_guild_id,
    ensures
        all[j].key@ != removed.key@,
{
    lemma_other_times_key_injective(
        all[j].other_times_data.src_member_id,
        all[j].other_times_data.dst_guild_id,
        removed.other_times_data.src_member_id,
        removed.other_times_data.dst_guild_id,
    );
}

/// A table of other servers, as the key-value store holds it: each server
/// under its name.
pub open spec fn spec_server_table_keys_follow(m: Map<Seq<char>, OtherServer>) -> bool {
    forall|k: Seq<char>| #[trigger] m.dom().contains(k) ==> k == m[k].server_name@
}

/// The table after writing `x`, as an upsert does: under its name.
pub open spec fn spec_server_table_upsert(m: Map<Seq<char>, OtherServer>, x: OtherServer) -> Map<Seq<char>, OtherServer> {
    m.insert(x.server_name@, x)
}

/// Writing a server keeps one record per name: a read by its name then gives
/// it, every server of another name stays, and nothing else is in the table.
pub proof fn law_server_upsert_replaces_same_name(m: Map<Seq<char>, OtherServer>, x: OtherServer)
    requires
        spec_server_table_keys_follow(m),
    ensures
        spec_server_table_keys_follow(spec_server_table_upsert(m, x)),
        spec_server_table_upsert(m, x).dom().contains(x.server_name@),
        spec_server_table_upsert(m, x)[x.server_name@] == x,
        forall|k: Seq<char>| #[trigger] m.dom().contains(k) && m[k].server_name@ != x.server_name@
            ==> spec_server_table_upsert(m, x).dom().contains(k) && spec_server_table_upsert(m, x)[k] == m[k],
        forall|k: Seq<char>| #[trigger] spec_server_table_upsert(m, x).dom().contains(k)
            ==> spec_server_table_upsert(m, x)[k] == x
                || (m.dom().contains(k) && spec_server_table_upsert(m, x)[k] == m[k] && m[k].server_name@ != x.server_name@),
{
}

/// Deleting the server named `name` removes it and only it: a read by that
/// name then finds nothing, and every other server stays.
pub proof fn law_server_delete_leaves_the_rest(m: Map<Seq<char>, OtherServer>, name: Seq<char>)
    requires
        spec_server_table_keys_follow(m),
    ensures
        !m.remove(name).dom().contains(name),
        forall|k: Seq<char>| #[trigger] m.dom().contains(k) && m[k].server_name@ != name
            ==> m.remove(name).dom().contains(k) && m.remove(name)[k] == m[k],
        forall|k: Seq<char>| #[trigger] m.remove(name).dom().contains(k)
            ==> m.remove(name)[k] == m[k] && m[k].server_name@ != name,
{
}

/// A lookup by guild id looks through exactly the servers with that guild
/// id, in table order: the table filtered by guild id.
pub proof fn law_guild_lookup_filters_all(all: Seq<OtherServer>, guild_id: u64)
    ensures
        spec_servers_with_guild(all, guild_id) == all.filter(|s: OtherServer| s.guild_id == guild_id),
    decreases all.len(),
{
    reveal(Seq::filter);
    if all.len() > 0 {
        law_guild_lookup_filters_all(all.drop_last(), guild_id);
    }
}

/// A lookup of a member's `times` on a server looks through exactly the
/// stored `times` of that member on that server, in table order.
pub proof fn law_times_lookup_filters_all(all: Seq<OtherTimesKv>, server_name: Seq<char>, member_id: u64)
    ensures
        spec_times_matching(all, server_name, member_id)
            == spec_times_data(all).filter(|t: OtherTimes| times_matches(t, server_name, member_id)),
    decreases all.len(),
{
    reveal(Seq::filter);
    if all.len() > 0 {
        law_times_lookup_filters_all(all.drop_last(), server_name, member_id);
        assert(spec_times_data(all).drop_last() =~= spec_times_data(all.drop_last()));
    }
}

/// A lookup by member answers every stored `times` of that member, in table
/// order, and nothing else: the table's `times` filtered by member.
pub proof fn law_member_lookup_filters_all(all: Seq<OtherTimesKv>, member_id: u64)
    ensures
        spec_times_of_member(all, member_id)
            == spec_times_data(all).filter(|t: OtherTimes| t.src_member_id == member_id),
    decreases all.len(),
{
    reveal(Seq::filter);
    if all.len() > 0 {
        law_member_lookup_filters_all(all.drop_last(), member_id);
        assert(spec_times_data(all).drop_last() =~= spec_times_data(all.drop_last()));
    }
}

/// A table of other servers' `times`, as the key-value store holds it: each
/// record under its key.
pub open spec fn spec_table_keys_follow(m: Map<Seq<char>, OtherTimes>) -> bool {
    forall|k: Seq<char>| #[trigger] m.dom().contains(k)
        ==> k == spec_other_times_key(m[k].src_member_id, m[k].dst_guild_id)
}

/// Whether two `times` belong to the same member and the same guild.
pub open spec fn same_member_and_guild(a: OtherTimes, b: OtherTimes) -> bool {
    a.src_member_id == b.src_member_id && a.dst_guild_id == b.dst_guild_id
}

/// The table after writing `x`, as an upsert does: under the key of its
/// member and guild.
pub open spec fn spec_table_upsert(m: Map<Seq<char>, OtherTimes>, x: OtherTimes) -> Map<Seq<char>, OtherTimes> {
    m.insert(spec_other_times_key(x.src_member_id, x.dst_guild_id), x)
}

/// Writing a `times` keeps at most one record per member and guild: the new
/// record replaces the one of its member and guild, every record of another
/// member or guild stays, and nothing else is in the table.
pub proof fn law_upsert_replaces_same_member_and_guild(m: Map<Seq<char>, OtherTimes>, x: OtherTimes)
    requires
        spec_table_keys_follow(m),
    ensures
        spec_table_keys_follow(spec_table_upsert(m, x)),
        spec_table_upsert(m, x)[spec_other_times_key(x.src_member_id, x.dst_guild_id)] == x,
        forall|k: Seq<char>| #[trigger] m.dom().contains(k) && !same_member_and_guild(m[k], x)
            ==> spec_table_upsert(m, x).dom().contains(k) && spec_table_upsert(m, x)[k] == m[k],
        forall|k: Seq<char>| #[trigger] spec_table_upsert(m, x).dom().contains(k)
            ==> spec_table_upsert(m, x)[k] == x
                || (m.dom().contains(k) && spec_table_upsert(m, x)[k] == m[k] && !same_member_and_guild(m[k], x)),
{
    let kx = spec_other_times_key(x.src_member_id, x.dst_guild_id);
    let m2 = spec_table_upsert(m, x);
    assert forall|k: Seq<char>| #[trigger] m.dom().contains(k) && !same_member_and_guild(m[k], x)
        implies m2.dom().contains(k) && m2[k] == m[k] by {
        lemma_other_times_key_injective(m[k].src_member_id, m[k].dst_guild_id, x.src_member_id, x.dst_guild_id);
    }
    assert forall|k: Seq<char>| #[trigger] m2.dom().contains(k)
        implies m2[k] == x || (m.dom().contains(k) && m2[k] == m[k] && !same_member_and_guild(m[k], x)) by {
        if k != kx && same_member_and_guild(m[k], x) {
            assert(m.dom().contains(k));
        }
    }
}

/// Deleting the `times` `x` of a member on a server, under the key of its
/// member and guild: when `x` was the only stored `times` of that member on
/// that server, none is left afterwards, and every record of another member
/// or guild stays, with nothing else in the table.
pub proof fn law_delete_leaves_the_rest(m: Map<Seq<char>, OtherTimes>, x: OtherTimes)
    requires
        spec_table_keys_follow(m),
        forall|k: Seq<char>| #[trigger] m.dom().contains(k)
            && times_matches(m[k], x.dst_server_name@, x.src_member_id) ==> m[k] == x,
    ensures
        forall|k: Seq<char>| #[trigger] m.remove(spec_other_times_key(x.src_member_id, x.dst_guild_id)).dom().contains(k)
            ==> !times_matches(m[k], x.dst_server_name@, x.src_member_id),
        forall|k: Seq<char>| #[trigger] m.dom().contains(k) && !same_member_and_guild(m[k], x)
            ==> m.remove(spec_other_times_key(x.src_member_id, x.dst_guild_id)).dom().contains(k),
        forall|k: Seq<char>| #[trigger] m.remove(spec_other_times_key(x.src_member_id, x.dst_guild_id)).dom().contains(k)
            ==> m.remove(spec_other_times_key(x.src_member_id, x.dst_guild_id))[k] == m[k]
                && !same_member_and_guild(m[k], x),
{
    let kx = spec_other_times_key(x.src_member_id, x.dst_guild_id);
    let m2 = m.remove(kx);
    assert forall|k: Seq<char>| #[trigger] m2.dom().contains(k)
        implies !times_matches(m[k], x.dst_server_name@, x.src_member_id) by {
        if times_matches(m[k], x.dst_server_name@, x.src_member_id) {
            assert(m[k] == x);
        }
    }
    assert forall|k: Seq<char>| #[trigger] m.dom().contains(k) && !same_member_and_guild(m[k], x)
        implies m2.dom().contains(k) by {
        lemma_other_times_key_injective(m[k].src_member_id, m[k].dst_guild_id, x.src_member_id, x.dst_guild_id);
    }
    assert forall|k: Seq<char>| #[trigger] m2.dom().contains(k)
        implies m2[k] == m[k] && !same_member_and_guild(m[k], x) by {
        assert(m.dom().contains(k));
    }
}

} // verus!
