//! The selection rules of the stores of this server's own data: the single
//! record of the server itself, and the members' `times`, keyed by member id.

use vstd::prelude::*;
use crate::decimal::{push_decimal, spec_decimal};
use crate::own_server::{OwnServer, OwnTimes};

verus! {

/// The table that holds the server's own record.
pub const OWN_SERVER_TABLE: &'static str = "OwnServerDataTable";

/// The one key of the server's own record, whatever key a caller names.
pub const OWN_SERVER_KEY: &'static str = "OwnServer";

/// The table that holds the members' `times` on this server.
pub const OWN_TIMES_TABLE: &'static str = "OwnTimesDataTable";

/// What the store of the server's own record refuses.
#[derive(Debug, Clone, PartialEq, Eq)]
pub enum OwnServerRepositoryError {
    /// No record is stored yet; it has to be written first.
    NotRegistered,
    /// A delete found no record to delete.
    NothingToDelete,
}

/// The store of the server's own record: there is only ever one.
pub trait OwnServerRepository {
    type Error;

    /// Writes the record under [`OWN_SERVER_KEY`], replacing the one before.
    fn upsert(&self, own_server: OwnServer) -> Result<OwnServer, Self::Error>;

    /// The record; [`own_server_from_read`] decides the answer.
    fn get(&self) -> Result<OwnServer, Self::Error>;

    /// Removes the record and answers it; [`own_server_from_delete`] decides
    /// the answer.
    fn delete(&self) -> Result<OwnServer, Self::Error>;
}

/// The store of the members' `times` on this server, keyed by member id.
pub trait OwnTimesRepository {
    type Error;

    /// Writes `own_times` under [`own_times_key`] of its member.
    fn upsert(&self, own_times: OwnTimes) -> Result<OwnTimes, Self::Error>;

    /// The `times` of `member_id`.
    fn get(&self, member_id: u64) -> Result<Option<OwnTimes>, Self::Error>;

    /// Every stored `times`, in key order.
    fn get_all(&self) -> Result<Vec<OwnTimes>, Self::Error>;

    /// Removes the `times` of `member_id` and answers it.
    fn delete(&self, member_id: u64) -> Result<Option<OwnTimes>, Self::Error>;
}

/// What reading the server's own record answers: the stored record, or the
/// error that none is stored (a missing record is an error, not `None`).
pub fn own_server_from_read(read: Option<OwnServer>) -> (r: Result<OwnServer, OwnServerRepositoryError>)
    ensures
        match read {
            Some(s) => r == Ok::<OwnServer, OwnServerRepositoryError>(s),
            None => r == Err::<OwnServer, OwnServerRepositoryError>(OwnServerRepositoryError::NotRegistered),
        },
{
    match read {
        Some(s) => Ok(s),
        None => Err(OwnServerRepositoryError::NotRegistered),
    }
}

/// What deleting the server's own record answers, given what was stored
/// before the delete: that record, or the error that there was none.
pub fn own_server_from_delete(read: Option<OwnServer>) -> (r: Result<OwnServer, OwnServerRepositoryError>)
    ensures
        match read {
            Some(s) => r == Ok::<OwnServer, OwnServerRepositoryError>(s),
            None => r == Err::<OwnServer, OwnServerRepositoryError>(OwnServerRepositoryError::NothingToDelete),
        },
{
    match read {
        Some(s) => Ok(s),
        None => Err(OwnServerRepositoryError::NothingToDelete),
    }
}

/// The key of a member's `times`: the member id in decimal.
pub fn own_times_key(member_id: u64) -> (r: String)
    ensures
        r@ == spec_decimal(member_id as nat),
{
    let mut s = String::new();
    push_decimal(&mut s, member_id);
    assert(s@ =~= spec_decimal(member_id as nat));
    s
}

/// The key a member's `times` is written under.
pub fn own_times_record_key(own_times: &OwnTimes) -> (r: String)
    ensures
        r@ == spec_decimal(own_times.member_id as nat),
{
    own_times_key(own_times.member_id)
}

/// The store holds at most one record of the server itself, the last one
/// written: every write and read goes through [`OWN_SERVER_KEY`], so after
/// writing `a` and then `b` a read finds `b`; after a delete it finds none.
pub proof fn law_own_server_last_write_wins(m: Map<Seq<char>, OwnServer>, a: OwnServer, b: OwnServer)
    ensures
        m.insert(OWN_SERVER_KEY@, a).insert(OWN_SERVER_KEY@, b).dom().contains(OWN_SERVER_KEY@),
        m.insert(OWN_SERVER_KEY@, a).insert(OWN_SERVER_KEY@, b)[OWN_SERVER_KEY@] == b,
        !m.insert(OWN_SERVER_KEY@, b).remove(OWN_SERVER_KEY@).dom().contains(OWN_SERVER_KEY@),
{
}

} // verus!
