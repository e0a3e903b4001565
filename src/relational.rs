use vstd::prelude::*;
use vstd::string::StringExecFns;

use crate::clock;
use crate::error::{RepositoryError, RepositoryResult};
use crate::user::{
    created_record, update_instant, updated_after_creation, updated_record, Timestamp, User, UserId,
};

verus! {

/// Reads the record stored under `$1`.
pub const SELECT_USER: &'static str = "SELECT id, name, birth_date, custom_data, created_at, updated_at FROM users WHERE id = $1";

/// Inserts a record unless its id is stored; returns no row when it is.
pub const INSERT_USER: &'static str = "INSERT INTO users (id, name, birth_date, custom_data, created_at) VALUES ($1, $2, $3, $4, $5) ON CONFLICT (id) DO NOTHING RETURNING id, name, birth_date, custom_data, created_at, updated_at";

/// Replaces the mutable fields of the record stored under `$5`, leaving its
/// creation instant, and stamps as update instant the later of `$4` and one
/// microsecond after the creation instant; returns no row when the id is not
/// stored.
pub const UPDATE_USER: &'static str = "UPDATE users SET name = $1, birth_date = $2, custom_data = $3, updated_at = GREATEST($4, created_at + INTERVAL '1 microsecond') WHERE id = $5 RETURNING id, name, birth_date, custom_data, created_at, updated_at";

/// The text of the fault reported for an updated row without a creation
/// instant, or whose update instant is not later than its creation instant.
pub const STALE_UPDATE: &'static str = "the stored update instant is not later than the creation instant";

/// The text of the fault reported for a read row that is not the record
/// asked for, or that has no creation instant.
pub const MISMATCHED_ROW: &'static str = "the returned row is not a stored record of the requested id";

/// Removes the record stored under `$1`; returns no row when there is none.
pub const DELETE_USER: &'static str = "DELETE FROM users WHERE id = $1 RETURNING id";

/// The SQLSTATE code of a unique-key violation.
pub const UNIQUE_VIOLATION: &'static str = "23505";

/// How one statement against the relational store failed.
#[derive(Clone, Debug, PartialEq, Eq)]
pub enum QueryFailure {
    /// The statement returned no row.
    RowNotFound,
    /// The statement broke the uniqueness of the key, with the driver's text.
    UniqueViolation(String),
    /// Any other failure of the database or the connection, with the
    /// driver's text.
    Fault(String),
}

impl QueryFailure {
    /// Classifies a failure reported by the driver: whether it reports that no
    /// row came back, the SQLSTATE code of a database error, and its text.
    pub fn classify(row_not_found: bool, sql_state: Option<&str>, detail: String) -> (r: QueryFailure)
        ensures
            r == (if row_not_found {
                QueryFailure::RowNotFound
            } else if sql_state is Some && sql_state->0@ == UNIQUE_VIOLATION@ {
                QueryFailure::UniqueViolation(detail)
            } else {
                QueryFailure::Fault(detail)
            }),
    {
        if row_not_found {
            return QueryFailure::RowNotFound;
        }
        match sql_state {
            Some(code) => {
                let code = code.to_owned();
                let unique = String::from_str(UNIQUE_VIOLATION);
                if code == unique {
                    QueryFailure::UniqueViolation(detail)
                } else {
                    QueryFailure::Fault(detail)
                }
            },
            None => QueryFailure::Fault(detail),
        }
    }
}

/// The error that a failure reports when its outcome has no meaning of its
/// own for the operation: a storage fault with the driver's text. Every
/// caller handles a missing row before, so the `RowNotFound` arm is only
/// there to make the function total.
pub open spec fn fault_of(f: QueryFailure) -> RepositoryError {
    match f {
        QueryFailure::UniqueViolation(d) => RepositoryError::StorageError(d),
        QueryFailure::Fault(d) => RepositoryError::StorageError(d),
        QueryFailure::RowNotFound => RepositoryError::InvalidId,
    }
}

fn fault(f: QueryFailure) -> (e: RepositoryError)
    ensures
        e == fault_of(f),
{
    match f {
        QueryFailure::UniqueViolation(d) => RepositoryError::StorageError(d),
        QueryFailure::Fault(d) => RepositoryError::StorageError(d),
        QueryFailure::RowNotFound => RepositoryError::InvalidId,
    }
}

/// Whether `u` can be the stored record of `id`: it has that id and a
/// creation instant.
pub open spec fn stored_record_of(id: UserId, u: User) -> bool {
    u.id == id && u.created_at is Some
}

/// Whether `r` is the result of `get(id)` from the outcome `q` of
/// `SELECT_USER`: a returned row that cannot be the stored record of `id` is
/// refused as a storage fault.
pub open spec fn spec_fetched(id: UserId, q: Result<User, QueryFailure>, r: RepositoryResult<User>) -> bool {
    match q {
        Ok(u) => if stored_record_of(id, u) {
            r == Ok::<User, RepositoryError>(u)
        } else {
            &&& r is Err
            &&& r->Err_0 is StorageError
            &&& r->Err_0->StorageError_0@ == MISMATCHED_ROW@
        },
        Err(QueryFailure::RowNotFound) => r == Err::<User, RepositoryError>(
            RepositoryError::InvalidId,
        ),
        Err(f) => r == Err::<User, RepositoryError>(fault_of(f)),
    }
}

/// The result of `create` from the outcome `q` of `INSERT_USER` for the row
/// `row`: the row written is the stored record; no row, or a key violation
/// from a concurrent insertion, means the id is stored.
pub open spec fn spec_inserted(row: User, q: Result<User, QueryFailure>) -> RepositoryResult<User> {
    match q {
        Ok(_) => Ok(row),
        Err(QueryFailure::RowNotFound) => Err(RepositoryError::AlreadyExists),
        Err(QueryFailure::UniqueViolation(_)) => Err(RepositoryError::AlreadyExists),
        Err(f) => Err(fault_of(f)),
    }
}

/// Whether `r` is the result of `update` from the outcome `q` of
/// `UPDATE_USER`: a returned row whose update instant is not strictly later
/// than its creation instant is refused as a storage fault.
pub open spec fn spec_updated(q: Result<User, QueryFailure>, r: RepositoryResult<User>) -> bool {
    match q {
        Ok(u) => if updated_after_creation(u) {
            r == Ok::<User, RepositoryError>(u)
        } else {
            &&& r is Err
            &&& r->Err_0 is StorageError
            &&& r->Err_0->StorageError_0@ == STALE_UPDATE@
        },
        Err(QueryFailure::RowNotFound) => r == Err::<User, RepositoryError>(
            RepositoryError::DoesNotExist,
        ),
        Err(f) => r == Err::<User, RepositoryError>(fault_of(f)),
    }
}

/// The result of `delete(id)` from the outcome of `DELETE_USER`: removing an
/// id that is not stored succeeds too.
pub open spec fn spec_deleted(id: UserId, q: Result<UserId, QueryFailure>) -> RepositoryResult<
    UserId,
> {
    match q {
        Ok(_) => Ok(id),
        Err(QueryFailure::RowNotFound) => Ok(id),
        Err(f) => Err(fault_of(f)),
    }
}

/// What `SELECT_USER` returns for `id` on a table holding `m`, when the
/// database works.
pub open spec fn select_outcome(m: Map<UserId, User>, id: UserId) -> Result<User, QueryFailure> {
    if m.contains_key(id) {
        Ok(m[id])
    } else {
        Err(QueryFailure::RowNotFound)
    }
}

/// What `INSERT_USER` returns for `row` on a table holding `m`, when the
/// database works.
pub open spec fn insert_outcome(m: Map<UserId, User>, row: User) -> Result<User, QueryFailure> {
    if m.contains_key(row.id) {
        Err(QueryFailure::RowNotFound)
    } else {
        Ok(row)
    }
}

/// What `UPDATE_USER` returns for the fields `row`, whose update instant is
/// the clock reading, on a table holding `m`, when the database works.
pub open spec fn update_outcome(m: Map<UserId, User>, row: User) -> Result<User, QueryFailure> {
    if m.contains_key(row.id) {
        Ok(stored_update(m[row.id], row))
    } else {
        Err(QueryFailure::RowNotFound)
    }
}

/// What `DELETE_USER` returns for `id` on a table holding `m`, when the
/// database works.
pub open spec fn delete_outcome(m: Map<UserId, User>, id: UserId) -> Result<UserId, QueryFailure> {
    if m.contains_key(id) {
        Ok(id)
    } else {
        Err(QueryFailure::RowNotFound)
    }
}

/// The records after `INSERT_USER` for `row` on a table holding `m`.
pub open spec fn after_insert(m: Map<UserId, User>, row: User) -> Map<UserId, User> {
    if m.contains_key(row.id) {
        m
    } else {
        m.insert(row.id, row)
    }
}

/// The row that `UPDATE_USER` leaves in place of `old` for the fields `row`.
pub open spec fn stored_update(old: User, row: User) -> User {
    User {
        created_at: old.created_at,
        updated_at: Some(update_instant(old.created_at, row.updated_at->0)),
        ..row
    }
}

/// The records after `UPDATE_USER` for the fields `row` on a table holding
/// `m`.
pub open spec fn after_update(m: Map<UserId, User>, row: User) -> Map<UserId, User> {
    if m.contains_key(row.id) {
        m.insert(row.id, stored_update(m[row.id], row))
    } else {
        m
    }
}

/// The records after `DELETE_USER` for `id` on a table holding `m`.
pub open spec fn after_delete(m: Map<UserId, User>, id: UserId) -> Map<UserId, User> {
    m.remove(id)
}

/// The result of `get(id)` from the outcome of `SELECT_USER`.
pub fn fetched(id: &UserId, q: Result<User, QueryFailure>) -> (r: RepositoryResult<User>)
    ensures
        spec_fetched(*id, q, r),
        r is Ok ==> stored_record_of(*id, r->Ok_0),
{
    match q {
        Ok(u) => if u.id == *id && u.created_at.is_some() {
            Ok(u)
        } else {
            Err(RepositoryError::StorageError(String::from_str(MISMATCHED_ROW)))
        },
        Err(QueryFailure::RowNotFound) => Err(RepositoryError::InvalidId),
        Err(f) => Err(fault(f)),
    }
}

/// The result of `create` from the outcome of `INSERT_USER` for the row
/// `row` that `row_to_insert` built.
pub fn inserted(row: &User, q: Result<User, QueryFailure>) -> (r: RepositoryResult<User>)
    ensures
        r == spec_inserted(*row, q),
{
    match q {
        Ok(_) => Ok(row.duplicate()),
        Err(QueryFailure::RowNotFound) => Err(RepositoryError::AlreadyExists),
        Err(QueryFailure::UniqueViolation(_)) => Err(RepositoryError::AlreadyExists),
        Err(f) => Err(fault(f)),
    }
}

/// The result of `update` from the outcome of `UPDATE_USER`.
pub fn updated(q: Result<User, QueryFailure>) -> (r: RepositoryResult<User>)
    ensures
        spec_updated(q, r),
        r is Ok ==> updated_after_creation(r->Ok_0),
{
    match q {
        Ok(u) => {
            let later = match (u.created_at, u.updated_at) {
                (Some(c), Some(t)) => c.micros < t.micros,
                _ => false,
            };
            if later {
                Ok(u)
            } else {
                Err(RepositoryError::StorageError(String::from_str(STALE_UPDATE)))
            }
        },
        Err(QueryFailure::RowNotFound) => Err(RepositoryError::DoesNotExist),
        Err(f) => Err(fault(f)),
    }
}

/// The result of `delete(id)` from the outcome of `DELETE_USER`.
pub fn deleted(id: &UserId, q: Result<UserId, QueryFailure>) -> (r: RepositoryResult<UserId>)
    ensures
        r == spec_deleted(*id, q),
{
    match q {
        Ok(_) => Ok(*id),
        Err(QueryFailure::RowNotFound) => Ok(*id),
        Err(f) => Err(fault(f)),
    }
}

/// The row that `INSERT_USER` writes for `user`: the user stamped with the
/// current instant as its creation instant.
pub fn row_to_insert(user: &User) -> (r: User)
    ensures
        exists|t: Timestamp| r == created_record(*user, t) && t.micros < i64::MAX,
{
    user.stamped_created(clock::now())
}

/// The fields that `UPDATE_USER` writes for `user`: the user stamped with the
/// current instant as its update instant. The statement keeps the stored
/// creation instant, so the row carries none.
pub fn row_to_update(user: &User) -> (r: User)
    ensures
        exists|t: Timestamp| r == updated_record(*user, None, t) && t.micros < i64::MAX,
{
    user.stamped_updated(None, clock::now())
}

} // verus!
