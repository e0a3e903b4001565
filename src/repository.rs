use vstd::prelude::*;
use vstd::rwlock::{RwLock, RwLockPredicate};

use crate::clock;
pub use crate::error::{RepositoryError, RepositoryResult};
use crate::table::UserTable;
use crate::user::{created_record, update_instant, updated_record, Timestamp, User, UserId};

verus! {

/// The operations that every backend offers, each safe to call from several
/// threads at once. What a call returns depends on the calls that other
/// threads make meanwhile; each result is consistent with the record the
/// call was given.
pub trait Repository {
    /// The record stored under `user_id`, or `InvalidId`.
    fn get_user(&self, user_id: &UserId) -> (r: RepositoryResult<User>)
        ensures
            match r {
                Ok(u) => u.id == *user_id && u.created_at is Some,
                Err(e) => e is InvalidId || e.is_fault(),
            },
    ;

    /// Stores `user` stamped with its creation instant and returns the stored
    /// record; `AlreadyExists` when its id is stored already.
    fn create_user(&self, user: &User) -> (r: RepositoryResult<User>)
        ensures
            match r {
                Ok(u) => exists|t: Timestamp| u == created_record(*user, t),
                Err(e) => e is AlreadyExists || e.is_fault(),
            },
    ;

    /// Replaces the record stored under `user.id`, keeping its creation
    /// instant and stamping an update instant strictly later than it, and
    /// returns the stored record; `DoesNotExist` when the id is not stored.
    fn update_user(&self, user: &User) -> (r: RepositoryResult<User>)
        ensures
            match r {
                Ok(u) => exists|c: Timestamp, t: Timestamp|
                    u == updated_record(*user, Some(c), t) && c.micros < t.micros,
                Err(e) => e is DoesNotExist || e.is_fault(),
            },
    ;

    /// Removes the record stored under `user_id`, if any, and returns the id.
    fn delete_user(&self, user_id: &UserId) -> (r: RepositoryResult<UserId>)
        ensures
            match r {
                Ok(id) => id == *user_id,
                Err(e) => e.is_fault(),
            },
    ;
}

/// Every stored record carries its creation instant, a clock reading, so
/// one microsecond later is still an instant.
pub open spec fn all_created(m: Map<UserId, User>) -> bool {
    forall|k: UserId|
        #[trigger] m.contains_key(k) ==> m[k].created_at is Some && m[k].created_at->0.micros
            < i64::MAX
}

/// What the lock of a `MemoryRepository` guarantees of the table it guards.
pub struct TableGuard {}

impl RwLockPredicate<UserTable> for TableGuard {
    open spec fn inv(self, t: UserTable) -> bool {
        t.wf() && all_created(t@)
    }
}

/// A process-local backend: one table behind a reader/writer lock. Reads
/// share the lock; each write holds it for the whole of its check and change,
/// so that two creations of one id cannot both succeed.
pub struct MemoryRepository {
    users: RwLock<UserTable, TableGuard>,
}

impl MemoryRepository {
    /// Whether the lock of this backend admits the table `t`: every table it
    /// ever holds is admitted.
    pub closed spec fn admits(&self, t: UserTable) -> bool {
        self.users.inv(t)
    }

    /// A backend that stores no user, whose lock admits exactly the
    /// well-formed tables in which every record carries its creation instant.
    pub fn new() -> (r: MemoryRepository)
        ensures
            forall|t: UserTable| r.admits(t) <==> (t.wf() && all_created(t@)),
    {
        let t = UserTable::new();
        MemoryRepository { users: RwLock::new(t, Ghost(TableGuard {})) }
    }
}

impl Default for MemoryRepository {
    fn default() -> (r: MemoryRepository)
        ensures
            forall|t: UserTable| r.admits(t) <==> (t.wf() && all_created(t@)),
    {
        MemoryRepository::new()
    }
}

impl Repository for MemoryRepository {
    /// The lock cannot fail, so the only error is `InvalidId`.
    fn get_user(&self, user_id: &UserId) -> (r: RepositoryResult<User>)
        ensures
            r is Ok || r == Err::<User, RepositoryError>(RepositoryError::InvalidId),
    {
        let handle = self.users.acquire_read();
        let table = handle.borrow();
        let r = table.get(user_id);
        proof {
            table.lemma_ids_match();
            if table@.contains_key(*user_id) {
                assert(table@[*user_id].created_at is Some);
            }
        }
        handle.release_read();
        r
    }

    /// The lock cannot fail, so the only error is `AlreadyExists`.
    fn create_user(&self, user: &User) -> (r: RepositoryResult<User>)
        ensures
            r is Ok || r == Err::<User, RepositoryError>(RepositoryError::AlreadyExists),
    {
        let now = clock::now();
        let (mut table, handle) = self.users.acquire_write();
        let ghost before = table@;
        let r = table.create_at(user, now);
        proof {
            assert forall|k: UserId| #[trigger] table@.contains_key(k) implies table@[k].created_at is Some by {
                if k != user.id {
                    assert(before.contains_key(k));
                }
            }
        }
        handle.release_write(table);
        r
    }

    /// The lock cannot fail, so the only error is `DoesNotExist`.
    fn update_user(&self, user: &User) -> (r: RepositoryResult<User>)
        ensures
            r is Ok || r == Err::<User, RepositoryError>(RepositoryError::DoesNotExist),
    {
        let now = clock::now();
        let (mut table, handle) = self.users.acquire_write();
        let ghost before = table@;
        let r = table.update_at(user, now);
        proof {
            if before.contains_key(user.id) {
                let c = before[user.id].created_at->0;
                let t = update_instant(Some(c), now);
                assert(r->Ok_0 == updated_record(*user, Some(c), t) && c.micros < t.micros);
            }
            assert forall|k: UserId| #[trigger] table@.contains_key(k) implies table@[k].created_at is Some by {
                if k != user.id {
                    assert(before.contains_key(k));
                }
            }
        }
        handle.release_write(table);
        r
    }

    /// The lock cannot fail, so deleting always succeeds with the id,
    /// whether or not it was stored.
    fn delete_user(&self, user_id: &UserId) -> (r: RepositoryResult<UserId>)
        ensures
            r == Ok::<UserId, RepositoryError>(*user_id),
    {
        let (mut table, handle) = self.users.acquire_write();
        let id = table.delete(user_id);
        handle.release_write(table);
        Ok(id)
    }
}

} // verus!
