use vstd::prelude::*;

use crate::error::{RepositoryError, RepositoryResult};
use crate::user::{
    created_record, stamp_after, update_instant, updated_record, Timestamp, User, UserId,
};

verus! {

/// What `get(id)` returns on a store holding `m`.
pub open spec fn spec_get(m: Map<UserId, User>, id: UserId) -> RepositoryResult<User> {
    if m.contains_key(id) {
        Ok(m[id])
    } else {
        Err(RepositoryError::InvalidId)
    }
}

/// The store and the result after `create(u)` at instant `now` on a store
/// holding `m`.
pub open spec fn spec_create(m: Map<UserId, User>, u: User, now: Timestamp) -> (Map<
    UserId,
    User,
>, RepositoryResult<User>) {
    if m.contains_key(u.id) {
        (m, Err(RepositoryError::AlreadyExists))
    } else {
        (m.insert(u.id, created_record(u, now)), Ok(created_record(u, now)))
    }
}

/// The store and the result after `update(u)` with clock reading `now` on a
/// store holding `m`. The update instant is `now`, or one microsecond after
/// the stored creation instant when `now` is not later than it.
pub open spec fn spec_update(m: Map<UserId, User>, u: User, now: Timestamp) -> (Map<
    UserId,
    User,
>, RepositoryResult<User>) {
    if m.contains_key(u.id) {
        let r = updated_record(u, m[u.id].created_at, update_instant(m[u.id].created_at, now));
        (m.insert(u.id, r), Ok(r))
    } else {
        (m, Err(RepositoryError::DoesNotExist))
    }
}

/// The store after `delete(id)` on a store holding `m`.
pub open spec fn spec_delete(m: Map<UserId, User>, id: UserId) -> Map<UserId, User> {
    m.remove(id)
}

/// The users of one store, kept in a vector with at most one record per id.
/// Seen from outside, a table is the map from each stored id to its record.
pub struct UserTable {
    users: Vec<User>,
    records: Ghost<Map<UserId, User>>,
}

impl View for UserTable {
    type V = Map<UserId, User>;

    closed spec fn view(&self) -> Map<UserId, User> {
        self.records@
    }
}

impl UserTable {
    /// The ids are unique, and the map holds exactly the stored records.
    pub closed spec fn wf(&self) -> bool {
        &&& forall|i: int, j: int|
            0 <= i < j < self.users@.len() ==> #[trigger] self.users@[i].id != #[trigger] self.users@[j].id
        &&& forall|i: int|
            0 <= i < self.users@.len() ==> {
                &&& self.records@.contains_key(#[trigger] self.users@[i].id)
                &&& self.records@[self.users@[i].id] == self.users@[i]
            }
        &&& forall|k: UserId| #[trigger]
            self.records@.contains_key(k) ==> exists|i: int|
                0 <= i < self.users@.len() && #[trigger] self.users@[i].id == k
    }

    /// Each record is stored under its own id.
    pub proof fn lemma_ids_match(&self)
        requires
            self.wf(),
        ensures
            forall|k: UserId| #[trigger] self@.contains_key(k) ==> self@[k].id == k,
    {
        assert forall|k: UserId| #[trigger] self@.contains_key(k) implies self@[k].id == k by {
            let i = choose|i: int| 0 <= i < self.users@.len() && #[trigger] self.users@[i].id == k;
            assert(self.records@[self.users@[i].id] == self.users@[i]);
        }
    }

    /// An empty table.
    pub fn new() -> (t: UserTable)
        ensures
            t.wf(),
            t@ == Map::<UserId, User>::empty(),
    {
        UserTable { users: Vec::new(), records: Ghost(Map::empty()) }
    }

    /// The index of the record with the given id.
    fn position(&self, id: UserId) -> (r: Option<usize>)
        requires
            self.wf(),
        ensures
            match r {
                Some(i) => i < self.users@.len() && self.users@[i as int].id == id,
                None => !self@.contains_key(id),
            },
    {
        let mut i: usize = 0;
        while i < self.users.len()
            invariant
                self.wf(),
                i <= self.users@.len(),
                forall|j: int| 0 <= j < i ==> #[trigger] self.users@[j].id != id,
            decreases self.users@.len() - i,
        {
            if self.users[i].id == id {
                return Some(i);
            }
            i += 1;
        }
        assert(!self@.contains_key(id)) by {
            if self@.contains_key(id) {
                let k = choose|k: int| 0 <= k < self.users@.len() && #[trigger] self.users@[k].id == id;
                assert(self.users@[k].id != id);
            }
        }
        None
    }

    /// The record stored under `id`, or `InvalidId`.
    pub fn get(&self, id: &UserId) -> (r: RepositoryResult<User>)
        requires
            self.wf(),
        ensures
            r == spec_get(self@, *id),
    {
        match self.position(*id) {
            Some(i) => {
                assert(self.records@[self.users@[i as int].id] == self.users@[i as int]);
                Ok(self.users[i].duplicate())
            },
            None => Err(RepositoryError::InvalidId),
        }
    }

    /// Stores `user` stamped as created at `now`, unless its id is already
    /// stored, in which case nothing changes and the result is
    /// `AlreadyExists`. The check and the insertion are one step.
    pub fn create_at(&mut self, user: &User, now: Timestamp) -> (r: RepositoryResult<User>)
        requires
            old(self).wf(),
        ensures
            final(self).wf(),
            (final(self)@, r) == spec_create(old(self)@, *user, now),
    {
        match self.position(user.id) {
            Some(_) => Err(RepositoryError::AlreadyExists),
            None => {
                let record = user.stamped_created(now);
                let ghost before = self.users@;
                self.users.push(record.duplicate());
                self.records = Ghost(self.records@.insert(user.id, record));
                proof {
                    let n = before.len() as int;
                    assert(self.users@[n] == record);
                    assert forall|i: int| 0 <= i < n implies #[trigger] self.users@[i] == before[i] by {}
                    assert forall|k: UserId| #[trigger] self.records@.contains_key(k) implies exists|i: int|
                        0 <= i < self.users@.len() && #[trigger] self.users@[i].id == k by {
                        if k != user.id {
                            let j = choose|j: int| 0 <= j < before.len() && #[trigger] before[j].id == k;
                            assert(self.users@[j].id == k);
                        } else {
                            assert(self.users@[n].id == k);
                        }
                    }
                }
                Ok(record)
            },
        }
    }

    /// Replaces the record stored under `user.id` by `user`, keeping the
    /// stored creation instant and stamped with an update instant that is
    /// `now`, or one microsecond after the creation instant when `now` is not
    /// later; when the id is not stored, nothing changes and the result is
    /// `DoesNotExist`.
    pub fn update_at(&mut self, user: &User, now: Timestamp) -> (r: RepositoryResult<User>)
        requires
            old(self).wf(),
        ensures
            final(self).wf(),
            (final(self)@, r) == spec_update(old(self)@, *user, now),
    {
        match self.position(user.id) {
            None => Err(RepositoryError::DoesNotExist),
            Some(i) => {
                let created_at = self.users[i].created_at;
                let stamp = stamp_after(created_at, now);
                let record = user.stamped_updated(created_at, stamp);
                let ghost before = self.users@;
                assert(self.records@[user.id] == before[i as int]);
                self.users[i] = record.duplicate();
                self.records = Ghost(self.records@.insert(user.id, record));
                proof {
                    assert forall|j: int| 0 <= j < before.len() && j != i implies #[trigger] self.users@[j] == before[j] by {}
                    assert forall|j: int| 0 <= j < before.len() implies #[trigger] self.users@[j].id == before[j].id by {
                        if j != i {
                            assert(self.users@[j] == before[j]);
                        }
                    }
                    assert forall|k: UserId| #[trigger] self.records@.contains_key(k) implies exists|j: int|
                        0 <= j < self.users@.len() && #[trigger] self.users@[j].id == k by {
                        if k != user.id {
                            let j = choose|j: int| 0 <= j < before.len() && #[trigger] before[j].id == k;
                            assert(self.users@[j].id == k);
                        } else {
                            assert(self.users@[i as int].id == k);
                        }
                    }
                }
                Ok(record)
            },
        }
    }

    /// Removes the record stored under `id`, if any, and returns `id`.
    pub fn delete(&mut self, id: &UserId) -> (r: UserId)
        requires
            old(self).wf(),
        ensures
            final(self).wf(),
            final(self)@ == spec_delete(old(self)@, *id),
            r == *id,
    {
        match self.position(*id) {
            None => {
                assert(self.records@.remove(*id) =~= self.records@);
            },
            Some(i) => {
                let ghost before = self.users@;
                let _ = self.users.remove(i);
                self.records = Ghost(self.records@.remove(*id));
                proof {
                    assert forall|j: int| 0 <= j < self.users@.len() implies #[trigger] self.users@[j] == (
                    if j < i {
                        before[j]
                    } else {
                        before[j + 1]
                    }) by {}
                    assert forall|k: UserId| #[trigger] self.records@.contains_key(k) implies exists|j: int|
                        0 <= j < self.users@.len() && #[trigger] self.users@[j].id == k by {
                        let j = choose|j: int| 0 <= j < before.len() && #[trigger] before[j].id == k;
                        assert(j != i);
                        if j < i {
                            assert(self.users@[j].id == k);
                        } else {
                            assert(self.users@[j - 1].id == k);
                        }
                    }
                }
            },
        }
        *id
    }
}

} // verus!
