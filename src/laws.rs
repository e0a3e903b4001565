//! Laws of the repository contract, stated over the model that the table's
//! operations are specified by.
use vstd::prelude::*;

use crate::error::{RepositoryError, RepositoryResult};
use crate::relational::{
    after_delete, after_insert, after_update,
    delete_outcome, insert_outcome, select_outcome, spec_deleted, spec_fetched, spec_inserted,
    spec_updated, update_outcome,
};
use crate::table::{spec_create, spec_delete, spec_get, spec_update};
use crate::user::{created_record, update_instant, updated_record, Timestamp, User, UserId};

verus! {

/// One call that changes a store.
pub enum Operation {
    Create(User, Timestamp),
    Update(User, Timestamp),
    Delete(UserId),
}

/// The store after one operation on a store holding `m`.
pub open spec fn apply(m: Map<UserId, User>, op: Operation) -> Map<UserId, User> {
    match op {
        Operation::Create(u, t) => spec_create(m, u, t).0,
        Operation::Update(u, t) => spec_update(m, u, t).0,
        Operation::Delete(id) => spec_delete(m, id),
    }
}

/// The store after the operations `ops`, in order, on a store holding `m`.
pub open spec fn run(m: Map<UserId, User>, ops: Seq<Operation>) -> Map<UserId, User>
    decreases ops.len(),
{
    if ops.len() == 0 {
        m
    } else {
        run(apply(m, ops[0]), ops.drop_first())
    }
}

/// Whether `op` creates a user with the id `id`.
pub open spec fn creates(op: Operation, id: UserId) -> bool {
    match op {
        Operation::Create(u, _) => u.id == id,
        _ => false,
    }
}

/// The store and the results after creating each of `us`, in order, at the
/// matching instant of `ts`, on a store holding `m`.
pub open spec fn create_all(m: Map<UserId, User>, us: Seq<User>, ts: Seq<Timestamp>) -> (Map<
    UserId,
    User,
>, Seq<RepositoryResult<User>>)
    decreases us.len(),
{
    if us.len() == 0 || ts.len() == 0 {
        (m, Seq::empty())
    } else {
        let (m1, r) = spec_create(m, us[0], ts[0]);
        let (m2, rs) = create_all(m1, us.drop_first(), ts.drop_first());
        (m2, seq![r] + rs)
    }
}

proof fn lemma_absent_stays_absent(m: Map<UserId, User>, ops: Seq<Operation>, id: UserId)
    requires
        !m.contains_key(id),
        forall|i: int| 0 <= i < ops.len() ==> !creates(#[trigger] ops[i], id),
    ensures
        !run(m, ops).contains_key(id),
    decreases ops.len(),
{
    if ops.len() > 0 {
        assert(!creates(ops[0], id));
        let rest = ops.drop_first();
        assert forall|i: int| 0 <= i < rest.len() implies !creates(#[trigger] rest[i], id) by {
            assert(rest[i] == ops[i + 1]);
        }
        lemma_absent_stays_absent(apply(m, ops[0]), rest, id);
    }
}

/// On a store that starts empty, `get` of an id that no operation created
/// yields `InvalidId`, whatever other operations ran.
pub proof fn lemma_get_never_created(ops: Seq<Operation>, id: UserId)
    requires
        forall|i: int| 0 <= i < ops.len() ==> !creates(#[trigger] ops[i], id),
    ensures
        spec_get(run(Map::empty(), ops), id) == Err::<User, RepositoryError>(RepositoryError::InvalidId),
{
    lemma_absent_stays_absent(Map::empty(), ops, id);
}

/// Creating a user whose id is not stored, then reading that id, yields the
/// user with every field kept, the creation instant set and no update
/// instant.
pub proof fn lemma_create_then_get(m: Map<UserId, User>, u: User, now: Timestamp)
    requires
        !m.contains_key(u.id),
    ensures
        spec_get(spec_create(m, u, now).0, u.id) == spec_create(m, u, now).1,
        ({
            let r = spec_get(spec_create(m, u, now).0, u.id);
            &&& r is Ok
            &&& r->Ok_0.id == u.id
            &&& r->Ok_0.name == u.name
            &&& r->Ok_0.birth_date == u.birth_date
            &&& r->Ok_0.custom_data == u.custom_data
            &&& r->Ok_0.created_at == Some(now)
            &&& r->Ok_0.updated_at is None
        }),
{
}

/// A second creation with a stored id yields `AlreadyExists` and leaves the
/// store, and the record the first creation returned, unchanged.
pub proof fn lemma_create_twice(m: Map<UserId, User>, u: User, v: User, t1: Timestamp, t2: Timestamp)
    requires
        !m.contains_key(u.id),
        v.id == u.id,
    ensures
        ({
            let (m1, r1) = spec_create(m, u, t1);
            let (m2, r2) = spec_create(m1, v, t2);
            &&& r2 == Err::<User, RepositoryError>(RepositoryError::AlreadyExists)
            &&& m2 == m1
            &&& spec_get(m2, u.id) == r1
        }),
{
}

/// Updating an id that is not stored yields `DoesNotExist` and leaves the
/// store unchanged.
pub proof fn lemma_update_missing(m: Map<UserId, User>, u: User, now: Timestamp)
    requires
        !m.contains_key(u.id),
    ensures
        spec_update(m, u, now) == (m, Err::<User, RepositoryError>(RepositoryError::DoesNotExist)),
{
}

/// Creating a user and then updating it yields the new fields, the original
/// creation instant, and an update instant strictly later than it (the clock
/// reading when that is later, else one microsecond after the creation),
/// whatever the clock read; reading the id afterwards yields the same record.
/// The creation instant is a clock reading, below the largest `i64`.
pub proof fn lemma_update_round_trip(
    m: Map<UserId, User>,
    u: User,
    v: User,
    created: Timestamp,
    now: Timestamp,
)
    requires
        !m.contains_key(u.id),
        v.id == u.id,
        created.micros < i64::MAX,
    ensures
        ({
            let m1 = spec_create(m, u, created).0;
            let (m2, r) = spec_update(m1, v, now);
            &&& r == Ok::<User, RepositoryError>(
                updated_record(v, Some(created), update_instant(Some(created), now)),
            )
            &&& r->Ok_0.created_at == Some(created)
            &&& created.micros < now.micros ==> r->Ok_0.updated_at == Some(now)
            &&& r->Ok_0.created_at->0.micros < r->Ok_0.updated_at->0.micros
            &&& r->Ok_0.name == v.name
            &&& r->Ok_0.birth_date == v.birth_date
            &&& r->Ok_0.custom_data == v.custom_data
            &&& spec_get(m2, u.id) == r
        }),
{
}

/// After deleting an id, reading it yields `InvalidId`.
pub proof fn lemma_delete_then_get(m: Map<UserId, User>, id: UserId)
    ensures
        spec_get(spec_delete(m, id), id) == Err::<User, RepositoryError>(RepositoryError::InvalidId),
{
}

proof fn lemma_create_all_present(
    m: Map<UserId, User>,
    us: Seq<User>,
    ts: Seq<Timestamp>,
    id: UserId,
)
    requires
        m.contains_key(id),
        us.len() == ts.len(),
        forall|i: int| 0 <= i < us.len() ==> (#[trigger] us[i]).id == id,
    ensures
        create_all(m, us, ts).0 == m,
        create_all(m, us, ts).1.len() == us.len(),
        forall|i: int|
            0 <= i < us.len() ==> create_all(m, us, ts).1[i] == Err::<User, RepositoryError>(
                RepositoryError::AlreadyExists,
            ),
    decreases us.len(),
{
    if us.len() > 0 {
        let rest = us.drop_first();
        assert forall|i: int| 0 <= i < rest.len() implies (#[trigger] rest[i]).id == id by {
            assert(rest[i] == us[i + 1]);
        }
        assert(us[0].id == id);
        lemma_create_all_present(m, rest, ts.drop_first(), id);
    }
}

/// Of several creations with one id that is not stored, run one after the
/// other as the write lock orders them, the first succeeds and every other
/// yields `AlreadyExists`; the store then holds the first one's record under
/// that id and is otherwise unchanged.
pub proof fn lemma_creations_with_one_id(
    m: Map<UserId, User>,
    us: Seq<User>,
    ts: Seq<Timestamp>,
    id: UserId,
)
    requires
        !m.contains_key(id),
        us.len() >= 1,
        us.len() == ts.len(),
        forall|i: int| 0 <= i < us.len() ==> (#[trigger] us[i]).id == id,
    ensures
        ({
            let (m2, rs) = create_all(m, us, ts);
            &&& rs.len() == us.len()
            &&& rs[0] == Ok::<User, RepositoryError>(created_record(us[0], ts[0]))
            &&& forall|i: int|
                1 <= i < us.len() ==> rs[i] == Err::<User, RepositoryError>(
                    RepositoryError::AlreadyExists,
                )
            &&& m2 == m.insert(id, created_record(us[0], ts[0]))
        }),
{
    assert(us[0].id == id);
    let m1 = m.insert(id, created_record(us[0], ts[0]));
    let rest = us.drop_first();
    assert forall|i: int| 0 <= i < rest.len() implies (#[trigger] rest[i]).id == id by {
        assert(rest[i] == us[i + 1]);
    }
    lemma_create_all_present(m1, rest, ts.drop_first(), id);
    let rs = create_all(m, us, ts).1;
    let tail = create_all(m1, rest, ts.drop_first()).1;
    assert forall|i: int| 1 <= i < us.len() implies rs[i] == Err::<User, RepositoryError>(
        RepositoryError::AlreadyExists,
    ) by {
        assert(rs[i] == tail[i - 1]);
    }
}

/// On a database holding the records `m`, the relational backend returns
/// what the in-memory table returns on `m`, for every operation, and leaves
/// the same records; so both agree on every sequence of calls. Reading and
/// updating agree where the stored record involved is one the repository
/// writes: under its own id, with a creation instant below the largest
/// `i64`.
pub proof fn lemma_relational_agrees(m: Map<UserId, User>, u: User, id: UserId, now: Timestamp)
    ensures
        (m.contains_key(id) ==> m[id].id == id && m[id].created_at is Some) ==> spec_fetched(
            id,
            select_outcome(m, id),
            spec_get(m, id),
        ),
        spec_inserted(created_record(u, now), insert_outcome(m, created_record(u, now)))
            == spec_create(m, u, now).1,
        (m.contains_key(u.id) ==> m[u.id].created_at is Some && m[u.id].created_at->0.micros
            < i64::MAX) ==> spec_updated(
            update_outcome(m, updated_record(u, None, now)),
            spec_update(m, u, now).1,
        ),
        spec_deleted(id, delete_outcome(m, id)) == Ok::<UserId, RepositoryError>(id),
        after_insert(m, created_record(u, now)) == spec_create(m, u, now).0,
        after_update(m, updated_record(u, None, now)) == spec_update(m, u, now).0,
        after_delete(m, id) == spec_delete(m, id),
{
}

} // verus!
