use mi_api::error::RepositoryError;
use mi_api::relational::{
    deleted, fetched, inserted, row_to_insert, row_to_update, updated, QueryFailure,
};
use mi_api::user::{CustomData, Date, Timestamp, User, UserId};

fn user() -> User {
    User {
        id: UserId(42),
        name: "Mi nombre".to_string(),
        birth_date: Date::from_ymd(1977, 3, 10).unwrap(),
        custom_data: CustomData { random: 1 },
        created_at: None,
        updated_at: None,
    }
}

fn fault() -> QueryFailure {
    QueryFailure::Fault("connection reset".to_string())
}

#[test]
fn classify_failures() {
    assert_eq!(QueryFailure::classify(true, None, "x".to_string()), QueryFailure::RowNotFound);
    assert_eq!(
        QueryFailure::classify(false, Some("23505"), "dup".to_string()),
        QueryFailure::UniqueViolation("dup".to_string())
    );
    assert_eq!(
        QueryFailure::classify(false, Some("08006"), "lost".to_string()),
        QueryFailure::Fault("lost".to_string())
    );
    assert_eq!(
        QueryFailure::classify(false, None, "io".to_string()),
        QueryFailure::Fault("io".to_string())
    );
}

fn stored() -> User {
    let mut u = user();
    u.created_at = Some(Timestamp { micros: 1 });
    u
}

#[test]
fn fetched_outcomes() {
    let id = UserId(42);
    assert_eq!(fetched(&id, Ok(stored())), Ok(stored()));
    assert_eq!(fetched(&id, Err(QueryFailure::RowNotFound)), Err(RepositoryError::InvalidId));
    assert_eq!(
        fetched(&id, Err(fault())),
        Err(RepositoryError::StorageError("connection reset".to_string()))
    );
}

#[test]
fn fetched_refuses_foreign_or_unstamped_rows() {
    let mismatch = Err(RepositoryError::StorageError(
        "the returned row is not a stored record of the requested id".to_string(),
    ));
    assert_eq!(fetched(&UserId(7), Ok(stored())), mismatch);
    assert_eq!(fetched(&UserId(42), Ok(user())), mismatch);
}

#[test]
fn inserted_outcomes() {
    let row = stored();
    let mut returned = stored();
    returned.name = "other".to_string();
    assert_eq!(inserted(&row, Ok(returned)), Ok(stored()));
    assert_eq!(
        inserted(&row, Err(QueryFailure::RowNotFound)),
        Err(RepositoryError::AlreadyExists)
    );
    assert_eq!(
        inserted(&row, Err(QueryFailure::UniqueViolation("dup".to_string()))),
        Err(RepositoryError::AlreadyExists)
    );
    assert_eq!(
        inserted(&row, Err(fault())),
        Err(RepositoryError::StorageError("connection reset".to_string()))
    );
}

#[test]
fn updated_outcomes() {
    let mut row = user();
    row.created_at = Some(Timestamp { micros: 1 });
    row.updated_at = Some(Timestamp { micros: 2 });
    assert_eq!(updated(Ok(row.clone())), Ok(row));
    assert_eq!(updated(Err(QueryFailure::RowNotFound)), Err(RepositoryError::DoesNotExist));
    assert_eq!(
        updated(Err(fault())),
        Err(RepositoryError::StorageError("connection reset".to_string()))
    );
}

#[test]
fn deleted_outcomes() {
    let id = UserId(42);
    assert_eq!(deleted(&id, Ok(UserId(42))), Ok(id));
    assert_eq!(deleted(&id, Err(QueryFailure::RowNotFound)), Ok(id));
    assert_eq!(
        deleted(&id, Err(fault())),
        Err(RepositoryError::StorageError("connection reset".to_string()))
    );
}

#[test]
fn rows_are_stamped() {
    let mut u = user();
    u.created_at = Some(Timestamp { micros: 1 });
    let row = row_to_insert(&u);
    assert_eq!(row.name, u.name);
    assert!(row.created_at.unwrap().micros > 1);
    assert_eq!(row.updated_at, None);
    let row = row_to_update(&u);
    assert_eq!(row.created_at, None);
    assert!(row.updated_at.unwrap().micros > 1);
}

#[test]
fn updated_refuses_stale_update_instant() {
    let mut u = user();
    u.created_at = Some(Timestamp { micros: 10 });
    u.updated_at = Some(Timestamp { micros: 10 });
    assert_eq!(
        updated(Ok(u.clone())),
        Err(RepositoryError::StorageError(
            "the stored update instant is not later than the creation instant".to_string()
        ))
    );
    u.updated_at = None;
    assert!(matches!(updated(Ok(u.clone())), Err(RepositoryError::StorageError(_))));
    u.updated_at = Some(Timestamp { micros: 11 });
    assert_eq!(updated(Ok(u.clone())), Ok(u));
}

#[test]
fn updated_refuses_row_without_creation_instant() {
    let mut u = user();
    u.updated_at = Some(Timestamp { micros: 11 });
    assert_eq!(
        updated(Ok(u)),
        Err(RepositoryError::StorageError(
            "the stored update instant is not later than the creation instant".to_string()
        ))
    );
}
