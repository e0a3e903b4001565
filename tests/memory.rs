use mi_api::error::RepositoryError;
use mi_api::repository::{MemoryRepository, Repository};
use mi_api::user::{CustomData, Date, User, UserId};

fn user(id: u128, name: &str, random: i32) -> User {
    User {
        id: UserId(id),
        name: name.to_string(),
        birth_date: Date::from_ymd(1977, 3, 10).unwrap(),
        custom_data: CustomData { random },
        created_at: None,
        updated_at: None,
    }
}

// 2020-01-01T00:00:00Z
const YEAR_2020_MICROS: i64 = 1_577_836_800_000_000;

#[test]
fn memory_get_unknown_is_invalid_id() {
    let repo = MemoryRepository::default();
    assert_eq!(repo.get_user(&UserId(1)), Err(RepositoryError::InvalidId));
}

#[test]
fn memory_create_stamps_current_instant() {
    let repo = MemoryRepository::new();
    let created = repo.create_user(&user(1, "Rob", 1)).unwrap();
    assert!(created.created_at.unwrap().micros > YEAR_2020_MICROS);
    assert_eq!(created.updated_at, None);
    assert_eq!(repo.get_user(&UserId(1)), Ok(created));
}

#[test]
fn memory_create_twice_already_exists() {
    let repo = MemoryRepository::new();
    let first = repo.create_user(&user(1, "one", 1)).unwrap();
    assert_eq!(repo.create_user(&user(1, "two", 2)), Err(RepositoryError::AlreadyExists));
    assert_eq!(repo.get_user(&UserId(1)), Ok(first));
}

#[test]
fn memory_update_missing_does_not_exist() {
    let repo = MemoryRepository::new();
    assert_eq!(repo.update_user(&user(1, "x", 1)), Err(RepositoryError::DoesNotExist));
    assert_eq!(repo.get_user(&UserId(1)), Err(RepositoryError::InvalidId));
}

#[test]
fn memory_scenario_rob() {
    let repo = MemoryRepository::new();
    let created = repo.create_user(&user(0x51, "Rob", 1)).unwrap();
    assert!(created.created_at.is_some());
    assert_eq!(created.updated_at, None);
    assert_eq!(repo.get_user(&UserId(0x51)), Ok(created.clone()));
    let updated = repo.update_user(&user(0x51, "Robert", 1)).unwrap();
    assert_eq!(updated.name, "Robert");
    assert_eq!(updated.created_at, created.created_at);
    assert!(updated.updated_at.unwrap().micros > created.created_at.unwrap().micros);
    assert_eq!(repo.delete_user(&UserId(0x51)), Ok(UserId(0x51)));
    assert_eq!(repo.get_user(&UserId(0x51)), Err(RepositoryError::InvalidId));
}

#[test]
fn memory_delete_is_idempotent() {
    let repo = MemoryRepository::new();
    assert_eq!(repo.delete_user(&UserId(3)), Ok(UserId(3)));
    assert_eq!(repo.delete_user(&UserId(3)), Ok(UserId(3)));
}

#[test]
fn memory_creates_with_one_id_store_one() {
    let repo = MemoryRepository::new();
    let mut ok = 0;
    let mut conflicts = 0;
    for i in 0..8 {
        match repo.create_user(&user(5, "n", i)) {
            Ok(_) => ok += 1,
            Err(RepositoryError::AlreadyExists) => conflicts += 1,
            Err(e) => panic!("unexpected {:?}", e),
        }
    }
    assert_eq!(ok, 1);
    assert_eq!(conflicts, 7);
    assert_eq!(repo.get_user(&UserId(5)).unwrap().custom_data.random, 0);
}
