use mi_api::error::RepositoryError;
use mi_api::user::{CustomData, Date, Timestamp, User, UserId};

#[test]
fn date_accepts_calendar_days() {
    let d = Date::from_ymd(1977, 3, 10).unwrap();
    assert_eq!((d.year(), d.month(), d.day()), (1977, 3, 10));
    assert!(Date::from_ymd(2015, 3, 14).is_some());
    assert!(Date::from_ymd(2000, 2, 29).is_some());
    assert!(Date::from_ymd(-4, 2, 29).is_some());
    assert!(Date::from_ymd(262142, 12, 31).is_some());
    assert!(Date::from_ymd(-262143, 1, 1).is_some());
}

#[test]
fn date_rejects_missing_days() {
    assert!(Date::from_ymd(2015, 0, 14).is_none());
    assert!(Date::from_ymd(2015, 13, 1).is_none());
    assert!(Date::from_ymd(2015, 2, 29).is_none());
    assert!(Date::from_ymd(1900, 2, 29).is_none());
    assert!(Date::from_ymd(2023, 4, 31).is_none());
    assert!(Date::from_ymd(2023, 4, 0).is_none());
    assert!(Date::from_ymd(262143, 1, 1).is_none());
    assert!(Date::from_ymd(-262144, 12, 31).is_none());
}

#[test]
fn user_stamps() {
    let u = User {
        id: UserId(1),
        name: "Rob".to_string(),
        birth_date: Date::from_ymd(1977, 3, 10).unwrap(),
        custom_data: CustomData { random: 1 },
        created_at: Some(Timestamp { micros: 1 }),
        updated_at: Some(Timestamp { micros: 2 }),
    };
    let c = u.stamped_created(Timestamp { micros: 10 });
    assert_eq!(c.created_at, Some(Timestamp { micros: 10 }));
    assert_eq!(c.updated_at, None);
    assert_eq!(c.name, "Rob");
    let up = u.stamped_updated(Some(Timestamp { micros: 3 }), Timestamp { micros: 20 });
    assert_eq!(up.created_at, Some(Timestamp { micros: 3 }));
    assert_eq!(up.updated_at, Some(Timestamp { micros: 20 }));
    assert_eq!(u.duplicate(), u);
}

#[test]
fn error_messages() {
    assert_eq!(RepositoryError::AlreadyExists.message(), "This entity already exists");
    assert_eq!(RepositoryError::DoesNotExist.message(), "This entity does not exist");
    assert_eq!(RepositoryError::InvalidId.message(), "The id format is not valid");
    assert_eq!(
        RepositoryError::LockError("poisoned".to_string()).message(),
        "PoisonError: `poisoned`"
    );
    assert_eq!(
        RepositoryError::StorageError("timeout".to_string()).message(),
        "Storage error: `timeout`"
    );
}
