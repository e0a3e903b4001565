use vstd::prelude::*;

verus! {

/// Identifier of a user, chosen by the caller: the 128 bits of a UUID.
#[derive(Clone, Copy, PartialEq, Eq, Structural, Debug, Hash)]
pub struct UserId(pub u128);

/// An instant in UTC, as microseconds since the Unix epoch.
#[derive(Clone, Copy, PartialEq, Eq, Structural, Debug, Hash)]
pub struct Timestamp {
    pub micros: i64,
}

/// The application payload stored with each user, returned verbatim.
#[derive(Clone, Copy, PartialEq, Eq, Structural, Debug, Hash)]
pub struct CustomData {
    pub random: i32,
}

/// Earliest year of a calendar date (January 1st, 262144 BCE).
pub const MIN_YEAR: i32 = -262143;

/// Latest year of a calendar date (December 31st, 262142 CE).
pub const MAX_YEAR: i32 = 262142;

pub open spec fn is_leap_year(year: int) -> bool {
    (year % 4 == 0 && year % 100 != 0) || year % 400 == 0
}

pub open spec fn days_in_month(year: int, month: int) -> int {
    if month == 2 {
        if is_leap_year(year) { 29 } else { 28 }
    } else if month == 4 || month == 6 || month == 9 || month == 11 {
        30
    } else {
        31
    }
}

/// A day of the proleptic Gregorian calendar within the supported years.
pub open spec fn valid_ymd(year: int, month: int, day: int) -> bool {
    &&& MIN_YEAR <= year <= MAX_YEAR
    &&& 1 <= month <= 12
    &&& 1 <= day <= days_in_month(year, month)
}

/// Relies on chrono::NaiveDate::from_ymd_opt, which returns `None` exactly for
/// a day that does not exist, a month or day out of range, or a year out of
/// the supported range.
#[verifier::external_body]
fn calendar_accepts(year: i32, month: u32, day: u32) -> (r: bool)
    ensures
        r == valid_ymd(year as int, month as int, day as int),
{
    chrono::NaiveDate::from_ymd_opt(year, month, day).is_some()
}

/// A calendar date without a time of day.
#[derive(Clone, Copy, PartialEq, Eq, Debug, Hash)]
pub struct Date {
    year: i32,
    month: u32,
    day: u32,
}

impl View for Date {
    type V = (int, int, int);

    closed spec fn view(&self) -> (int, int, int) {
        (self.year as int, self.month as int, self.day as int)
    }
}

impl Date {
    #[verifier::type_invariant]
    closed spec fn inv(self) -> bool {
        valid_ymd(self.year as int, self.month as int, self.day as int)
    }

    /// The date with the given year, month (1 to 12) and day of the month;
    /// `None` when no such day exists.
    pub fn from_ymd(year: i32, month: u32, day: u32) -> (r: Option<Date>)
        ensures
            r is Some <==> valid_ymd(year as int, month as int, day as int),
            r is Some ==> r->0@ == (year as int, month as int, day as int),
    {
        if calendar_accepts(year, month, day) {
            Some(Date { year, month, day })
        } else {
            None
        }
    }

    pub fn year(&self) -> (r: i32)
        ensures
            r as int == self@.0,
    {
        self.year
    }

    pub fn month(&self) -> (r: u32)
        ensures
            r as int == self@.1,
    {
        self.month
    }

    pub fn day(&self) -> (r: u32)
        ensures
            r as int == self@.2,
    {
        self.day
    }
}

/// A stored user. `created_at` is set by the store when the user is created;
/// `updated_at` is set by the store on every update and absent before one.
#[derive(Clone, Debug, PartialEq, Eq)]
pub struct User {
    pub id: UserId,
    pub name: String,
    pub birth_date: Date,
    pub custom_data: CustomData,
    pub created_at: Option<Timestamp>,
    pub updated_at: Option<Timestamp>,
}

/// The record that creating `u` at instant `now` stores.
pub open spec fn created_record(u: User, now: Timestamp) -> User {
    User { created_at: Some(now), updated_at: None, ..u }
}

/// The record that replacing a user by `u` at instant `now` stores, keeping
/// the creation instant `created_at` of the record it replaces.
pub open spec fn updated_record(u: User, created_at: Option<Timestamp>, now: Timestamp) -> User {
    User { created_at: created_at, updated_at: Some(now), ..u }
}

/// The instant that an update with clock reading `now` stamps on a record
/// created at `created_at`: the reading, unless it is not later than the
/// creation instant, and then one microsecond after the creation instant.
pub open spec fn update_instant(created_at: Option<Timestamp>, now: Timestamp) -> Timestamp {
    match created_at {
        Some(c) => if now.micros <= c.micros && c.micros < i64::MAX {
            Timestamp { micros: (c.micros + 1) as i64 }
        } else {
            now
        },
        None => now,
    }
}

/// The instant that an update with clock reading `now` stamps on a record
/// created at `created_at`.
pub fn stamp_after(created_at: Option<Timestamp>, now: Timestamp) -> (t: Timestamp)
    ensures
        t == update_instant(created_at, now),
        created_at is Some && created_at->0.micros < i64::MAX ==> created_at->0.micros < t.micros,
{
    match created_at {
        Some(c) => if now.micros <= c.micros && c.micros < i64::MAX {
            Timestamp { micros: c.micros + 1 }
        } else {
            now
        },
        None => now,
    }
}

/// Whether `u` carries a creation instant and an update instant strictly
/// later than it.
pub open spec fn updated_after_creation(u: User) -> bool {
    &&& u.created_at is Some
    &&& u.updated_at is Some
    &&& u.created_at->0.micros < u.updated_at->0.micros
}

impl User {
    /// An owned copy of this record.
    pub fn duplicate(&self) -> (r: User)
        ensures
            r == *self,
    {
        User {
            id: self.id,
            name: self.name.clone(),
            birth_date: self.birth_date,
            custom_data: self.custom_data,
            created_at: self.created_at,
            updated_at: self.updated_at,
        }
    }

    /// This record as creating it at `now` stores it.
    pub fn stamped_created(&self, now: Timestamp) -> (r: User)
        ensures
            r == created_record(*self, now),
    {
        User {
            id: self.id,
            name: self.name.clone(),
            birth_date: self.birth_date,
            custom_data: self.custom_data,
            created_at: Some(now),
            updated_at: None,
        }
    }

    /// This record as an update at `now` stores it over a record created at
    /// `created_at`.
    pub fn stamped_updated(&self, created_at: Option<Timestamp>, now: Timestamp) -> (r: User)
        ensures
            r == updated_record(*self, created_at, now),
    {
        User {
            id: self.id,
            name: self.name.clone(),
            birth_date: self.birth_date,
            custom_data: self.custom_data,
            created_at: created_at,
            updated_at: Some(now),
        }
    }
}

} // verus!
