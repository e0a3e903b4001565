use vstd::prelude::*;
use vstd::string::StringExecFns;

verus! {

/// The closed set of failures that every backend reports.
#[derive(Clone, Debug, PartialEq, Eq)]
pub enum RepositoryError {
    /// The in-process lock that guards the records could not be used.
    LockError(String),
    /// The storage layer failed (a lost connection, a timeout).
    StorageError(String),
    /// `create` was given an id that is already stored.
    AlreadyExists,
    /// `update` was given an id that is not stored.
    DoesNotExist,
    /// `get` was given an id that resolves to no record.
    InvalidId,
}

pub type RepositoryResult<T> = Result<T, RepositoryError>;

/// The human-readable description of an error.
pub open spec fn error_message(e: RepositoryError) -> Seq<char> {
    match e {
        RepositoryError::LockError(d) => "PoisonError: `"@ + d@ + "`"@,
        RepositoryError::StorageError(d) => "Storage error: `"@ + d@ + "`"@,
        RepositoryError::AlreadyExists => "This entity already exists"@,
        RepositoryError::DoesNotExist => "This entity does not exist"@,
        RepositoryError::InvalidId => "The id format is not valid"@,
    }
}

impl RepositoryError {
    /// Whether the error reports an infrastructure fault rather than a fact
    /// about the stored records.
    pub open spec fn is_fault(&self) -> bool {
        self is LockError || self is StorageError
    }

    /// The human-readable description of this error.
    pub fn message(&self) -> (r: String)
        ensures
            r@ == error_message(*self),
    {
        match self {
            RepositoryError::LockError(d) => {
                let mut r = String::from_str("PoisonError: `");
                r.append(d.as_str());
                r.append("`");
                r
            },
            RepositoryError::StorageError(d) => {
                let mut r = String::from_str("Storage error: `");
                r.append(d.as_str());
                r.append("`");
                r
            },
            RepositoryError::AlreadyExists => String::from_str("This entity already exists"),
            RepositoryError::DoesNotExist => String::from_str("This entity does not exist"),
            RepositoryError::InvalidId => String::from_str("The id format is not valid"),
        }
    }
}

} // verus!
