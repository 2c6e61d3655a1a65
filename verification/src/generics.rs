//! Results and errors of the storage layer.
use vstd::prelude::*;

verus! {

/// Errors of the storage layer.
#[derive(Copy, Clone, Debug, PartialEq, Eq, Structural)]
pub enum MeshError {
    DatabaseConnectionError,
    NotFound,
    UniqueViolation,
    NoFieldsToUpdate,
    QueryGenerationFailed,
    Others,
}

/// The kinds of database call that the storage layer tracks.
#[derive(Copy, Clone, Debug, PartialEq, Eq, Structural)]
pub enum DatabaseOperation {
    FindOne,
    Filter,
    Update,
    Insert,
    Delete,
    DeleteWithResult,
    UpdateWithResults,
    UpdateOne,
    Count,
}

pub type StorageResult<T> = Result<T, MeshError>;

/// The message of each storage error.
pub open spec fn mesh_error_message(e: MeshError) -> Seq<char> {
    match e {
        MeshError::DatabaseConnectionError => "An error occurred when obtaining database connection"@,
        MeshError::NotFound => "The requested resource was not found in the database"@,
        MeshError::UniqueViolation => "A unique constraint violation occurred"@,
        MeshError::NoFieldsToUpdate => "No fields were provided to be updated"@,
        MeshError::QueryGenerationFailed => "An error occurred when generating typed SQL query"@,
        MeshError::Others => "An unknown error occurred"@,
    }
}

impl MeshError {
    /// The message that the storage layer reports for this error.
    pub fn message(&self) -> (s: &'static str)
        ensures
            s@ == mesh_error_message(*self),
    {
        match self {
            MeshError::DatabaseConnectionError => "An error occurred when obtaining database connection",
            MeshError::NotFound => "The requested resource was not found in the database",
            MeshError::UniqueViolation => "A unique constraint violation occurred",
            MeshError::NoFieldsToUpdate => "No fields were provided to be updated",
            MeshError::QueryGenerationFailed => "An error occurred when generating typed SQL query",
            MeshError::Others => "An unknown error occurred",
        }
    }
}

/// Turns a lookup that failed with `NotFound` into a successful lookup of nothing;
/// every other error is kept.
pub fn to_optional<T>(arg: StorageResult<T>) -> (res: StorageResult<Option<T>>)
    ensures
        match arg {
            Ok(v) => res == Ok::<Option<T>, MeshError>(Some(v)),
            Err(MeshError::NotFound) => res == Ok::<Option<T>, MeshError>(None),
            Err(e) => res == Err::<Option<T>, MeshError>(e),
        },
{
    match arg {
        Ok(value) => Ok(Some(value)),
        Err(err) => match err {
            MeshError::NotFound => Ok(None),
            _ => Err(err),
        },
    }
}

} // verus!
