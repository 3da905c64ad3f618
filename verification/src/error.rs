//! Domain error taxonomy and the translation of storage-layer outcomes
//! into domain error kinds.

use vstd::prelude::*;

verus! {

/// Outcome signal of a failed storage operation, as the repository layer
/// reports it: a unique-constraint violation is distinguished so that the
/// service layer can translate it into a conflict, every other failure is
/// opaque.
#[derive(Debug, PartialEq, Eq, Structural)]
pub enum StorageError {
    UniqueViolation,
    Other,
}

/// Domain-level error kinds surfaced by the service layer.
#[derive(Debug, PartialEq)]
pub enum AppError {
    /// Any storage failure other than a create-time conflict.
    DatabaseError(StorageError),
    /// The requested identifier has no matching row.
    NotFound,
    /// Source-open or environment failure; fatal for the current operation.
    ConfigError(String),
    /// Field-level validation failure, raised before storage access;
    /// carries the name of the offending field.
    ValidationError(String),
    /// An update was requested with no fields set; rejected before storage
    /// access.
    NoChangesToUpdate,
    /// A create attempt violated the uniqueness of the entity's identifier;
    /// carries a message naming the resource.
    AlreadyExists(String),
}

/// Result alias used throughout the service layer.
pub type AppResult<T> = Result<T, AppError>;

/// Translates a raw storage error observed during a create into a domain
/// error: a unique-constraint violation becomes an `AlreadyExists` conflict
/// naming the resource, anything else a `DatabaseError`.
pub fn map_db_error(e: StorageError, resource_name: &str) -> (r: AppError)
    ensures
        e is UniqueViolation ==> (r matches AppError::AlreadyExists(m) && m@ == resource_name@
            + " already exists"@),
        !(e is UniqueViolation) ==> (r matches AppError::DatabaseError(inner) && inner == e),
{
    match e {
        StorageError::UniqueViolation => AppError::AlreadyExists(
            String::from_str(resource_name).concat(" already exists"),
        ),
        _ => AppError::DatabaseError(e),
    }
}

impl AppError {
    /// The caller-visible rejection: an HTTP-style status code together with
    /// a message. Detail of storage and configuration failures is kept
    /// generic here; descriptive text is reserved for the domain kinds.
    pub fn response_parts(&self) -> (r: (u16, String))
        ensures
            self matches AppError::NotFound ==> r.0 == 404 && r.1@ == "Resource Not Found"@,
            self matches AppError::ValidationError(f) ==> r.0 == 400 && r.1@
                == "Validation error: "@ + f@,
            self matches AppError::NoChangesToUpdate ==> r.0 == 400 && r.1@
                == "No valid fields provided for update."@,
            self matches AppError::AlreadyExists(m) ==> r.0 == 409 && r.1@ == m@,
            self matches AppError::DatabaseError(_) ==> r.0 == 500 && r.1@
                == "Database Operation Failed"@,
            self matches AppError::ConfigError(e) ==> r.0 == 500 && r.1@
                == "Configuration Error: "@ + e@,
    {
        match self {
            AppError::NotFound => (404, String::from_str("Resource Not Found")),
            AppError::ValidationError(f) => (
                400,
                String::from_str("Validation error: ").concat(f.as_str()),
            ),
            AppError::NoChangesToUpdate => (
                400,
                String::from_str("No valid fields provided for update."),
            ),
            AppError::AlreadyExists(m) => (409, m.clone()),
            AppError::DatabaseError(_) => (500, String::from_str("Database Operation Failed")),
            AppError::ConfigError(e) => (
                500,
                String::from_str("Configuration Error: ").concat(e.as_str()),
            ),
        }
    }
}

} // verus!
