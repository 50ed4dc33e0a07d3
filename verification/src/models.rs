//! Data model of the service: the persisted `School` entity, the
//! `CreateSchool` payload, route metadata, configuration, and the
//! error translator that maps persistence outcomes to API errors.

use vstd::prelude::*;

verus! {

/// A persisted school row: a store-assigned surrogate key and a name.
#[derive(Debug)]
pub struct School {
    pub id: i32,
    pub name: String,
}

/// Creation payload: carries only the name; the store assigns the id.
#[derive(Debug)]
pub struct CreateSchool {
    pub name: String,
}

/// Static metadata describing one route of the service.
#[derive(Debug)]
pub struct RouteDefinition {
    pub url: String,
    pub method: String,
}

/// Process-wide configuration: the location of the store.
#[derive(Clone)]
pub struct AppConfig {
    pub db_url: String,
}

/// The persistence-layer error taxonomy: either the requested row does
/// not exist, or the store failed for any other reason.
#[derive(Clone, Copy, Debug, PartialEq, Eq, Structural)]
pub enum StoreError {
    NotFound,
    StorageFailure,
}

/// Wire-level representation of a handler failure.
#[derive(Debug)]
pub struct ErrorDetail {
    pub message: String,
}

/// A translated error: a message body plus the HTTP status it travels with.
pub struct APIError {
    pub error: ErrorDetail,
    pub status_code: u16,
}

pub const STATUS_OK: u16 = 200;
pub const STATUS_BAD_REQUEST: u16 = 400;
pub const STATUS_NOT_FOUND: u16 = 404;
pub const STATUS_INTERNAL_SERVER_ERROR: u16 = 500;

impl APIError {
    /// The error translator: a total, exhaustive mapping from the
    /// persistence error taxonomy to `{message, status}`.
    pub fn from(e: StoreError) -> (r: APIError)
        ensures
            e == StoreError::NotFound ==> r.status_code == STATUS_NOT_FOUND
                && r.error.message@ == "Resource not found"@,
            e != StoreError::NotFound ==> r.status_code == STATUS_INTERNAL_SERVER_ERROR
                && r.error.message@ == "Unexpected error"@,
    {
        match e {
            StoreError::NotFound => APIError {
                error: ErrorDetail { message: "Resource not found".to_owned() },
                status_code: STATUS_NOT_FOUND,
            },
            StoreError::StorageFailure => APIError {
                error: ErrorDetail { message: "Unexpected error".to_owned() },
                status_code: STATUS_INTERNAL_SERVER_ERROR,
            },
        }
    }
}

/// Copies a school value; the copy equals the original.
pub fn clone_school(s: &School) -> (r: School)
    ensures
        r == *s,
{
    School { id: s.id, name: s.name.clone() }
}

} // verus!
