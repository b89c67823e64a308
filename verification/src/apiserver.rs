//! How the API server answers: the routes it serves and the status that
//! each outcome gets.

use vstd::prelude::*;
use crate::error::{Error, ErrorView, Kind};

verus! {

/// The status of an answer of success.
pub const STATUS_OK: u16 = 200;

/// The status that an error gets: 400 for a value that cannot be read or is
/// not valid, 404 for an entity that is not there, 409 for one that is
/// there already, and 500 for the rest.
pub open spec fn status_of(e: ErrorView) -> u16 {
    match e {
        ErrorView::Serialize(_) => 400,
        ErrorView::NotAnObject => 400,
        ErrorView::SerializeValidation(_) => 400,
        ErrorView::MissingKey(_) => 400,
        ErrorView::NotFound => 404,
        ErrorView::KeyExists { .. } => 409,
        ErrorView::FailedMigration { .. } => 500,
        ErrorView::NoMigrationAvailable { .. } => 500,
        ErrorView::Storage(_) => 500,
    }
}

/// The status with which an error is answered.
pub fn error_status(e: &Error) -> (r: u16)
    ensures
        r == status_of(e@),
{
    match e {
        Error::Serialize(_) => 400,
        Error::NotAnObject => 400,
        Error::SerializeValidation(_) => 400,
        Error::MissingKey(_) => 400,
        Error::NotFound => 404,
        Error::KeyExists { .. } => 409,
        Error::FailedMigration { .. } => 500,
        Error::NoMigrationAvailable { .. } => 500,
        Error::Storage(_) => 500,
    }
}

/// The status with which an outcome is answered.
pub fn response_status<T>(r: &Result<T, Error>) -> (s: u16)
    ensures
        r is Ok ==> s == STATUS_OK,
        r is Err ==> s == status_of(r->Err_0@),
{
    match r {
        Ok(_) => STATUS_OK,
        Err(e) => error_status(e),
    }
}

/// The path under which the entities of a kind are served.
pub open spec fn scope_of(kind: Kind) -> Seq<char> {
    match kind {
        Kind::Bridge => "/api/v1/bridges"@,
        Kind::VirtualMachine => "/api/v1/virtualmachines"@,
    }
}

/// The path under which the entities of a kind are served.
pub fn scope(kind: Kind) -> (r: &'static str)
    ensures
        r@ == scope_of(kind),
{
    match kind {
        Kind::Bridge => "/api/v1/bridges",
        Kind::VirtualMachine => "/api/v1/virtualmachines",
    }
}

} // verus!
