//! The values a finished create-user operation hands back: the public
//! projection of a persisted user row, and the typed error of a failed
//! attempt.

use vstd::prelude::*;

verus! {

/// Public projection of a persisted user row.
///
/// It carries the identifier that storage assigned and the three plain
/// fields; it has no field for the password or its hash, so neither can
/// ever be exposed through it.
#[derive(Debug, Clone)]
pub struct User {
    pub id: i32,
    pub name: String,
    pub last_name: String,
    pub email: String,
}

/// Why a creation attempt failed.
///
/// Every query-level storage failure is reported as `EmailTaken`: the
/// uniqueness constraint on the email is the query-level constraint this
/// operation can run into, so that coarse reading is deliberate. Everything
/// else is `Unknown`.
#[derive(Debug, Clone, Copy, PartialEq, Eq, Structural)]
pub enum UserErrorCode {
    EmailTaken,
    Unknown,
}

/// A failed creation attempt: a code and the storage failure's description.
#[derive(Debug, Clone)]
pub struct UserError {
    pub code: UserErrorCode,
    pub message: String,
}

} // verus!
