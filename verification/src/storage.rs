//! The library's model of the storage capability: the row it hands storage
//! for insertion, the row storage hands back on success, and the two classes
//! of storage failure the operation distinguishes.

use vstd::prelude::*;

verus! {

/// A user row ready to be inserted.
///
/// The identifier is deliberately absent: storage assigns it. The password
/// itself is absent too; only its hash is stored.
#[derive(Debug, Clone)]
pub struct NewUserRecord {
    pub name: String,
    pub last_name: String,
    pub email: String,
    pub hash: String,
}

/// A user row as storage returns it after a successful insert: the inserted
/// fields together with the identifier storage assigned.
#[derive(Debug, Clone)]
pub struct StoredUser {
    pub id: i32,
    pub name: String,
    pub last_name: String,
    pub email: String,
    pub hash: String,
}

/// A failed insert, tagged by where it arose, with the failure's description.
///
/// `Query` is a query-level failure: the statement itself was rejected, for
/// a constraint or query-validity reason such as a duplicate email. `Other`
/// is every remaining failure, connectivity above all.
#[derive(Debug, Clone)]
pub enum StorageError {
    Query(String),
    Other(String),
}

} // verus!
