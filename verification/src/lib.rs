//! Creation of user accounts.
//!
//! The library holds the decision logic of a create-user operation: given the
//! outcome of hashing the password and the outcome of persisting the row, it
//! builds the row to insert and maps what storage reported to a result that
//! carries either the created user or a typed error, never both. Hashing and
//! persistence themselves are capabilities of the surrounding application.

pub mod create;
pub mod storage;
pub mod user;
