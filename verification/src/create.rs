//! The create-user operation itself: its request payload, its result, and
//! the two decisions it makes — what to hand storage once the password hash
//! is in, and what to answer once storage has spoken.

use vstd::prelude::*;

use crate::storage::{NewUserRecord, StorageError, StoredUser};
use crate::user::{User, UserError, UserErrorCode};

verus! {

/// The request payload: three plain fields and the plaintext password.
///
/// The fields are unconstrained strings: this operation validates nothing
/// itself; any format or uniqueness rule is the storage layer's to enforce.
#[derive(Debug, Clone)]
pub struct UserCreateInput {
    pub name: String,
    pub last_name: String,
    pub email: String,
    pub password: String,
}

/// The operation's result: either the created user or a typed error,
/// never both and never neither.
#[derive(Debug)]
pub struct UserCreate {
    user: Option<User>,
    error: Option<UserError>,
}

impl UserCreate {
    /// Exactly one of the two sides is set, in every value of the type.
    #[verifier::type_invariant]
    spec fn wf(self) -> bool {
        self.user is Some <==> self.error is None
    }

    /// The `user` side of the result.
    pub closed spec fn spec_user(self) -> Option<User> {
        self.user
    }

    /// The `error` side of the result.
    pub closed spec fn spec_error(self) -> Option<UserError> {
        self.error
    }

    /// What step one decides from the hash outcome: the row to insert,
    /// built from the input's plain fields and the hash, or the hash
    /// failure passed through untouched.
    pub open spec fn spec_prepare(
        input: UserCreateInput,
        hash_outcome: Result<String, String>,
    ) -> Result<NewUserRecord, String> {
        match hash_outcome {
            Ok(hash) => Ok(NewUserRecord {
                name: input.name,
                last_name: input.last_name,
                email: input.email,
                hash: hash,
            }),
            Err(failure) => Err(failure),
        }
    }

    /// What step two decides from the storage outcome, as the pair of the
    /// result's `user` and `error` sides.
    pub open spec fn spec_outcome(
        outcome: Result<StoredUser, StorageError>,
    ) -> (Option<User>, Option<UserError>) {
        match outcome {
            Ok(stored) => (
                Some(User {
                    id: stored.id,
                    name: stored.name,
                    last_name: stored.last_name,
                    email: stored.email,
                }),
                None,
            ),
            Err(StorageError::Query(message)) => (
                None,
                Some(UserError { code: UserErrorCode::EmailTaken, message: message }),
            ),
            Err(StorageError::Other(message)) => (
                None,
                Some(UserError { code: UserErrorCode::Unknown, message: message }),
            ),
        }
    }

    /// Step one of the operation. On a successful hash it builds the row to
    /// insert — the identifier left for storage to assign, the plaintext
    /// password left behind. On a hash failure it fails the whole operation
    /// with that failure untouched, so no row ever reaches storage.
    pub fn prepare(
        input: UserCreateInput,
        hash_outcome: Result<String, String>,
    ) -> (r: Result<NewUserRecord, String>)
        ensures
            r == Self::spec_prepare(input, hash_outcome),
            hash_outcome matches Err(failure) ==> r == Err::<NewUserRecord, String>(failure),
    {
        match hash_outcome {
            Ok(hash) => Ok(NewUserRecord {
                name: input.name,
                last_name: input.last_name,
                email: input.email,
                hash: hash,
            }),
            Err(failure) => Err(failure),
        }
    }

    /// Step two of the operation: map the storage outcome to the result.
    /// A stored row becomes the user projection, its hash dropped; a
    /// query-level failure becomes the `EmailTaken` error and any other
    /// failure the `Unknown` error, each carrying the failure's description.
    pub fn exec(outcome: Result<StoredUser, StorageError>) -> (r: UserCreate)
        ensures
            r.spec_user() == Self::spec_outcome(outcome).0,
            r.spec_error() == Self::spec_outcome(outcome).1,
    {
        match outcome {
            Ok(stored) => UserCreate {
                user: Some(User {
                    id: stored.id,
                    name: stored.name,
                    last_name: stored.last_name,
                    email: stored.email,
                }),
                error: None,
            },
            Err(StorageError::Query(message)) => UserCreate {
                user: None,
                error: Some(UserError { code: UserErrorCode::EmailTaken, message: message }),
            },
            Err(StorageError::Other(message)) => UserCreate {
                user: None,
                error: Some(UserError { code: UserErrorCode::Unknown, message: message }),
            },
        }
    }

    /// The created user, if the attempt succeeded.
    pub fn user(&self) -> (u: &Option<User>)
        ensures
            *u == self.spec_user(),
            (*u) is Some <==> self.spec_error() is None,
    {
        proof {
            use_type_invariant(&*self);
        }
        &self.user
    }

    /// The error, if the attempt failed.
    pub fn error(&self) -> (e: &Option<UserError>)
        ensures
            *e == self.spec_error(),
            (*e) is Some <==> self.spec_user() is None,
    {
        proof {
            use_type_invariant(&*self);
        }
        &self.error
    }

    /// The result's two sides as owned values; exactly one of them is set.
    pub fn into_parts(self) -> (parts: (Option<User>, Option<UserError>))
        ensures
            parts.0 == self.spec_user(),
            parts.1 == self.spec_error(),
            parts.0 is Some <==> parts.1 is None,
    {
        proof {
            use_type_invariant(&self);
        }
        let UserCreate { user, error } = self;
        (user, error)
    }

    /// Law: when hashing succeeds and storage persists the prepared row
    /// unchanged, assigning it an identifier, the result's user is exactly
    /// that identifier with the input's name, last name and email, and no
    /// error is set. The user holds nothing else: the hash is dropped in
    /// the projection, and the password itself never reached the row.
    pub proof fn lemma_success_reflects_input(
        input: UserCreateInput,
        hash: String,
        stored: StoredUser,
    )
        requires
            Self::spec_prepare(input, Ok(hash)) matches Ok(row)
                && stored.name == row.name
                && stored.last_name == row.last_name
                && stored.email == row.email
                && stored.hash == row.hash,
        ensures
            Self::spec_outcome(Ok(stored)).0 == Some(User {
                id: stored.id,
                name: input.name,
                last_name: input.last_name,
                email: input.email,
            }),
            Self::spec_outcome(Ok(stored)).1 is None,
    {
    }

    /// Law: a hash failure fails the whole operation with that failure
    /// untouched; step one yields no row, so storage is never attempted
    /// and no user row is created.
    pub proof fn lemma_hash_failure_reaches_no_storage(input: UserCreateInput, failure: String)
        ensures
            Self::spec_prepare(input, Err(failure)) == Err::<NewUserRecord, String>(failure),
    {
    }

    /// Law: a query-level storage failure is reported as `EmailTaken`,
    /// carrying the failure's description, and no user is set.
    pub proof fn lemma_query_failure_is_email_taken(message: String)
        ensures
            Self::spec_outcome(Err(StorageError::Query(message))).0 is None,
            Self::spec_outcome(Err(StorageError::Query(message))).1 == Some(UserError {
                code: UserErrorCode::EmailTaken,
                message: message,
            }),
    {
    }

    /// Law: any other storage failure is reported as `Unknown`, carrying
    /// the failure's description, and no user is set.
    pub proof fn lemma_other_failure_is_unknown(message: String)
        ensures
            Self::spec_outcome(Err(StorageError::Other(message))).0 is None,
            Self::spec_outcome(Err(StorageError::Other(message))).1 == Some(UserError {
                code: UserErrorCode::Unknown,
                message: message,
            }),
    {
    }

    /// Law: whatever storage reported, exactly one of the result's user
    /// and error sides is set.
    pub proof fn lemma_user_error_exclusive(outcome: Result<StoredUser, StorageError>)
        ensures
            Self::spec_outcome(outcome).0 is Some <==> Self::spec_outcome(outcome).1 is None,
    {
    }
}

} // verus!
