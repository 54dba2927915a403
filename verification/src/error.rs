//! The error surface of the core.
//!
//! Every operation returns a tagged result; the variants below are the whole
//! taxonomy. Display text lives in [`AuthError::message`] so callers that
//! want a human-readable string do not need to match on the variant.

use vstd::prelude::*;
use crate::roles::Role;

verus! {

/// Errors surfaced by the authentication, authorization and scheduling core.
#[derive(Debug)]
pub enum AuthError {
    /// Unknown username or wrong password. The two cases are deliberately
    /// indistinguishable so usernames cannot be enumerated.
    InvalidCredentials,
    /// Unknown or already-invalidated session token; the two cases are
    /// deliberately indistinguishable to the caller.
    InvalidSession,
    /// A known, still-valid token past its expiry. Returning this error
    /// invalidates the session as a side effect.
    SessionExpired,
    /// The session is intact but the account behind it is missing or
    /// deactivated.
    UserNotFound,
    /// The current password given for a password change is wrong.
    WrongPassword,
    /// A valid session whose role is insufficient for the requested
    /// operation; carries the admitted roles and the caller's actual role.
    PermissionDenied { required: Vec<Role>, actual: Role },
    /// A malformed date string or a value outside a closed enumeration.
    ValidationError,
    /// The store refused the operation: a duplicate key, exhausted capacity,
    /// or a failure of the hashing backend.
    StorageError,
}

impl AuthError {
    /// A human-readable message for the error, one fixed line per variant.
    pub fn message(&self) -> (r: String)
        ensures
            self is InvalidCredentials ==> r@ == "Invalid username or password"@,
            self is InvalidSession ==> r@ == "Invalid or expired session"@,
            self is SessionExpired ==> r@ == "Session expired"@,
            self is UserNotFound ==> r@ == "User not found or inactive"@,
            self is WrongPassword ==> r@ == "Current password is incorrect"@,
            self is PermissionDenied ==> r@ == "Permission denied"@,
            self is ValidationError ==> r@ == "Validation failed"@,
            self is StorageError ==> r@ == "Storage operation failed"@,
    {
        match self {
            AuthError::InvalidCredentials => String::from_str("Invalid username or password"),
            AuthError::InvalidSession => String::from_str("Invalid or expired session"),
            AuthError::SessionExpired => String::from_str("Session expired"),
            AuthError::UserNotFound => String::from_str("User not found or inactive"),
            AuthError::WrongPassword => String::from_str("Current password is incorrect"),
            AuthError::PermissionDenied { .. } => String::from_str("Permission denied"),
            AuthError::ValidationError => String::from_str("Validation failed"),
            AuthError::StorageError => String::from_str("Storage operation failed"),
        }
    }
}

} // verus!
