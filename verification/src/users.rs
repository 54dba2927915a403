//! Accounts and sessions as plain records.
//!
//! Timestamps are unix seconds; the role is a value of the closed
//! enumeration in [`crate::roles`]. Password hashes are opaque strings
//! produced and checked by the hashing backend.

use vstd::prelude::*;
use crate::roles::{Role, Tier, allowed};

verus! {

/// A persisted user account.
pub struct User {
    pub id: i64,
    pub username: String,
    pub password_hash: String,
    pub email: Option<String>,
    pub full_name: Option<String>,
    pub role: Role,
    pub is_active: bool,
    pub created_at: i64,
    pub updated_at: i64,
}

/// Clones an optional string, keeping its value.
pub(crate) fn clone_opt_string(o: &Option<String>) -> (r: Option<String>)
    ensures
        r == *o,
{
    match o {
        Some(s) => Some(s.clone()),
        None => None,
    }
}

impl Clone for User {
    fn clone(&self) -> (r: Self)
        ensures
            r == *self,
    {
        User {
            id: self.id,
            username: self.username.clone(),
            password_hash: self.password_hash.clone(),
            email: clone_opt_string(&self.email),
            full_name: clone_opt_string(&self.full_name),
            role: self.role,
            is_active: self.is_active,
            created_at: self.created_at,
            updated_at: self.updated_at,
        }
    }
}

impl User {
    /// Whether the account holds the strongest role.
    pub fn is_admin(&self) -> (r: bool)
        ensures
            r == (self.role == Role::Admin),
    {
        self.role == Role::Admin
    }

    /// Whether the account holds the middle role.
    pub fn is_operator(&self) -> (r: bool)
        ensures
            r == (self.role == Role::Operator),
    {
        self.role == Role::Operator
    }

    /// Whether the account holds the weakest role.
    pub fn is_viewer(&self) -> (r: bool)
        ensures
            r == (self.role == Role::Viewer),
    {
        self.role == Role::Viewer
    }

    /// Whether the account may change data: exactly the roles admitted at
    /// the edit tier.
    pub fn can_edit(&self) -> (r: bool)
        ensures
            r == allowed(self.role, Tier::Edit),
    {
        self.is_admin() || self.is_operator()
    }
}

/// The fields of an account that are safe to hand to a caller: everything
/// but the password hash.
pub struct UserPublic {
    pub id: i64,
    pub username: String,
    pub email: Option<String>,
    pub full_name: Option<String>,
    pub role: Role,
    pub is_active: bool,
    pub created_at: i64,
}

/// The public projection of an account.
pub open spec fn user_public_of(u: User) -> UserPublic {
    UserPublic {
        id: u.id,
        username: u.username,
        email: u.email,
        full_name: u.full_name,
        role: u.role,
        is_active: u.is_active,
        created_at: u.created_at,
    }
}

impl From<User> for UserPublic {
    fn from(user: User) -> (r: UserPublic)
        ensures
            r == user_public_of(user),
    {
        UserPublic {
            id: user.id,
            username: user.username,
            email: user.email,
            full_name: user.full_name,
            role: user.role,
            is_active: user.is_active,
            created_at: user.created_at,
        }
    }
}

impl vstd::std_specs::convert::FromSpecImpl<User> for UserPublic {
    open spec fn obeys_from_spec() -> bool {
        true
    }

    open spec fn from_spec(v: User) -> UserPublic {
        user_public_of(v)
    }
}

/// Input for creating an account. The role arrives as a string and is
/// validated against the closed enumeration.
pub struct CreateUserInput {
    pub username: String,
    pub password: String,
    pub email: Option<String>,
    pub full_name: Option<String>,
    pub role: String,
}

/// Input for updating an account; absent fields stay as they are.
pub struct UpdateUserInput {
    pub email: Option<String>,
    pub full_name: Option<String>,
    pub role: Option<String>,
    pub is_active: Option<bool>,
}

/// Login credentials as they arrive from a caller.
pub struct LoginInput {
    pub username: String,
    pub password: String,
}

/// One issued login: an unguessable token tied to a user and an expiry.
/// A session is usable only while `is_valid` holds and `expires_at` has not
/// passed; it is never deleted, only invalidated.
pub struct Session {
    pub id: i64,
    pub user_id: i64,
    pub token: String,
    pub created_at: i64,
    pub expires_at: i64,
    pub is_valid: bool,
}

impl Clone for Session {
    fn clone(&self) -> (r: Self)
        ensures
            r == *self,
    {
        Session {
            id: self.id,
            user_id: self.user_id,
            token: self.token.clone(),
            created_at: self.created_at,
            expires_at: self.expires_at,
            is_valid: self.is_valid,
        }
    }
}

/// What a successful login hands back.
pub struct AuthResponse {
    pub user: UserPublic,
    pub token: String,
    pub expires_at: i64,
}

} // verus!
