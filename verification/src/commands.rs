//! The request-level operations the surrounding application calls.
//!
//! Each command resolves the caller's session token, checks the role
//! against the tier the operation demands, and only then touches state; a
//! refused request leaves no write behind, apart from the lazy invalidation
//! of a session found expired during validation. Each command reads the
//! clock once, at its start.

pub mod auth;
pub mod machines;
pub mod schedules;
pub mod users;
