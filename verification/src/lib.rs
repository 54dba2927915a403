//! Verified core of a shop-floor planning application: session-based
//! authentication, role authorization, and weekly schedule aggregation
//! over an in-memory store of users, sessions, machines and schedule
//! entries.
//!
//! Conventions, chosen so every contract is exact:
//! - timestamps are unix seconds, and every operation takes its clock
//!   reading as a plain argument or reads it once at its start;
//! - calendar dates are year, month and day of the proleptic Gregorian
//!   calendar, years 1 through 9999, with verified arithmetic in
//!   [`dates`];
//! - hours are hundredths of an hour, so day and week totals are exact
//!   integer sums;
//! - passwords are hashed and checked by the bcrypt backend behind the
//!   trusted items in [`auth`], and session tokens come from the system's
//!   randomness.

pub mod auth;
pub mod commands;
pub mod dates;
pub mod error;
pub mod laws;
pub mod machines;
pub mod roles;
pub mod schedule;
pub mod store;
pub mod users;
