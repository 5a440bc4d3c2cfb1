//! The core of a small web backend's login: checking credentials against
//! stored password hashes, throttling failed attempts, and handing a session
//! and an API token to the user who got in.
//!
//! The library decides; it does not wait. Whatever has to be fetched or stored
//! elsewhere (a row of the users table, the session's record, a token) is
//! handed to it as a plain value, and what is to be done next comes back as
//! one.
//!
//! - [`authentication`] checks a password against what the users table holds.
//! - [`throttle`] counts failed attempts and tells when the lock holds.
//! - [`login`] is a login attempt in its two halves, around the lookup.
//! - [`protocol`] states what holds of whole attempts and runs of attempts.
//! - [`admin`] finds the user of a session, the user's token, and logs out.
//! - [`tokens`] states what holds of requests for a token, alone and at once.
//! - [`session`], [`clock`], [`secret`], [`identifier`], [`flash`] and
//!   [`errors`] hold the values that these work on.
//! - [`configuration`] and [`weather`] hold the decisions of the settings and
//!   of the weather update.

pub mod admin;
pub mod authentication;
pub mod clock;
pub mod configuration;
pub mod errors;
pub mod flash;
pub mod identifier;
pub mod login;
pub mod protocol;
pub mod secret;
pub mod session;
pub mod throttle;
pub mod tokens;
pub mod weather;
