//! Bearer-token sessions for an HTTP service: signed, time-bound tokens,
//! their verification on every protected request, and early revocation
//! through a server-side store of revoked tokens.
//!
//! - [`auth`] holds the claims, the token codec, the session service and
//!   the guard that stands before protected requests, with the laws that
//!   hold of them together.
//! - [`state`] holds the signing secret and the store of revoked tokens.
//! - [`user`] holds the record of a user.
//!
//! The library owns its state and takes it by reference: a service that
//! shares it among requests keeps it behind a lock, and holds the lock for
//! one call at a time.

pub mod auth;
pub mod state;
pub mod user;

mod text;
