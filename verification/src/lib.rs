//! Core of an authenticated bridge that turns a simple header/body request
//! into an outbound email: header extraction, sender authentication against a
//! credential registry, address validation, body composition and the mapping
//! of every failure to a caller-visible outcome.

pub mod auth;
pub mod compose;
pub mod error;
pub mod extract;
pub mod hashing;
pub mod laws;
pub mod mailbox;
pub mod pipeline;
pub mod registry;
pub mod strutil;
