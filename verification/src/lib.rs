//! Authentication and authorization core of a small REST service: password
//! hashing, signed time-bounded tokens, the registration and login decisions,
//! the request guard, and the error bodies that every failure is reported with.
//!
//! Everything in this crate is verified with Verus. Calls into other crates
//! stand behind small wrappers whose contracts are assumed; each says so in
//! its documentation.

pub mod auth_service;
pub mod claims;
pub mod clock;
pub mod entropy;
pub mod error;
pub mod guard;
pub mod hasher;
pub mod model;
pub mod request;
pub mod text;
pub mod user_service;
pub mod validation;
