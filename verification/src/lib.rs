//! Client-side credential lifecycle for a machine-to-machine profile API.
//!
//! The crate obtains a short-lived bearer token through the OAuth2
//! client-credentials grant, keeps it in a single-slot cache that elects
//! exactly one refresher per expiry, and builds the authorised requests for
//! reading, changing and deleting user profiles.
//!
//! Everything here computes on values; sending a request and waiting on a
//! lock are left to the program that drives the library.

pub mod auth;
pub mod cache;
pub mod client;
pub mod encoding;
pub mod error;
pub mod json;
pub mod jws;
pub mod settings;
pub mod url;
