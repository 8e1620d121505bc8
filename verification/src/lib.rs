//! Session-based authentication and role authorization for a small shop backend.
//!
//! The crate holds the decisions of the login path, of bearer-session
//! resolution and of administrator access, each with a contract over a
//! mathematical model of its data. Storage and transport stay with the caller,
//! who performs the lookups that the step functions ask for.

pub mod admin;
pub mod auth;
pub mod bearer;
pub mod error;
pub mod login;
pub mod models;
pub mod resolver;
pub mod session;
pub mod text;
pub mod upload;
