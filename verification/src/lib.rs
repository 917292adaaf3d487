//! Core of a social posting backend: field validation, the uniform
//! success/fail/error response envelope, the error taxonomy with its HTTP
//! status mapping, an in-memory model of the relational data (users,
//! profiles, posts, comments, reactions) with its invariants, a session
//! store model, and the per-endpoint handler logic, all verified.
//!
//! Network transport, the real database, and the real session store are
//! collaborators of the surrounding application; this crate holds the
//! decisions and the data rules.

pub mod auth_handlers;
pub mod comment_handlers;
pub mod crypto;
pub mod error_handlers;
pub mod errors;
pub mod ids;
pub mod model;
pub mod post_handlers;
pub mod profile_handlers;
pub mod response;
pub mod schema;
pub mod session;
pub mod session_auth;
pub mod store;
pub mod text;
pub mod user_handlers;
pub mod validation;
