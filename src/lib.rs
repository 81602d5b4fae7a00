//! Session-based authentication and authorization core of a small publishing
//! backend: credential rules, password hashing, a user and session directory,
//! the per-request authorization gate, and the post and settings stores that
//! the gated operations write to.

pub mod credentials;
pub mod errors;
pub mod password;
pub mod records;
pub mod gate;
pub mod policy;
pub mod schema;
pub mod laws;
