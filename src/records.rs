//! The stored records and the stores that hold them.

pub mod authorities;
pub mod posts;
pub mod session;
pub mod settings;
pub mod users;
