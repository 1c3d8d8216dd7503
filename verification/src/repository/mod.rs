//! The tables and the operations on them, each scoped by the acting user.

pub mod error;
pub mod laws;
pub mod list;
pub mod repository;
pub mod store;
pub mod tables;
pub mod task;
pub mod user;
pub mod validity;

pub use error::Error;
pub use repository::Repository;
