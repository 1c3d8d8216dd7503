//! The values the service works with: identifiers, instants and records.

pub mod db;
pub mod ident;
pub mod list;
pub mod task;
pub mod time;
pub mod user;

pub use list::List;
pub use task::Task;
pub use user::User;
