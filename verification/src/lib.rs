//! The persistence core of a personal task-list service.
//!
//! Users own lists and lists own tasks. Every operation that reads or changes
//! a row is scoped by the identity on whose behalf it runs, lists are removed
//! by marking them deleted, and passwords are kept only as Argon2 hashes.
//! The tables live in memory behind [`repository::store::Store`]; a transport
//! layer resolves a session to an identity and then calls in here.

pub mod model;
pub mod repository;
pub mod server;
pub mod session;
pub mod util;
