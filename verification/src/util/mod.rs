//! Helpers that the records and the store share.

pub mod password_hash;
pub mod phc;
