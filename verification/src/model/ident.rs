//! Identifiers of users, lists, tasks and sessions.

use vstd::prelude::*;

verus! {

/// An identifier: the 128 bits of a UUID.
pub type Id = u128;

/// Draws a fresh random identifier.
///
/// Calls `uuid::Uuid::new_v4` and packs the bytes into an integer with
/// `Uuid::as_u128`. The value comes from the operating system's random
/// source, so nothing is promised of it.
#[verifier::external_body]
pub(crate) fn random_id() -> (id: Id) {
    uuid::Uuid::new_v4().as_u128()
}

} // verus!
