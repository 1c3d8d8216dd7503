//! The session binder: which handle stands for which signed-in user.
//!
//! A handle is a random identifier. It resolves to its user from the moment
//! it is created until it is destroyed or, where a lifetime is configured,
//! until that lifetime has passed.

use std::collections::HashMap;
use vstd::prelude::*;
use crate::model::db::Session;
use crate::model::ident::{random_id, Id};
use crate::model::time::{now, Timestamp};
use crate::repository::error::Error;

verus! {

broadcast use vstd::std_specs::hash::group_hash_axioms;

/// The instant at which a session created at `created_at` expires: never,
/// where no lifetime is configured.
pub open spec fn expiry(created_at: Timestamp, ttl_secs: Option<u32>) -> Option<Timestamp> {
    match ttl_secs {
        Some(secs) => Some(created_at.later_by(secs)),
        None => None,
    }
}

/// The session that binds `handle` to `user_id` from `created_at` on.
pub open spec fn session_for(
    handle: Id,
    user_id: Id,
    created_at: Timestamp,
    ttl_secs: Option<u32>,
) -> Session {
    Session { id: handle, user_id, created_at, expires_at: expiry(created_at, ttl_secs) }
}

/// Whether `after` is `before` with `handle` bound to `user_id` from some
/// instant on.
pub open spec fn bound_in(
    before: Map<Id, Session>,
    after: Map<Id, Session>,
    handle: Id,
    user_id: Id,
    ttl_secs: Option<u32>,
) -> bool {
    exists|at: Timestamp|
        after == before.insert(handle, #[trigger] session_for(handle, user_id, at, ttl_secs))
}

/// Whether a session has expired at `at`: its expiry is set and `at` does not
/// lie before it.
pub open spec fn expired(session: Session, at: Timestamp) -> bool {
    session.expires_at matches Some(end) && !at.precedes(end)
}

/// What resolving `handle` at `at` returns: the user of the session that is
/// bound to it, or `SessionInvalid` where none is bound or the one that is
/// has expired.
pub open spec fn resolution(sessions: Map<Id, Session>, handle: Id, at: Timestamp) -> Result<
    Id,
    Error,
> {
    if sessions.contains_key(handle) && !expired(sessions[handle], at) {
        Ok(sessions[handle].user_id)
    } else {
        Err(Error::SessionInvalid)
    }
}

/// A handle that was just bound resolves to its user at every instant at
/// which the session has not expired: always where no lifetime is
/// configured, and else at every instant before the one at which the
/// lifetime ends.
pub proof fn law_bound_handle_resolves(
    sessions: Map<Id, Session>,
    handle: Id,
    user_id: Id,
    created_at: Timestamp,
    ttl_secs: Option<u32>,
    at: Timestamp,
)
    ensures
        !expired(session_for(handle, user_id, created_at, ttl_secs), at) ==> resolution(
            sessions.insert(handle, session_for(handle, user_id, created_at, ttl_secs)),
            handle,
            at,
        ) == Ok::<Id, Error>(user_id),
        ttl_secs is None ==> !expired(session_for(handle, user_id, created_at, ttl_secs), at),
        ttl_secs matches Some(secs) && at.precedes(created_at.later_by(secs)) ==> !expired(
            session_for(handle, user_id, created_at, ttl_secs),
            at,
        ),
{
}

/// A handle that was destroyed resolves to nobody, every other handle
/// resolves as before, and destroying it once more changes nothing.
pub proof fn law_destroyed_handle_is_invalid(
    sessions: Map<Id, Session>,
    handle: Id,
    other: Id,
    at: Timestamp,
)
    requires
        other != handle,
    ensures
        resolution(sessions.remove(handle), handle, at) == Err::<Id, Error>(
            Error::SessionInvalid,
        ),
        resolution(sessions.remove(handle), other, at) == resolution(sessions, other, at),
        sessions.remove(handle).remove(handle) == sessions.remove(handle),
{
    assert(sessions.remove(handle).remove(handle) =~= sessions.remove(handle));
}

/// The sessions that are bound, by handle.
pub struct SessionBinder {
    sessions: HashMap<Id, Session>,
    ttl_secs: Option<u32>,
}

impl View for SessionBinder {
    type V = Map<Id, Session>;

    closed spec fn view(&self) -> Map<Id, Session> {
        self.sessions@
    }
}

impl SessionBinder {
    /// The lifetime of a session in seconds, or `None` where a session lasts
    /// until it is destroyed.
    pub closed spec fn ttl(&self) -> Option<u32> {
        self.ttl_secs
    }

    /// A binder without sessions, whose sessions will live for `ttl_secs`
    /// seconds, or until they are destroyed where that is `None`.
    pub fn new(ttl_secs: Option<u32>) -> (r: SessionBinder)
        ensures
            r@ == Map::<Id, Session>::empty(),
            r.ttl() == ttl_secs,
    {
        SessionBinder { sessions: HashMap::new(), ttl_secs }
    }

    /// Binds a fresh random handle to `user_id`, from now on, and returns the
    /// handle. A session that the handle was bound to before is replaced.
    pub fn create(&mut self, user_id: Id) -> (handle: Id)
        ensures
            final(self).ttl() == old(self).ttl(),
            bound_in(old(self)@, final(self)@, handle, user_id, old(self).ttl()),
    {
        let handle = random_id();
        let session = self.bind(handle, user_id, now());
        assert(session == session_for(handle, user_id, session.created_at, old(self).ttl()));
        handle
    }

    /// Binds `handle` to `user_id` from `created_at` on, and returns the
    /// session. A session that the handle was bound to before is replaced.
    pub fn bind(&mut self, handle: Id, user_id: Id, created_at: Timestamp) -> (session: Session)
        ensures
            final(self).ttl() == old(self).ttl(),
            session == session_for(handle, user_id, created_at, old(self).ttl()),
            final(self)@ == old(self)@.insert(handle, session),
    {
        let expires_at = match self.ttl_secs {
            Some(secs) => Some(created_at.plus_seconds(secs)),
            None => None,
        };
        let session = Session { id: handle, user_id, created_at, expires_at };
        let _ = self.sessions.insert(handle, session);
        session
    }

    /// The user that `handle` stands for now.
    ///
    /// Fails with `SessionInvalid` when the handle is not bound, was
    /// destroyed, or has expired.
    pub fn resolve(&self, handle: Id) -> (r: Result<Id, Error>)
        ensures
            exists|at: Timestamp| r == #[trigger] resolution(self@, handle, at),
    {
        let at = now();
        let r = self.resolve_at(handle, at);
        assert(r == resolution(self@, handle, at));
        r
    }

    /// The user that `handle` stands for at `at`.
    ///
    /// Fails with `SessionInvalid` when the handle is not bound, was
    /// destroyed, or has expired at `at`.
    pub fn resolve_at(&self, handle: Id, at: Timestamp) -> (r: Result<Id, Error>)
        ensures
            r == resolution(self@, handle, at),
    {
        match self.sessions.get(&handle) {
            None => Err(Error::SessionInvalid),
            Some(session) => {
                let live = match session.expires_at {
                    Some(end) => at.is_before(&end),
                    None => true,
                };
                if live {
                    Ok(session.user_id)
                } else {
                    Err(Error::SessionInvalid)
                }
            },
        }
    }

    /// Unbinds `handle`. Unbinding a handle that is not bound changes
    /// nothing.
    pub fn destroy(&mut self, handle: Id)
        ensures
            final(self).ttl() == old(self).ttl(),
            final(self)@ == old(self)@.remove(handle),
    {
        let _ = self.sessions.remove(&handle);
    }
}

} // verus!
