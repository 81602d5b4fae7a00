//! Sessions: proof that a user signed in, named by an opaque token.

use vstd::prelude::*;
use crate::errors::{ApiError, InternalError};
use crate::records::users::UserStore;

verus! {

/// A session issued to a user. It never changes and never expires.
#[derive(Debug)]
pub struct Session {
    pub token: String,
    pub user_id: i32,
    /// Seconds since the Unix epoch at which the session was issued.
    pub issued_at: i64,
}

/// A session about to be issued. Its token is drawn by the caller from a
/// cryptographically secure random source; the store only ever accepts a
/// token once.
#[derive(Debug)]
pub struct NewSession {
    pub token: String,
}

impl UserStore {
    /// Whether the store accepts a session with `token` for `user_id`: the
    /// token is non-empty and new, and the user exists.
    pub open spec fn accepts_session(&self, token: Seq<char>, user_id: i32) -> bool {
        &&& token.len() > 0
        &&& !self.has_token(token)
        &&& 1 <= user_id <= self.users@.len()
    }

    /// Records a session for `user_id` under `token`, in one step: either
    /// the whole session is stored and `Ok` returned, or nothing changes.
    pub fn insert_session(&mut self, token: &String, user_id: i32, now: i64) -> (r: Result<(), ApiError>)
        requires
            old(self).wf(),
        ensures
            final(self).wf(),
            old(self).accepts_session(token@, user_id) ==> r is Ok && final(self).users@ == old(self).users@
                && final(self).sessions@ == old(self).sessions@.push(
                Session { token: *token, user_id, issued_at: now },
            ),
            !old(self).accepts_session(token@, user_id) ==> r == Err::<(), ApiError>(
                ApiError::Internal(InternalError::SessionNotInserted),
            ) && *final(self) == *old(self),
    {
        if token.as_str().is_empty() || user_id < 1 || user_id as usize > self.users.len() {
            return Err(ApiError::Internal(InternalError::SessionNotInserted));
        }
        if self.position_of_token(token).is_some() {
            return Err(ApiError::Internal(InternalError::SessionNotInserted));
        }
        let ghost before = *self;
        self.sessions.push(Session { token: token.clone(), user_id, issued_at: now });
        proof {
            assert forall|i: int, j: int|
                0 <= i < self.sessions@.len() && 0 <= j < self.sessions@.len() && i != j
                    implies #[trigger] self.sessions@[i].token@ != #[trigger] self.sessions@[j].token@ by {
                if i < before.sessions@.len() && j < before.sessions@.len() {
                } else if i < before.sessions@.len() {
                    assert(before.sessions@[i].token@ != token@);
                } else {
                    assert(before.sessions@[j].token@ != token@);
                }
            }
            assert(forall|i: int| 0 <= i < before.sessions@.len() ==> self.sessions@[i] == before.sessions@[i]);
        }
        Ok(())
    }
}

impl NewSession {
    /// A session about to be issued under `token`.
    pub fn make(token: String) -> (r: NewSession)
        ensures
            r.token == token,
    {
        NewSession { token }
    }

    /// Issues the session to `user_id` (see [`UserStore::insert_session`]).
    pub fn insert(&self, store: &mut UserStore, user_id: i32, now: i64) -> (r: Result<(), ApiError>)
        requires
            old(store).wf(),
        ensures
            final(store).wf(),
            old(store).accepts_session(self.token@, user_id) ==> r is Ok && final(store).users@
                == old(store).users@ && final(store).sessions@ == old(store).sessions@.push(
                Session { token: self.token, user_id, issued_at: now },
            ),
            !old(store).accepts_session(self.token@, user_id) ==> r == Err::<(), ApiError>(
                ApiError::Internal(InternalError::SessionNotInserted),
            ) && *final(store) == *old(store),
    {
        store.insert_session(&self.token, user_id, now)
    }

    /// The token to hand to the caller once the session is stored.
    pub fn get_token(&self) -> (r: String)
        ensures
            r == self.token,
    {
        self.token.clone()
    }
}

} // verus!
