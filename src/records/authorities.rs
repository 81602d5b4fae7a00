//! What a bearer token proves.

use vstd::prelude::*;
use crate::records::users::UserStore;

verus! {

/// Whether the presented token names a live session.
#[derive(PartialEq, Eq, Structural, Clone, Copy, Debug)]
pub struct Authorities {
    pub valid_token: bool,
}

impl Authorities {
    /// The authorities of `session_token`: valid exactly when a session was
    /// issued under it.
    pub fn get(store: &UserStore, session_token: &str) -> (r: Authorities)
        requires
            store.wf(),
        ensures
            r.valid_token == store.token_owner(session_token@) is Some,
    {
        let user = store.find_by_token(session_token);
        Authorities { valid_token: user.is_some() }
    }
}

} // verus!
