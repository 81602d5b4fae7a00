//! The authorization gate: who, if anyone, an operation acts for.

use vstd::prelude::*;
use crate::records::users::UserStore;

verus! {

/// The opaque bearer token that came with an operation.
#[derive(Debug)]
pub struct AuthToken(pub String);

/// The identity an operation acts for, derived afresh from its bearer token
/// on every operation and never kept.
#[derive(PartialEq, Eq, Structural, Clone, Copy, Debug)]
pub enum AuthContext {
    Anonymous,
    Authenticated(i32),
}

/// The identity that `token` gives against `store`.
pub open spec fn context_of(store: &UserStore, token: Option<&AuthToken>) -> AuthContext {
    match token {
        None => AuthContext::Anonymous,
        Some(t) => match store.token_owner(t.0@) {
            Some(id) => AuthContext::Authenticated(id),
            None => AuthContext::Anonymous,
        },
    }
}

/// Resolves the bearer token of an operation: no token, or one that names
/// no session, is anonymous; a token of a session acts for its user.
pub fn resolve(store: &UserStore, token: Option<&AuthToken>) -> (r: AuthContext)
    requires
        store.wf(),
    ensures
        r == context_of(store, token),
        r matches AuthContext::Authenticated(id) ==> 1 <= id <= store.users@.len(),
{
    match token {
        None => AuthContext::Anonymous,
        Some(t) => match store.find_by_token(t.0.as_str()) {
            Some(u) => {
                proof {
                    let i = store.token_index(t.0@);
                    assert(1 <= store.sessions@[i].user_id <= store.users@.len());
                }
                AuthContext::Authenticated(u.id)
            },
            None => AuthContext::Anonymous,
        },
    }
}

} // verus!
