//! Signing up, signing in, and asking what a token proves.

use vstd::prelude::*;
use crate::errors::{ApiError, InternalError};
use crate::gate::AuthToken;
use crate::password::{is_hash_of, verify_outcome};
use crate::records::authorities::Authorities;
use crate::records::session::{NewSession, Session};
use crate::records::users::{validation_outcome, NewUser, SimpleUser, UserStore, MAX_ID};
use crate::schema::Blog;

verus! {

/// `after` is `before` with one new user appended: the next id, the given
/// e-mail, name and time, and a hash of `password` in place of the password.
pub open spec fn signed_up(
    before: UserStore,
    after: UserStore,
    email: Seq<char>,
    name: Seq<char>,
    password: Seq<char>,
    now: i64,
) -> bool {
    &&& !before.has_email(email)
    &&& after.sessions@ == before.sessions@
    &&& after.users@.len() == before.users@.len() + 1
    &&& after.users@.drop_last() == before.users@
    &&& after.users@.last().id == before.users@.len() + 1
    &&& after.users@.last().email@ == email
    &&& after.users@.last().name@ == name
    &&& after.users@.last().date == now
    &&& is_hash_of(password, after.users@.last().password@)
    &&& after.users@.last().password@ != password
}

/// `after` is `before` with one session appended: issued at `now` under
/// `token` to the user with `email`.
pub open spec fn signed_in(before: UserStore, after: UserStore, email: Seq<char>, token: String, now: i64) -> bool {
    &&& before.has_email(email)
    &&& after.users@ == before.users@
    &&& after.sessions@ == before.sessions@.push(
        Session { token, user_id: before.users@[before.email_index(email)].id, issued_at: now },
    )
}

/// What signing in to `users` as `email` with `password` gives, where
/// `token` is the freshly drawn session token: the token, once the password
/// matches and the store accepts the session; the one generic
/// authentication error for an unknown e-mail or a wrong password.
pub open spec fn sign_in_outcome(
    users: UserStore,
    email: Seq<char>,
    password: Seq<char>,
    token: String,
) -> Result<String, ApiError> {
    match users.user_with_email(email) {
        None => Err(ApiError::Authentication),
        Some(u) => match verify_outcome(password, u.password@) {
            Err(e) => Err(ApiError::Internal(e)),
            Ok(false) => Err(ApiError::Authentication),
            Ok(true) => if users.accepts_session(token@, u.id) {
                Ok(token)
            } else {
                Err(ApiError::Internal(InternalError::SessionNotInserted))
            },
        },
    }
}

/// Whether `token` names a live session of `users`.
pub open spec fn token_is_valid(users: UserStore, token: Option<&AuthToken>) -> bool {
    match token {
        Some(t) => users.token_owner(t.0@) is Some,
        None => false,
    }
}

/// What the bearer token of the operation proves: `valid_token` holds
/// exactly when it names a session.
pub fn get(blog: &Blog, token: Option<&AuthToken>) -> (r: Authorities)
    requires
        blog.wf(),
    ensures
        r.valid_token == token_is_valid(blog.users, token),
{
    match token {
        Some(t) => Authorities::get(&blog.users, t.0.as_str()),
        None => Authorities { valid_token: false },
    }
}

/// Registers a user: the e-mail must have the shape of an address, the
/// password must be strong, and the e-mail must not be taken. Answers "OK".
pub fn sign_up(blog: &mut Blog, email: &str, name: &str, password: &str, now: i64) -> (r: Result<
    &'static str,
    ApiError,
>)
    requires
        old(blog).wf(),
    ensures
        final(blog).wf(),
        final(blog).posts == old(blog).posts,
        final(blog).settings == old(blog).settings,
        final(blog).update_rule == old(blog).update_rule,
        old(blog).users.grows_into(final(blog).users),
        validation_outcome(email@, password@) matches Some(v) ==> r == Err::<&'static str, ApiError>(
            ApiError::Validation(v),
        ) && final(blog).users == old(blog).users,
        validation_outcome(email@, password@) is None ==> match r {
            Ok(s) => s@ == "OK"@ && signed_up(
                old(blog).users,
                final(blog).users,
                email@,
                name@,
                password@,
                now,
            ),
            Err(e) => final(blog).users == old(blog).users && (e == ApiError::Internal(
                InternalError::HashingFailure,
            ) || (e == ApiError::Internal(InternalError::UserNotInserted) && (old(blog).users.has_email(email@) || old(blog).users.users@.len() >= MAX_ID))),
        },
        validation_outcome(email@, password@) is None && !old(blog).users.has_email(email@) && old(blog).users.users@.len() < MAX_ID ==> r is Ok || r == Err::<&'static str, ApiError>(
            ApiError::Internal(InternalError::HashingFailure),
        ),
{
    let new_user = NewUser::new(email, name, password)?;
    let ghost before = blog.users;
    new_user.insert(&mut blog.users, now)?;
    assert(blog.users.users@.drop_last() =~= before.users@);
    Ok("OK")
}

/// Signs in as `email` with `password`. On success a session is issued
/// under `fresh_token`, which the caller drew from a secure random source,
/// and that token is returned. The session is stored before the token is
/// handed out, and nothing is stored on failure.
pub fn sign_in(blog: &mut Blog, email: &str, password: &str, fresh_token: String, now: i64) -> (r:
    Result<String, ApiError>)
    requires
        old(blog).wf(),
    ensures
        final(blog).wf(),
        final(blog).posts == old(blog).posts,
        final(blog).settings == old(blog).settings,
        final(blog).update_rule == old(blog).update_rule,
        old(blog).users.grows_into(final(blog).users),
        r == sign_in_outcome(old(blog).users, email@, password@, fresh_token),
        match r {
            Ok(_) => signed_in(old(blog).users, final(blog).users, email@, fresh_token, now),
            Err(_) => final(blog).users == old(blog).users,
        },
{
    let user = match SimpleUser::from_email(&blog.users, email) {
        Some(u) => u,
        None => {
            return Err(ApiError::Authentication);
        },
    };
    if !user.password_matches(password)? {
        return Err(ApiError::Authentication);
    }
    let user_session = NewSession::make(fresh_token);
    user_session.insert(&mut blog.users, user.id, now)?;
    Ok(user_session.get_token())
}

} // verus!
