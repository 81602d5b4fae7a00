//! Properties that hold across several operations.

use vstd::prelude::*;
use crate::errors::ApiError;
use crate::gate::{context_of, AuthContext, AuthToken};
use crate::password::bcrypt_verdict;
use crate::policy::{PolicyError, UpdateRule};
use crate::records::users::UserStore;
use crate::schema::authorization::{sign_in_outcome, signed_in, signed_up, token_is_valid};
use crate::schema::posts::{author_of, update_decision};
use crate::schema::Blog;

verus! {

/// After a sign-up with an e-mail and a password, signing in with the same
/// two succeeds and issues the fresh token; signing in with a password that
/// the stored hash rejects fails with the one generic authentication error.
pub proof fn law_sign_up_then_sign_in(
    before: UserStore,
    after: UserStore,
    email: Seq<char>,
    name: Seq<char>,
    password: Seq<char>,
    now: i64,
    token: String,
    wrong_password: Seq<char>,
)
    requires
        after.wf(),
        signed_up(before, after, email, name, password, now),
        token@.len() > 0,
        !after.has_token(token@),
    ensures
        sign_in_outcome(after, email, password, token) == Ok::<String, ApiError>(token),
        bcrypt_verdict(wrong_password, after.users@.last().password@) == Some(false)
            ==> sign_in_outcome(after, email, wrong_password, token) == Err::<String, ApiError>(
            ApiError::Authentication,
        ),
{
    let last = after.users@.len() - 1;
    assert(after.users@[last].email@ == email);
    assert(after.has_email(email));
    let k = after.email_index(email);
    assert(k == last);
}

/// A token stays valid, and keeps its user, for as long as the store only
/// grows, which every operation ensures: sessions never expire.
pub proof fn law_issued_token_stays_valid(before: UserStore, after: UserStore, token: Seq<char>)
    requires
        before.wf(),
        after.wf(),
        before.grows_into(after),
        before.token_owner(token) is Some,
    ensures
        after.token_owner(token) == before.token_owner(token),
{
    let i = before.token_index(token);
    assert(after.sessions@[i].token@ == token);
    let j = after.token_index(token);
    assert(j == i);
}

/// A token that no session has is not valid, whatever it holds.
pub proof fn law_unknown_token_is_invalid(users: UserStore, token: Option<&AuthToken>)
    requires
        users.wf(),
        token matches Some(t) ==> !users.has_token(t.0@),
    ensures
        !token_is_valid(users, token),
{
}

/// Two successive sign-ins of the same user issue two different tokens,
/// and afterwards both name a session of that user.
pub proof fn law_two_sign_ins(
    s0: UserStore,
    s1: UserStore,
    s2: UserStore,
    email: Seq<char>,
    password1: Seq<char>,
    password2: Seq<char>,
    token1: String,
    token2: String,
    now1: i64,
    now2: i64,
)
    requires
        s0.wf(),
        s1.wf(),
        s2.wf(),
        sign_in_outcome(s0, email, password1, token1) is Ok,
        signed_in(s0, s1, email, token1, now1),
        sign_in_outcome(s1, email, password2, token2) is Ok,
        signed_in(s1, s2, email, token2, now2),
    ensures
        token1@ != token2@,
        s2.token_owner(token1@) is Some,
        s2.token_owner(token1@) == s2.token_owner(token2@),
{
    let n1 = s1.sessions@.len() - 1;
    assert(s1.sessions@[n1].token@ == token1@);
    assert(s1.has_token(token1@));
    assert(s2.sessions@[n1].token@ == token1@);
    let n2 = s2.sessions@.len() - 1;
    assert(s2.sessions@[n2].token@ == token2@);
    assert(s2.token_index(token1@) == n1);
    assert(s2.token_index(token2@) == n2);
    assert(s1.email_index(email) == s0.email_index(email));
}

/// Under the rule the system has always had, any signed-in user may update
/// any post, whoever wrote it; under the stricter rule only its author may.
pub proof fn law_update_needs_only_a_session(
    blog: Blog,
    token: Option<&AuthToken>,
    user_id: i32,
    post_id: i32,
)
    requires
        blog.wf(),
        context_of(&blog.users, token) == AuthContext::Authenticated(user_id),
    ensures
        blog.update_rule == UpdateRule::AnySession ==> update_decision(&blog, token, post_id)
            == Ok::<i32, PolicyError>(user_id),
        blog.update_rule == UpdateRule::AuthorOnly ==> update_decision(&blog, token, post_id) == if author_of(
            blog.posts,
            post_id,
        ) == Some(user_id) {
            Ok::<i32, PolicyError>(user_id)
        } else {
            Err::<i32, PolicyError>(PolicyError::NotAuthor)
        },
{
}

} // verus!
