//! The mutation policy: which identities may perform which write.

use vstd::prelude::*;
use crate::gate::AuthContext;

verus! {

/// A write that needs an authenticated user.
#[derive(PartialEq, Eq, Structural, Clone, Copy, Debug)]
pub enum Mutation {
    CreatePost,
    /// An update of a post whose author is `author` (`None`: no such post).
    UpdatePost { author: Option<i32> },
}

/// Who may update a post.
#[derive(PartialEq, Eq, Structural, Clone, Copy, Debug)]
pub enum UpdateRule {
    /// Any signed-in user may update any post. This is the behaviour the
    /// system has always had; it does not check authorship.
    AnySession,
    /// Only the author of a post may update it.
    AuthorOnly,
}

/// Why the policy refused a write.
#[derive(PartialEq, Eq, Structural, Clone, Copy, Debug)]
pub enum PolicyError {
    Unauthenticated,
    NotAuthor,
}

/// What the policy decides for `op` by `ctx` under `rule`: the id of the
/// user the write acts for, or why it is refused.
pub open spec fn policy_outcome(op: Mutation, ctx: AuthContext, rule: UpdateRule) -> Result<
    i32,
    PolicyError,
> {
    match ctx {
        AuthContext::Anonymous => Err(PolicyError::Unauthenticated),
        AuthContext::Authenticated(id) => match op {
            Mutation::CreatePost => Ok(id),
            Mutation::UpdatePost { author } => match rule {
                UpdateRule::AnySession => Ok(id),
                UpdateRule::AuthorOnly => if author == Some(id) {
                    Ok(id)
                } else {
                    Err(PolicyError::NotAuthor)
                },
            },
        },
    }
}

/// Decides whether `ctx` may perform `op` under `rule`, and on whose behalf.
pub fn authorize(op: Mutation, ctx: AuthContext, rule: UpdateRule) -> (r: Result<i32, PolicyError>)
    ensures
        r == policy_outcome(op, ctx, rule),
{
    match ctx {
        AuthContext::Anonymous => Err(PolicyError::Unauthenticated),
        AuthContext::Authenticated(id) => match op {
            Mutation::CreatePost => Ok(id),
            Mutation::UpdatePost { author } => match rule {
                UpdateRule::AnySession => Ok(id),
                UpdateRule::AuthorOnly => match author {
                    Some(a) => if a == id {
                        Ok(id)
                    } else {
                        Err(PolicyError::NotAuthor)
                    },
                    None => Err(PolicyError::NotAuthor),
                },
            },
        },
    }
}

} // verus!
