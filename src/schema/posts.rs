//! Reading posts, and the two gated writes: creating and updating a post.

use vstd::prelude::*;
use crate::errors::{ApiError, AuthorizationError, InternalError};
use crate::gate::{context_of, resolve, AuthContext, AuthToken};
use crate::policy::{authorize, policy_outcome, Mutation, PolicyError};
use crate::records::posts::{updated_post, NewPost, Post, PostStore};
use crate::records::users::MAX_ID;
use crate::schema::Blog;

verus! {

/// The error that an operation which needs a user reports for a token that
/// gives none: no token at all, or one that names no session.
pub open spec fn unauthenticated_error(token: Option<&AuthToken>) -> ApiError {
    match token {
        None => ApiError::Authorization(AuthorizationError::NoSessionToken),
        Some(_) => ApiError::Authorization(AuthorizationError::SessionNotFound),
    }
}

fn unauthenticated(token: Option<&AuthToken>) -> (r: ApiError)
    ensures
        r == unauthenticated_error(token),
{
    match token {
        None => ApiError::Authorization(AuthorizationError::NoSessionToken),
        Some(_) => ApiError::Authorization(AuthorizationError::SessionNotFound),
    }
}

/// The author of post `post_id`, if there is such a post.
pub open spec fn author_of(posts: PostStore, post_id: i32) -> Option<i32> {
    match posts.post_with_id(post_id) {
        Some(p) => Some(p.created_by),
        None => None,
    }
}

/// What the policy decides for an update of post `post_id` with `token`.
pub open spec fn update_decision(blog: &Blog, token: Option<&AuthToken>, post_id: i32) -> Result<
    i32,
    PolicyError,
> {
    policy_outcome(
        Mutation::UpdatePost { author: author_of(blog.posts, post_id) },
        context_of(&blog.users, token),
        blog.update_rule,
    )
}

/// Every post, in order of creation.
pub fn get_all(blog: &Blog) -> (r: Vec<Post>)
    ensures
        r@ == blog.posts.posts@,
{
    Post::all(&blog.posts)
}

/// The post with id `post_id`, if any.
pub fn get(blog: &Blog, post_id: i32) -> (r: Option<Post>)
    requires
        blog.wf(),
    ensures
        r == blog.posts.post_with_id(post_id),
{
    Post::get(&blog.posts, post_id)
}

/// Creates a post authored by the user that `token` names. Without such a
/// user nothing is stored and an authorization error is returned.
pub fn new(
    blog: &mut Blog,
    token: Option<&AuthToken>,
    slug: &str,
    title: &str,
    text: &str,
    summary: &str,
    now: i64,
) -> (r: Result<Post, ApiError>)
    requires
        old(blog).wf(),
    ensures
        final(blog).wf(),
        final(blog).users == old(blog).users,
        final(blog).settings == old(blog).settings,
        final(blog).update_rule == old(blog).update_rule,
        context_of(&old(blog).users, token) is Anonymous ==> r == Err::<Post, ApiError>(
            unauthenticated_error(token),
        ) && final(blog).posts == old(blog).posts,
        context_of(&old(blog).users, token) matches AuthContext::Authenticated(id) ==> if old(blog).posts.posts@.len() < MAX_ID {
            r matches Ok(p) && p.id == old(blog).posts.posts@.len() + 1 && p.slug@ == slug@
                && p.title@ == title@ && p.text@ == text@ && p.summary@ == summary@
                && p.created_by == id && p.created_at == now && final(blog).posts.posts@ == old(blog).posts.posts@.push(p)
        } else {
            r == Err::<Post, ApiError>(ApiError::Internal(InternalError::PostNotInserted))
                && final(blog).posts == old(blog).posts
        },
{
    let ctx = resolve(&blog.users, token);
    let user_id = match authorize(Mutation::CreatePost, ctx, blog.update_rule) {
        Ok(id) => id,
        Err(_) => {
            return Err(unauthenticated(token));
        },
    };
    let new_post = NewPost::new(slug, title, text, summary, user_id);
    new_post.insert(&mut blog.posts, now)
}

/// Replaces the title and the text of post `post_id` where new ones are
/// given, on behalf of the user that `token` names, as far as the update
/// rule in force lets that user. Answers "Updated!", also where no post has
/// that id.
pub fn update(
    blog: &mut Blog,
    token: Option<&AuthToken>,
    post_id: i32,
    title: Option<String>,
    text: Option<String>,
) -> (r: Result<&'static str, ApiError>)
    requires
        old(blog).wf(),
    ensures
        final(blog).wf(),
        final(blog).users == old(blog).users,
        final(blog).settings == old(blog).settings,
        final(blog).update_rule == old(blog).update_rule,
        match update_decision(old(blog), token, post_id) {
            Ok(_) => r matches Ok(s) && s@ == "Updated!"@ && (old(blog).posts.has_post(post_id)
                ==> final(blog).posts.posts@ == old(blog).posts.posts@.update(
                post_id - 1,
                updated_post(old(blog).posts.posts@[post_id - 1], title, text),
            )) && (!old(blog).posts.has_post(post_id) ==> final(blog).posts == old(blog).posts),
            Err(PolicyError::Unauthenticated) => r == Err::<&'static str, ApiError>(
                unauthenticated_error(token),
            ) && final(blog).posts == old(blog).posts,
            Err(PolicyError::NotAuthor) => r == Err::<&'static str, ApiError>(
                ApiError::Authorization(AuthorizationError::NotAuthor),
            ) && final(blog).posts == old(blog).posts,
        },
{
    let ctx = resolve(&blog.users, token);
    let author = match Post::get(&blog.posts, post_id) {
        Some(p) => Some(p.created_by),
        None => None,
    };
    match authorize(Mutation::UpdatePost { author }, ctx, blog.update_rule) {
        Ok(user_id) => {
            Post::update(&mut blog.posts, post_id, user_id, title, text);
            Ok("Updated!")
        },
        Err(PolicyError::Unauthenticated) => Err(unauthenticated(token)),
        Err(PolicyError::NotAuthor) => Err(ApiError::Authorization(AuthorizationError::NotAuthor)),
    }
}

} // verus!
