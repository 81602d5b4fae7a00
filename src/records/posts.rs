//! Posts and the store that holds them.

use vstd::prelude::*;
use crate::errors::{ApiError, InternalError};
use crate::records::users::MAX_ID;

verus! {

/// A published post.
#[derive(Debug)]
pub struct Post {
    pub id: i32,
    pub slug: String,
    pub title: String,
    pub text: String,
    pub summary: String,
    /// The id of the user who created the post.
    pub created_by: i32,
    /// Seconds since the Unix epoch at which the post was created.
    pub created_at: i64,
}

/// The posts, in order of creation.
pub struct PostStore {
    pub posts: Vec<Post>,
}

/// `p` with its title and text replaced where a new one is given.
pub open spec fn updated_post(p: Post, title: Option<String>, text: Option<String>) -> Post {
    Post {
        title: match title {
            Some(t) => t,
            None => p.title,
        },
        text: match text {
            Some(t) => t,
            None => p.text,
        },
        ..p
    }
}

impl PostStore {
    /// Ids run from 1 in order of creation.
    pub open spec fn wf(&self) -> bool {
        &&& self.posts@.len() <= MAX_ID
        &&& forall|i: int| 0 <= i < self.posts@.len() ==> #[trigger] self.posts@[i].id == i + 1
    }

    /// Whether a post with id `post_id` is stored.
    pub open spec fn has_post(&self, post_id: i32) -> bool {
        1 <= post_id <= self.posts@.len()
    }

    /// The post with id `post_id`, if any.
    pub open spec fn post_with_id(&self, post_id: i32) -> Option<Post> {
        if self.has_post(post_id) {
            Some(self.posts@[post_id - 1])
        } else {
            None
        }
    }

    /// An empty store.
    pub fn new() -> (r: Self)
        ensures
            r.wf(),
            r.posts@.len() == 0,
    {
        PostStore { posts: Vec::new() }
    }
}

impl Post {
    /// A field-by-field copy.
    pub fn copy(&self) -> (r: Self)
        ensures
            r == *self,
    {
        Post {
            id: self.id,
            slug: self.slug.clone(),
            title: self.title.clone(),
            text: self.text.clone(),
            summary: self.summary.clone(),
            created_by: self.created_by,
            created_at: self.created_at,
        }
    }

    /// Every stored post, in order of creation.
    pub fn all(store: &PostStore) -> (r: Vec<Post>)
        ensures
            r@ == store.posts@,
    {
        let mut out: Vec<Post> = Vec::new();
        let mut i: usize = 0;
        while i < store.posts.len()
            invariant
                i <= store.posts@.len(),
                out@ == store.posts@.subrange(0, i as int),
            decreases store.posts@.len() - i,
        {
            out.push(store.posts[i].copy());
            i += 1;
            assert(out@ =~= store.posts@.subrange(0, i as int));
        }
        assert(out@ =~= store.posts@);
        out
    }

    /// The post with id `post_id`, if any.
    pub fn get(store: &PostStore, post_id: i32) -> (r: Option<Post>)
        requires
            store.wf(),
        ensures
            r == store.post_with_id(post_id),
    {
        if post_id >= 1 && post_id as usize <= store.posts.len() {
            Some(store.posts[(post_id - 1) as usize].copy())
        } else {
            None
        }
    }

    /// Replaces the title and the text of post `post_id` where a new one is
    /// given. A post that does not exist is left alone; so is the author,
    /// whoever `user_id` is.
    pub fn update(
        store: &mut PostStore,
        post_id: i32,
        user_id: i32,
        title: Option<String>,
        text: Option<String>,
    )
        requires
            old(store).wf(),
        ensures
            final(store).wf(),
            old(store).has_post(post_id) ==> final(store).posts@ == old(store).posts@.update(
                post_id - 1,
                updated_post(old(store).posts@[post_id - 1], title, text),
            ),
            !old(store).has_post(post_id) ==> *final(store) == *old(store),
    {
        if post_id >= 1 && post_id as usize <= store.posts.len() {
            let i = (post_id - 1) as usize;
            let mut p = store.posts[i].copy();
            match title {
                Some(t) => {
                    p.title = t;
                },
                None => {},
            }
            match text {
                Some(t) => {
                    p.text = t;
                },
                None => {},
            }
            store.posts.set(i, p);
        }
    }
}

/// A post about to be stored.
#[derive(Debug)]
pub struct NewPost {
    pub slug: String,
    pub title: String,
    pub text: String,
    pub summary: String,
    pub created_by: i32,
}

impl NewPost {
    /// A post by `created_by` with the given fields.
    pub fn new(slug: &str, title: &str, text: &str, summary: &str, created_by: i32) -> (r: NewPost)
        ensures
            r.slug@ == slug@,
            r.title@ == title@,
            r.text@ == text@,
            r.summary@ == summary@,
            r.created_by == created_by,
    {
        NewPost {
            slug: slug.to_owned(),
            title: title.to_owned(),
            text: text.to_owned(),
            summary: summary.to_owned(),
            created_by,
        }
    }

    /// The post that storing `self` at time `now` into `store` creates.
    pub open spec fn stored(&self, store: &PostStore, now: i64) -> Post {
        Post {
            id: (store.posts@.len() + 1) as i32,
            slug: self.slug,
            title: self.title,
            text: self.text,
            summary: self.summary,
            created_by: self.created_by,
            created_at: now,
        }
    }

    /// Stores the post under the next id, stamped with `now`; refused only
    /// when the ids are used up.
    pub fn insert(&self, store: &mut PostStore, now: i64) -> (r: Result<Post, ApiError>)
        requires
            old(store).wf(),
        ensures
            final(store).wf(),
            old(store).posts@.len() < MAX_ID ==> r == Ok::<Post, ApiError>(self.stored(old(store), now))
                && final(store).posts@ == old(store).posts@.push(self.stored(old(store), now)),
            old(store).posts@.len() >= MAX_ID ==> r == Err::<Post, ApiError>(
                ApiError::Internal(InternalError::PostNotInserted),
            ) && *final(store) == *old(store),
    {
        if store.posts.len() >= MAX_ID {
            return Err(ApiError::Internal(InternalError::PostNotInserted));
        }
        let post = Post {
            id: (store.posts.len() + 1) as i32,
            slug: self.slug.clone(),
            title: self.title.clone(),
            text: self.text.clone(),
            summary: self.summary.clone(),
            created_by: self.created_by,
            created_at: now,
        };
        store.posts.push(post.copy());
        Ok(post)
    }
}

} // verus!
