//! Users and the store of users and their sessions: the one read path into
//! who is who.

use vstd::prelude::*;
use crate::credentials::{email_is_valid, is_strong_password, is_valid_email, password_is_strong};
use crate::errors::{ApiError, InternalError, ValidationError};
use crate::password::{hash_password, is_hash_of, verify_outcome, verify_password};
use crate::records::session::Session;

verus! {

/// A registered user. `password` holds the salted hash, never the
/// plaintext.
#[derive(Debug)]
pub struct SimpleUser {
    pub id: i32,
    pub email: String,
    pub name: String,
    pub password: String,
    /// Seconds since the Unix epoch at which the user signed up.
    pub date: i64,
}

impl SimpleUser {
    /// A field-by-field copy.
    pub fn copy(&self) -> (r: Self)
        ensures
            r == *self,
    {
        SimpleUser {
            id: self.id,
            email: self.email.clone(),
            name: self.name.clone(),
            password: self.password.clone(),
            date: self.date,
        }
    }

    /// Looks the user up by e-mail (see [`UserStore::find_by_email`]).
    pub fn from_email(store: &UserStore, email: &str) -> (r: Option<Self>)
        requires
            store.wf(),
        ensures
            r == store.user_with_email(email@),
    {
        store.find_by_email(email)
    }

    /// Looks up the user that owns a session token (see
    /// [`UserStore::find_by_token`]).
    pub fn from_session_token(store: &UserStore, session_token: &str) -> (r: Option<Self>)
        requires
            store.wf(),
        ensures
            r == store.user_with_token(session_token@),
    {
        store.find_by_token(session_token)
    }

    /// Whether `password_to_test` is this user's password. A wrong password
    /// is `Ok(false)`; an error only says that the stored hash is damaged.
    pub fn password_matches(&self, password_to_test: &str) -> (r: Result<bool, ApiError>)
        ensures
            r == match verify_outcome(password_to_test@, self.password@) {
                Ok(m) => Ok(m),
                Err(e) => Err(ApiError::Internal(e)),
            },
    {
        match verify_password(password_to_test, self.password.as_str()) {
            Ok(m) => Ok(m),
            Err(e) => Err(ApiError::Internal(e)),
        }
    }
}

/// Validated sign-up data, with the password already hashed.
#[derive(Debug)]
pub struct NewUser {
    pub email: String,
    pub name: String,
    pub password: String,
}

/// The first rule that sign-up input breaks, the e-mail shape before the
/// password strength; `None` where it breaks neither.
pub open spec fn validation_outcome(email: Seq<char>, password: Seq<char>) -> Option<ValidationError> {
    if !is_valid_email(email) {
        Some(ValidationError::InvalidEmail)
    } else if !is_strong_password(password) {
        Some(ValidationError::WeakPassword)
    } else {
        None
    }
}

impl NewUser {
    /// Checks the e-mail shape, then the password strength, then hashes the
    /// password. The plaintext is not kept.
    pub fn new(email: &str, name: &str, password: &str) -> (r: Result<NewUser, ApiError>)
        ensures
            validation_outcome(email@, password@) matches Some(v) ==> r == Err::<NewUser, ApiError>(
                ApiError::Validation(v),
            ),
            validation_outcome(email@, password@) is None ==> match r {
                Ok(u) => u.email@ == email@ && u.name@ == name@ && is_hash_of(password@, u.password@)
                    && u.password@ != password@,
                Err(e) => e == ApiError::Internal(InternalError::HashingFailure),
            },
    {
        if !email_is_valid(email) {
            return Err(ApiError::Validation(ValidationError::InvalidEmail));
        }
        if !password_is_strong(password) {
            return Err(ApiError::Validation(ValidationError::WeakPassword));
        }
        match hash_password(password) {
            Ok(h) => {
                assert(h@[0] != password@[0]);
                Ok(NewUser { email: email.to_owned(), name: name.to_owned(), password: h })
            },
            Err(_) => Err(ApiError::Internal(InternalError::HashingFailure)),
        }
    }

    /// Stores the user under the next id, stamped with `now`. The store
    /// refuses an e-mail that is taken, or a user past the last id.
    pub fn insert(&self, store: &mut UserStore, now: i64) -> (r: Result<SimpleUser, ApiError>)
        requires
            old(store).wf(),
        ensures
            final(store).wf(),
            r == old(store).insert_outcome(self, now),
            match r {
                Ok(u) => final(store).users@ == old(store).users@.push(u)
                    && final(store).sessions@ == old(store).sessions@,
                Err(_) => *final(store) == *old(store),
            },
    {
        store.insert_user(self, now)
    }
}

/// The users and the sessions issued to them.
pub struct UserStore {
    pub users: Vec<SimpleUser>,
    pub sessions: Vec<Session>,
}

/// The largest id a user or a post can take.
pub const MAX_ID: usize = 0x7fff_ffff;

impl UserStore {
    /// Ids run from 1 in order of sign-up, e-mails and tokens are unique,
    /// and every session belongs to a stored user.
    pub open spec fn wf(&self) -> bool {
        &&& self.users@.len() <= MAX_ID
        &&& forall|i: int| 0 <= i < self.users@.len() ==> #[trigger] self.users@[i].id == i + 1
        &&& forall|i: int, j: int|
            0 <= i < self.users@.len() && 0 <= j < self.users@.len() && i != j
                ==> #[trigger] self.users@[i].email@ != #[trigger] self.users@[j].email@
        &&& forall|i: int, j: int|
            0 <= i < self.sessions@.len() && 0 <= j < self.sessions@.len() && i != j
                ==> #[trigger] self.sessions@[i].token@ != #[trigger] self.sessions@[j].token@
        &&& forall|i: int|
            0 <= i < self.sessions@.len() ==> 1 <= #[trigger] self.sessions@[i].user_id
                <= self.users@.len()
    }

    /// `later` keeps every user and every session of `self`, in place, and
    /// may hold more.
    pub open spec fn grows_into(&self, later: UserStore) -> bool {
        &&& self.users@.len() <= later.users@.len()
        &&& forall|i: int| 0 <= i < self.users@.len() ==> #[trigger] later.users@[i] == self.users@[i]
        &&& self.sessions@.len() <= later.sessions@.len()
        &&& forall|i: int|
            0 <= i < self.sessions@.len() ==> #[trigger] later.sessions@[i] == self.sessions@[i]
    }

    /// Whether a user has signed up with `email`.
    pub open spec fn has_email(&self, email: Seq<char>) -> bool {
        exists|i: int| 0 <= i < self.users@.len() && #[trigger] self.users@[i].email@ == email
    }

    /// The position of the user with `email`.
    pub open spec fn email_index(&self, email: Seq<char>) -> int {
        choose|i: int| 0 <= i < self.users@.len() && #[trigger] self.users@[i].email@ == email
    }

    /// The user with `email`, if any.
    pub open spec fn user_with_email(&self, email: Seq<char>) -> Option<SimpleUser> {
        if self.has_email(email) {
            Some(self.users@[self.email_index(email)])
        } else {
            None
        }
    }

    /// Whether a session with `token` was issued.
    pub open spec fn has_token(&self, token: Seq<char>) -> bool {
        exists|i: int| 0 <= i < self.sessions@.len() && #[trigger] self.sessions@[i].token@ == token
    }

    /// The position of the session with `token`.
    pub open spec fn token_index(&self, token: Seq<char>) -> int {
        choose|i: int| 0 <= i < self.sessions@.len() && #[trigger] self.sessions@[i].token@ == token
    }

    /// The id of the user that `token` was issued to, if any.
    pub open spec fn token_owner(&self, token: Seq<char>) -> Option<i32> {
        if self.has_token(token) {
            Some(self.sessions@[self.token_index(token)].user_id)
        } else {
            None
        }
    }

    /// The user that `token` was issued to, if any.
    pub open spec fn user_with_token(&self, token: Seq<char>) -> Option<SimpleUser> {
        match self.token_owner(token) {
            Some(id) => Some(self.users@[id - 1]),
            None => None,
        }
    }

    /// What storing `u` at time `now` gives.
    pub open spec fn insert_outcome(&self, u: &NewUser, now: i64) -> Result<SimpleUser, ApiError> {
        if self.has_email(u.email@) || self.users@.len() >= MAX_ID {
            Err(ApiError::Internal(InternalError::UserNotInserted))
        } else {
            Ok(
                SimpleUser {
                    id: (self.users@.len() + 1) as i32,
                    email: u.email,
                    name: u.name,
                    password: u.password,
                    date: now,
                },
            )
        }
    }

    /// An empty store.
    pub fn new() -> (r: Self)
        ensures
            r.wf(),
            r.users@.len() == 0,
            r.sessions@.len() == 0,
    {
        UserStore { users: Vec::new(), sessions: Vec::new() }
    }

    /// The position of the user with `email`, found by a scan.
    fn position_of_email(&self, email: &String) -> (r: Option<usize>)
        requires
            self.wf(),
        ensures
            match r {
                Some(i) => self.has_email(email@) && i == self.email_index(email@),
                None => !self.has_email(email@),
            },
    {
        let mut i: usize = 0;
        while i < self.users.len()
            invariant
                self.wf(),
                i <= self.users@.len(),
                forall|k: int| 0 <= k < i ==> #[trigger] self.users@[k].email@ != email@,
            decreases self.users@.len() - i,
        {
            if self.users[i].email == *email {
                proof {
                    let k = self.email_index(email@);
                    assert(self.users@[k].email@ == email@);
                }
                return Some(i);
            }
            i += 1;
        }
        None
    }

    /// The position of the session with `token`, found by a scan.
    pub(crate) fn position_of_token(&self, token: &String) -> (r: Option<usize>)
        requires
            self.wf(),
        ensures
            match r {
                Some(i) => self.has_token(token@) && i == self.token_index(token@),
                None => !self.has_token(token@),
            },
    {
        let mut i: usize = 0;
        while i < self.sessions.len()
            invariant
                self.wf(),
                i <= self.sessions@.len(),
                forall|k: int| 0 <= k < i ==> #[trigger] self.sessions@[k].token@ != token@,
            decreases self.sessions@.len() - i,
        {
            if self.sessions[i].token == *token {
                proof {
                    let k = self.token_index(token@);
                    assert(self.sessions@[k].token@ == token@);
                }
                return Some(i);
            }
            i += 1;
        }
        None
    }

    /// The user with `email`, if any. Not finding one is no error: the
    /// caller decides what that means.
    pub fn find_by_email(&self, email: &str) -> (r: Option<SimpleUser>)
        requires
            self.wf(),
        ensures
            r == self.user_with_email(email@),
    {
        let key = email.to_owned();
        match self.position_of_email(&key) {
            Some(i) => Some(self.users[i].copy()),
            None => None,
        }
    }

    /// The user that `token` was issued to. `None` where no session has
    /// that token.
    pub fn find_by_token(&self, token: &str) -> (r: Option<SimpleUser>)
        requires
            self.wf(),
        ensures
            r == self.user_with_token(token@),
    {
        let key = token.to_owned();
        match self.position_of_token(&key) {
            Some(i) => {
                let id = self.sessions[i].user_id;
                Some(self.users[(id - 1) as usize].copy())
            },
            None => None,
        }
    }

    /// Adds `u` as the next user, unless its e-mail is taken or the ids are
    /// used up.
    pub fn insert_user(&mut self, u: &NewUser, now: i64) -> (r: Result<SimpleUser, ApiError>)
        requires
            old(self).wf(),
        ensures
            final(self).wf(),
            r == old(self).insert_outcome(u, now),
            match r {
                Ok(v) => final(self).users@ == old(self).users@.push(v)
                    && final(self).sessions@ == old(self).sessions@,
                Err(_) => *final(self) == *old(self),
            },
    {
        if self.users.len() >= MAX_ID {
            return Err(ApiError::Internal(InternalError::UserNotInserted));
        }
        if self.position_of_email(&u.email).is_some() {
            return Err(ApiError::Internal(InternalError::UserNotInserted));
        }
        let id = (self.users.len() + 1) as i32;
        let user = SimpleUser {
            id,
            email: u.email.clone(),
            name: u.name.clone(),
            password: u.password.clone(),
            date: now,
        };
        let ghost before = *self;
        self.users.push(user.copy());
        proof {
            assert forall|i: int, j: int|
                0 <= i < self.users@.len() && 0 <= j < self.users@.len() && i != j
                    implies #[trigger] self.users@[i].email@ != #[trigger] self.users@[j].email@ by {
                if i < before.users@.len() && j < before.users@.len() {
                } else if i < before.users@.len() {
                    assert(before.users@[i].email@ != u.email@);
                } else {
                    assert(before.users@[j].email@ != u.email@);
                }
            }
            assert(forall|i: int| 0 <= i < before.users@.len() ==> self.users@[i] == before.users@[i]);
        }
        Ok(user)
    }
}

} // verus!
