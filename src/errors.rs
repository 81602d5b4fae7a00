//! The errors that an operation reports to its caller.

use vstd::prelude::*;

verus! {

/// Input that the caller can correct.
#[derive(PartialEq, Eq, Structural, Clone, Copy, Debug)]
pub enum ValidationError {
    InvalidEmail,
    WeakPassword,
}

/// A gated operation that arrived without a usable session.
#[derive(PartialEq, Eq, Structural, Clone, Copy, Debug)]
pub enum AuthorizationError {
    /// No bearer token came with the operation.
    NoSessionToken,
    /// The bearer token names no session.
    SessionNotFound,
    /// The rule in force lets only a post's author change it.
    NotAuthor,
}

/// A failure of the system rather than of the caller.
#[derive(PartialEq, Eq, Structural, Clone, Copy, Debug)]
pub enum InternalError {
    /// The password hash could not be computed.
    HashingFailure,
    /// A stored password hash could not be read.
    VerificationFailure,
    /// The user store refused the new user (its e-mail is taken, or the
    /// store is full).
    UserNotInserted,
    /// The session store refused the new session (its token is taken, or
    /// the store is full).
    SessionNotInserted,
    /// The post store refused the new post (the store is full).
    PostNotInserted,
    /// The settings store refused the new setting (the store is full).
    SettingNotInserted,
}

/// Everything an operation can fail with.
#[derive(PartialEq, Eq, Structural, Clone, Copy, Debug)]
pub enum ApiError {
    Validation(ValidationError),
    /// The e-mail and password do not belong together. Which of the two was
    /// wrong is deliberately not said.
    Authentication,
    Authorization(AuthorizationError),
    Internal(InternalError),
}

/// The text shown to the caller for each error.
pub open spec fn message_of(e: ApiError) -> Seq<char> {
    match e {
        ApiError::Validation(ValidationError::InvalidEmail) => "Email is not valid."@,
        ApiError::Validation(ValidationError::WeakPassword) => "Password is not secure enough."@,
        ApiError::Authentication => "The email and password combination failed."@,
        ApiError::Authorization(AuthorizationError::NoSessionToken) => "No session token found."@,
        ApiError::Authorization(AuthorizationError::SessionNotFound) => "The user session doesn't exist."@,
        ApiError::Authorization(AuthorizationError::NotAuthor) => "Only the author may change this post."@,
        ApiError::Internal(_) => "Internal error."@,
    }
}

impl ApiError {
    /// The text shown to the caller. Internal errors all read alike, so
    /// that nothing of the system's state leaks out.
    pub fn message(&self) -> (r: &'static str)
        ensures
            r@ == message_of(*self),
    {
        match self {
            ApiError::Validation(ValidationError::InvalidEmail) => "Email is not valid.",
            ApiError::Validation(ValidationError::WeakPassword) => "Password is not secure enough.",
            ApiError::Authentication => "The email and password combination failed.",
            ApiError::Authorization(AuthorizationError::NoSessionToken) => "No session token found.",
            ApiError::Authorization(AuthorizationError::SessionNotFound) => "The user session doesn't exist.",
            ApiError::Authorization(AuthorizationError::NotAuthor) => "Only the author may change this post.",
            ApiError::Internal(_) => "Internal error.",
        }
    }
}

} // verus!
