use blog_core::gate::{resolve, AuthContext, AuthToken};
use blog_core::policy::{authorize, Mutation, PolicyError, UpdateRule};
use blog_core::records::users::{NewUser, UserStore};
use blog_core::errors::{ApiError, AuthorizationError, ValidationError};

#[test]
fn resolve_tokens() {
    let mut store = UserStore::new();
    NewUser { email: "a@b.c".to_string(), name: "A".to_string(), password: "h".to_string() }
        .insert(&mut store, 0)
        .unwrap();
    store.insert_session(&"tok".to_string(), 1, 0).unwrap();
    assert_eq!(resolve(&store, None), AuthContext::Anonymous);
    let good = AuthToken("tok".to_string());
    let bad = AuthToken("garbage".to_string());
    assert_eq!(resolve(&store, Some(&good)), AuthContext::Authenticated(1));
    assert_eq!(resolve(&store, Some(&bad)), AuthContext::Anonymous);
}

#[test]
fn policy_decisions() {
    let anon = AuthContext::Anonymous;
    let user = AuthContext::Authenticated(4);
    let any = UpdateRule::AnySession;
    let strict = UpdateRule::AuthorOnly;
    assert_eq!(authorize(Mutation::CreatePost, anon, any), Err(PolicyError::Unauthenticated));
    assert_eq!(authorize(Mutation::CreatePost, user, strict), Ok(4));
    let own = Mutation::UpdatePost { author: Some(4) };
    let other = Mutation::UpdatePost { author: Some(5) };
    let missing = Mutation::UpdatePost { author: None };
    assert_eq!(authorize(own, anon, any), Err(PolicyError::Unauthenticated));
    assert_eq!(authorize(other, user, any), Ok(4));
    assert_eq!(authorize(missing, user, any), Ok(4));
    assert_eq!(authorize(own, user, strict), Ok(4));
    assert_eq!(authorize(other, user, strict), Err(PolicyError::NotAuthor));
    assert_eq!(authorize(missing, user, strict), Err(PolicyError::NotAuthor));
}

#[test]
fn error_messages() {
    assert_eq!(
        ApiError::Authentication.message(),
        "The email and password combination failed."
    );
    assert_eq!(ApiError::Validation(ValidationError::InvalidEmail).message(), "Email is not valid.");
    assert_eq!(
        ApiError::Validation(ValidationError::WeakPassword).message(),
        "Password is not secure enough."
    );
    assert_eq!(
        ApiError::Authorization(AuthorizationError::NoSessionToken).message(),
        "No session token found."
    );
    assert_eq!(
        ApiError::Authorization(AuthorizationError::SessionNotFound).message(),
        "The user session doesn't exist."
    );
}
