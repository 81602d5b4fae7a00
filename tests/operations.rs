use blog_core::errors::{ApiError, AuthorizationError, InternalError, ValidationError};
use blog_core::gate::AuthToken;
use blog_core::policy::UpdateRule;
use blog_core::schema::authorization::{get, sign_in, sign_up};
use blog_core::schema::posts;
use blog_core::schema::settings;
use blog_core::schema::Blog;

fn blog_with_alice() -> Blog {
    let mut blog = Blog::new(UpdateRule::AnySession);
    assert_eq!(sign_up(&mut blog, "alice@example.com", "Alice", "password123", 1000), Ok("OK"));
    blog
}

#[test]
fn example_scenario() {
    let mut blog = blog_with_alice();
    let t = sign_in(&mut blog, "alice@example.com", "password123", "T-1".to_string(), 1001).unwrap();
    assert_eq!(t, "T-1");
    let token = AuthToken(t);
    assert!(get(&blog, Some(&token)).valid_token);
    let post = posts::new(&mut blog, Some(&token), "hello", "Hello", "body", "summary", 1002).unwrap();
    assert_eq!(post.id, 1);
    assert_eq!(post.created_at, 1002);
    assert_eq!(post.slug, "hello");
    assert_eq!(post.title, "Hello");
    assert_eq!(post.text, "body");
    assert_eq!(post.summary, "summary");
    assert_eq!(post.created_by, 1);
    assert_eq!(posts::get_all(&blog).len(), 1);
}

#[test]
fn sign_up_then_sign_in_and_wrong_password() {
    let mut blog = blog_with_alice();
    let user = &blog.users.users[0];
    assert_eq!(user.email, "alice@example.com");
    assert_eq!(user.name, "Alice");
    assert_ne!(user.password, "password123");
    assert_eq!(
        sign_in(&mut blog, "alice@example.com", "password124", "T-1".to_string(), 1),
        Err(ApiError::Authentication)
    );
    assert!(blog.users.sessions.is_empty());
    let t = sign_in(&mut blog, "alice@example.com", "password123", "T-1".to_string(), 2).unwrap();
    assert!(!t.is_empty());
}

#[test]
fn unknown_email_gives_the_same_error() {
    let mut blog = Blog::new(UpdateRule::AnySession);
    assert_eq!(
        sign_in(&mut blog, "nobody@example.com", "password123", "T".to_string(), 0),
        Err(ApiError::Authentication)
    );
}

#[test]
fn sign_up_validation_errors() {
    let mut blog = Blog::new(UpdateRule::AnySession);
    assert_eq!(
        sign_up(&mut blog, "not-an-email", "Bob", "password123", 0),
        Err(ApiError::Validation(ValidationError::InvalidEmail))
    );
    assert_eq!(
        sign_up(&mut blog, "not-an-email", "Bob", "short", 0),
        Err(ApiError::Validation(ValidationError::InvalidEmail))
    );
    assert_eq!(
        sign_up(&mut blog, "bob@example.com", "Bob", "short", 0),
        Err(ApiError::Validation(ValidationError::WeakPassword))
    );
    assert_eq!(
        sign_up(&mut blog, "bob@example.com", "Bob", "with space", 0),
        Err(ApiError::Validation(ValidationError::WeakPassword))
    );
    assert!(blog.users.users.is_empty());
}

#[test]
fn sign_up_with_a_taken_email() {
    let mut blog = blog_with_alice();
    assert_eq!(
        sign_up(&mut blog, "alice@example.com", "Other", "password456", 5),
        Err(ApiError::Internal(InternalError::UserNotInserted))
    );
    assert_eq!(blog.users.users.len(), 1);
}

#[test]
fn current_authority() {
    let mut blog = blog_with_alice();
    assert!(!get(&blog, None).valid_token);
    assert!(!get(&blog, Some(&AuthToken("garbage".to_string()))).valid_token);
    let t = sign_in(&mut blog, "alice@example.com", "password123", "tok".to_string(), 3).unwrap();
    assert!(get(&blog, Some(&AuthToken(t.clone()))).valid_token);
    settings::add(&mut blog, "title", "Blog", 4).unwrap();
    posts::new(&mut blog, Some(&AuthToken(t.clone())), "s", "T", "x", "y", 5).unwrap();
    assert!(get(&blog, Some(&AuthToken(t))).valid_token);
}

#[test]
fn two_sign_ins_give_two_valid_tokens() {
    let mut blog = blog_with_alice();
    let a = sign_in(&mut blog, "alice@example.com", "password123", "first".to_string(), 1).unwrap();
    assert_eq!(
        sign_in(&mut blog, "alice@example.com", "password123", "first".to_string(), 2),
        Err(ApiError::Internal(InternalError::SessionNotInserted))
    );
    let b = sign_in(&mut blog, "alice@example.com", "password123", "second".to_string(), 2).unwrap();
    assert_ne!(a, b);
    assert!(get(&blog, Some(&AuthToken(a))).valid_token);
    assert!(get(&blog, Some(&AuthToken(b))).valid_token);
    assert_eq!(blog.users.sessions.len(), 2);
}

#[test]
fn create_post_needs_a_session() {
    let mut blog = blog_with_alice();
    assert_eq!(
        posts::new(&mut blog, None, "s", "t", "x", "y", 0).unwrap_err(),
        ApiError::Authorization(AuthorizationError::NoSessionToken)
    );
    let garbage = AuthToken("garbage".to_string());
    assert_eq!(
        posts::new(&mut blog, Some(&garbage), "s", "t", "x", "y", 0).unwrap_err(),
        ApiError::Authorization(AuthorizationError::SessionNotFound)
    );
    assert!(posts::get_all(&blog).is_empty());
}

fn two_authors(rule: UpdateRule) -> (Blog, AuthToken, AuthToken) {
    let mut blog = Blog::new(rule);
    sign_up(&mut blog, "a@example.com", "A", "passwordA1", 0).unwrap();
    sign_up(&mut blog, "b@example.com", "B", "passwordB1", 0).unwrap();
    let ta = AuthToken(sign_in(&mut blog, "a@example.com", "passwordA1", "ta".to_string(), 1).unwrap());
    let tb = AuthToken(sign_in(&mut blog, "b@example.com", "passwordB1", "tb".to_string(), 1).unwrap());
    posts::new(&mut blog, Some(&tb), "b-post", "B's post", "text", "sum", 2).unwrap();
    (blog, ta, tb)
}

#[test]
fn any_session_may_update_any_post() {
    let (mut blog, ta, _tb) = two_authors(UpdateRule::AnySession);
    assert_eq!(
        posts::update(&mut blog, Some(&ta), 1, Some("Changed by A".to_string()), None),
        Ok("Updated!")
    );
    let p = posts::get(&blog, 1).unwrap();
    assert_eq!(p.title, "Changed by A");
    assert_eq!(p.text, "text");
    assert_eq!(p.created_by, 2);
}

#[test]
fn author_only_rule_refuses_others() {
    let (mut blog, ta, tb) = two_authors(UpdateRule::AuthorOnly);
    assert_eq!(
        posts::update(&mut blog, Some(&ta), 1, Some("Changed by A".to_string()), None),
        Err(ApiError::Authorization(AuthorizationError::NotAuthor))
    );
    assert_eq!(posts::get(&blog, 1).unwrap().title, "B's post");
    assert_eq!(
        posts::update(&mut blog, Some(&tb), 1, None, Some("new text".to_string())),
        Ok("Updated!")
    );
    assert_eq!(posts::get(&blog, 1).unwrap().text, "new text");
}

#[test]
fn update_needs_a_session() {
    let mut blog = Blog::new(UpdateRule::AnySession);
    assert_eq!(
        posts::update(&mut blog, None, 1, Some("x".to_string()), None),
        Err(ApiError::Authorization(AuthorizationError::NoSessionToken))
    );
    assert_eq!(
        posts::update(&mut blog, Some(&AuthToken("nope".to_string())), 1, None, None),
        Err(ApiError::Authorization(AuthorizationError::SessionNotFound))
    );
}

#[test]
fn damaged_stored_hash_is_an_internal_error() {
    let mut blog = blog_with_alice();
    blog.users.users[0].password = "damaged".to_string();
    assert_eq!(
        sign_in(&mut blog, "alice@example.com", "password123", "t".to_string(), 0),
        Err(ApiError::Internal(InternalError::VerificationFailure))
    );
    assert!(blog.users.sessions.is_empty());
}

#[test]
fn settings_latest_value_wins() {
    let mut blog = Blog::new(UpdateRule::AnySession);
    assert_eq!(settings::add(&mut blog, "title", "First", 0), Ok("OK"));
    assert_eq!(settings::add(&mut blog, "theme", "dark", 0), Ok("OK"));
    assert_eq!(settings::add(&mut blog, "title", "Second", 0), Ok("OK"));
    let map = settings::get_all(&blog);
    assert_eq!(map.len(), 2);
    let title = map.iter().find(|(k, _)| k == "title").unwrap();
    assert_eq!(title.1, "Second");
    let theme = map.iter().find(|(k, _)| k == "theme").unwrap();
    assert_eq!(theme.1, "dark");
    assert!(settings::get_all(&Blog::new(UpdateRule::AnySession)).is_empty());
}
