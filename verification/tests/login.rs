use user_auth::handlers::auth::{login, login_email, login_token, login_verified};
use user_auth::handlers::users::{create_user, new_user};
use user_auth::models::{Login, NewUser, NewUserInput, User};
use user_auth::services::jwt::validate;
use user_auth::utils::error::{AuthError, ErrorKind};
use user_auth::utils::ident::parse_public_id;
use user_auth::utils::text::normalize_email;

const LOGIN_SECRET: &str = "login-secret";
const LOGIN_CLOCK: u64 = 1_750_000_000;
const STORED_HASH: &str =
    "$argon2id$v=19$m=256,t=2,p=1$c29tZXNhbHQ$nf65EOgLrQMR/uIPnA4rEsF5h7TKyQwu9U1bMCHGi/4";

fn stored_user(is_active: bool) -> User {
    User {
        id: 3,
        temp_id: 0x0123_4567_89ab_cdef_0123_4567_89ab_cdef,
        email: String::from("a@x.com"),
        username: String::from("a"),
        password_hash: String::from(STORED_HASH),
        first_name: String::from("A"),
        last_name: String::from("X"),
        is_active,
        roles: 0,
        permissions: 0,
        created_at: None,
        updated_at: None,
    }
}

fn stored_from(record: NewUser) -> User {
    User {
        id: 1,
        temp_id: 99,
        email: record.email,
        username: record.username,
        password_hash: record.password_hash,
        first_name: record.first_name,
        last_name: record.last_name,
        is_active: true,
        roles: 0,
        permissions: 0,
        created_at: None,
        updated_at: None,
    }
}

#[test]
fn login_with_correct_password_gives_a_token() {
    let user = stored_user(true);
    let token = login(Some(&user), "password", LOGIN_SECRET, LOGIN_CLOCK).unwrap();
    assert!(!token.is_empty());
    let claims = validate(&token, LOGIN_SECRET, LOGIN_CLOCK).unwrap();
    assert_eq!(claims.sub, "a@x.com");
    assert_eq!(claims.exp, LOGIN_CLOCK + 86_400);
    assert_eq!(parse_public_id(&claims.user_temp_id), Some(user.temp_id));
}

#[test]
fn login_with_wrong_password_is_401() {
    let user = stored_user(true);
    let refused = login(Some(&user), "wrong", LOGIN_SECRET, LOGIN_CLOCK).unwrap_err();
    assert_eq!(refused.kind, ErrorKind::InvalidCredentials);
    assert_eq!(refused.message, "Invalid credentials");
    assert_eq!(refused.status(), 401);
}

#[test]
fn login_to_inactive_account_is_403_even_with_correct_password() {
    let user = stored_user(false);
    let refused = login(Some(&user), "password", LOGIN_SECRET, LOGIN_CLOCK).unwrap_err();
    assert_eq!(refused.kind, ErrorKind::Forbidden);
    assert_eq!(refused.message, "Account is inactive");
    assert_eq!(refused.status(), 403);
    let refused = login(Some(&user), "wrong", LOGIN_SECRET, LOGIN_CLOCK).unwrap_err();
    assert_eq!(refused.status(), 403);
}

#[test]
fn login_of_unknown_email_is_401() {
    let refused = login(None, "password", LOGIN_SECRET, LOGIN_CLOCK).unwrap_err();
    assert_eq!(refused.kind, ErrorKind::InvalidCredentials);
    assert_eq!(refused.message, "Invalid credentials");
    assert_eq!(refused.status(), 401);
}

#[test]
fn login_against_a_malformed_stored_hash_is_500() {
    let mut user = stored_user(true);
    user.password_hash = String::from("not a hash");
    let refused = login(Some(&user), "password", LOGIN_SECRET, LOGIN_CLOCK).unwrap_err();
    assert_eq!(refused.kind, ErrorKind::InternalError);
    assert!(refused.message.starts_with("Password verification failed: "));
    assert_eq!(refused.status(), 500);
    assert_eq!(refused.client_message(), "Internal server error");
}

#[test]
fn login_at_the_end_of_time_is_500() {
    let user = stored_user(true);
    let refused = login(Some(&user), "password", LOGIN_SECRET, u64::MAX).unwrap_err();
    assert_eq!(refused.kind, ErrorKind::InternalError);
    assert_eq!(refused.message, "JWT generation failed: expiration out of range");
}

#[test]
fn login_verified_decides_by_the_verdict() {
    let user = stored_user(true);
    assert!(login_verified(&user, Ok(true), LOGIN_SECRET, LOGIN_CLOCK).is_ok());
    assert_eq!(
        login_verified(&user, Ok(false), LOGIN_SECRET, LOGIN_CLOCK),
        Err(AuthError::new(ErrorKind::InvalidCredentials, "Invalid credentials"))
    );
    assert_eq!(
        login_verified(&user, Err(String::from("boom")), LOGIN_SECRET, LOGIN_CLOCK),
        Err(AuthError::new(ErrorKind::InternalError, "Password verification failed: boom"))
    );
}

#[test]
fn login_token_passes_the_token_on() {
    assert_eq!(login_token(Ok(String::from("t.o.k"))), Ok(String::from("t.o.k")));
    assert_eq!(
        login_token(Err(String::from("no key"))),
        Err(AuthError::new(ErrorKind::InternalError, "JWT generation failed: no key"))
    );
}

#[test]
fn email_is_normalized_to_lower_case() {
    assert_eq!(normalize_email("User@Example.com"), "user@example.com");
    assert_eq!(normalize_email("a@x.com"), "a@x.com");
    assert_eq!(normalize_email("\u{c9}MILE@X.COM"), "\u{e9}mile@x.com");
    assert_eq!(normalize_email(""), "");
    let payload = Login { email: String::from("A@X.Com"), password: String::from("p") };
    assert_eq!(login_email(&payload), "a@x.com");
}

#[test]
fn registration_stores_lower_case_email_and_the_hash() {
    let payload = NewUserInput {
        email: String::from("User@Example.com"),
        username: String::from("User"),
        password: String::from("pw"),
        first_name: String::from("Ursula"),
        last_name: String::from("Ser"),
    };
    assert_eq!(
        new_user(payload.clone(), Ok(String::from("$hash"))),
        Ok(NewUser {
            email: String::from("user@example.com"),
            username: String::from("User"),
            password_hash: String::from("$hash"),
            first_name: String::from("Ursula"),
            last_name: String::from("Ser"),
        })
    );
    assert_eq!(
        new_user(payload, Err(String::from("salt invalid"))),
        Err(AuthError::new(ErrorKind::InternalError, "Password hashing failed: salt invalid"))
    );
}

#[test]
fn login_is_case_insensitive_in_the_email() {
    let payload = NewUserInput {
        email: String::from("User@Example.com"),
        username: String::from("user"),
        password: String::from("s3cret"),
        first_name: String::from("U"),
        last_name: String::from("S"),
    };
    let record = create_user(payload).unwrap();
    assert_eq!(record.email, "user@example.com");
    assert_ne!(record.password_hash, "s3cret");
    let storage = vec![stored_from(record)];
    let attempt = Login { email: String::from("user@example.com"), password: String::from("s3cret") };
    let key = login_email(&attempt);
    let found = storage.iter().find(|user| user.email == key);
    assert!(found.is_some());
    let token = login(found, &attempt.password, LOGIN_SECRET, LOGIN_CLOCK).unwrap();
    assert_eq!(validate(&token, LOGIN_SECRET, LOGIN_CLOCK).unwrap().sub, "user@example.com");
    let shouted = Login { email: String::from("USER@EXAMPLE.COM"), password: String::from("s3cret") };
    let key = login_email(&shouted);
    assert!(storage.iter().any(|user| user.email == key));
}
