use user_auth::utils::error::{internal_error, AuthError, ErrorKind};

#[test]
fn each_kind_has_its_status() {
    assert_eq!(ErrorKind::InvalidCredentials.status(), 401);
    assert_eq!(ErrorKind::Unauthorized.status(), 401);
    assert_eq!(ErrorKind::Forbidden.status(), 403);
    assert_eq!(ErrorKind::InternalError.status(), 500);
}

#[test]
fn internal_error_joins_context_and_cause() {
    let e = internal_error("DB query error", "connection refused");
    assert_eq!(e.kind, ErrorKind::InternalError);
    assert_eq!(e.message, "DB query error: connection refused");
    assert_eq!(e.status(), 500);
    assert_eq!(internal_error("", "").message, ": ");
}

#[test]
fn internal_error_shows_the_client_no_cause() {
    let e = internal_error("DB query error", "password=hunter2 refused");
    assert_eq!(e.client_message(), "Internal server error");
}

#[test]
fn other_errors_show_their_message() {
    let e = AuthError::new(ErrorKind::Forbidden, "Missing permission: x");
    assert_eq!(e.client_message(), "Missing permission: x");
    assert_eq!(e.status(), 403);
    let e = AuthError::new(ErrorKind::Unauthorized, "Invalid token");
    assert_eq!(e.client_message(), "Invalid token");
    assert_eq!(e.status(), 401);
    let e = AuthError::new(ErrorKind::InvalidCredentials, "Invalid credentials");
    assert_eq!(e.client_message(), "Invalid credentials");
    assert_eq!(e.status(), 401);
}
