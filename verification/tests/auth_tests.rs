use edge_router::auth::{validate_token, AuthError};

#[test]
fn test_bearer_token_parsing() {
    let auth_header = "Bearer test-token-123";
    assert!(auth_header.starts_with("Bearer "));
    let token = auth_header.strip_prefix("Bearer ").unwrap();
    assert_eq!(token, "test-token-123");
}

#[test]
fn matching_token_succeeds() {
    assert!(validate_token(Some("Bearer t0ken-123"), "t0ken-123"));
}

#[test]
fn absent_header_fails() {
    assert!(!validate_token(None, "t0ken-123"));
}

#[test]
fn wrong_scheme_fails() {
    assert!(!validate_token(Some("Basic t0ken-123"), "t0ken-123"));
    assert!(!validate_token(Some("bearer t0ken-123"), "t0ken-123"));
    assert!(!validate_token(Some("t0ken-123"), "t0ken-123"));
}

#[test]
fn wrong_token_fails() {
    assert!(!validate_token(Some("Bearer other"), "t0ken-123"));
    assert!(!validate_token(Some("Bearer t0ken-1234"), "t0ken-123"));
    assert!(!validate_token(Some("Bearer t0ken-12"), "t0ken-123"));
}

#[test]
fn empty_token_fails() {
    assert!(!validate_token(Some(""), "t0ken-123"));
    assert!(!validate_token(Some("Bearer "), "t0ken-123"));
}

#[test]
fn forbidden_outcome_is_uniform() {
    let (status, message) = AuthError::forbidden();
    assert_eq!(status, 403);
    assert_eq!(message, "Forbidden: Invalid or missing authentication token");
}
