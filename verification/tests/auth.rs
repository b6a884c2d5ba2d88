use auth_service::domain::email::Email;
use auth_service::utils::auth::{
    create_auth_cookie, generate_auth_token, validate_token, TOKEN_TTL_SECONDS,
};
use auth_service::utils::constants::jwt_cookie_name;

const SECRET: &[u8] = b"test-signing-secret";

#[test]
fn test_generate_auth_cookie() {
    let email = Email::parse("test@example.com").unwrap();
    let cookie =
        auth_service::utils::auth::generate_auth_cookie(&email, SECRET, 1_000_000).unwrap();

    assert_eq!(cookie.name(), jwt_cookie_name());
    assert_eq!(cookie.value().split('.').count(), 3);
    assert_eq!(cookie.path(), "/");
    assert!(cookie.http_only());
    assert!(cookie.same_site_lax());
}

#[test]
fn test_create_auth_cookie() {
    let token = "test_token".to_owned();
    let cookie = create_auth_cookie(token.clone());

    assert_eq!(cookie.name(), jwt_cookie_name());
    assert_eq!(cookie.value(), token);
    assert_eq!(cookie.path(), "/");
    assert!(cookie.http_only());
    assert!(cookie.same_site_lax());
}

#[test]
fn test_generate_auth_token() {
    let email = Email::parse("test@example.com").unwrap();
    let result = generate_auth_token(&email, SECRET, 1_000_000).unwrap();

    assert_eq!(result.split('.').count(), 3);
}

#[test]
fn test_validate_token_with_valid_token() {
    let email = Email::parse("test@example.com").unwrap();
    let now: u64 = 1_000_000;
    let token = generate_auth_token(&email, SECRET, now).unwrap();
    let result = validate_token(None, &token, SECRET, now).unwrap();

    assert_eq!(result.sub, "test@example.com");
    assert!(result.exp > now + TOKEN_TTL_SECONDS - 60);
}

#[test]
fn test_validate_token_with_invalid_token() {
    let token = "invalid_token".to_owned();
    let result = validate_token(None, &token, SECRET, 1_000_000);

    assert!(result.is_err());
}
