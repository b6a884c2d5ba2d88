use auth_service::app_state::AppState;
use auth_service::domain::email::Email;
use auth_service::domain::error::AuthAPIError;
use auth_service::routes::verify_token::{verify_token, VerifyTokenRequest};
use auth_service::services::banned_token_store::HashsetBannedTokenStore;
use auth_service::services::data_stores::hashmap_2fa_store::HashmapTwoFactorStore;
use auth_service::services::data_stores::hashmap_user_store::HashmapUserStore;
use auth_service::services::mock_email_client::MockEmailClient;
use auth_service::utils::auth::generate_auth_token;

const NOW: u64 = 1_700_000_000;
const SECRET: &[u8] = b"test-signing-secret";

fn test_state() -> AppState {
    AppState::new(
        HashsetBannedTokenStore::default(),
        HashmapUserStore::default(),
        HashmapTwoFactorStore::default(),
        MockEmailClient::default(),
        SECRET.to_vec(),
    )
}

fn request(token: &str) -> VerifyTokenRequest {
    VerifyTokenRequest {
        token: token.to_string(),
    }
}

#[test]
fn should_return_200_if_malformed_input() {
    let state = test_state();
    let email = Email::parse("user@example.com").unwrap();
    let token = generate_auth_token(&email, SECRET, NOW).unwrap();

    let message = verify_token(&state, &request(&token), NOW).unwrap();
    assert_eq!(message, "Token verified!".to_string());
}

#[test]
fn should_return_401_if_banned_token() {
    let mut state = test_state();
    let email = Email::parse("user@example.com").unwrap();
    let token = generate_auth_token(&email, SECRET, NOW).unwrap();

    assert!(state
        .banned_token_store
        .register(&vec![token.clone()])
        .is_ok());

    let error = verify_token(&state, &request(&token), NOW).unwrap_err();
    assert_eq!(error, AuthAPIError::InvalidToken);
    assert_eq!(error.status_code(), 401);
}

#[test]
fn should_return_401_if_invalid_input() {
    let state = test_state();

    let error = verify_token(&state, &request("abcd.efgh.ijkl"), NOW).unwrap_err();
    assert_eq!(error, AuthAPIError::InvalidToken);
    assert_eq!(error.status_code(), 401);
}

#[test]
fn verify_token_should_return_422_if_malformed_input() {
    let state = test_state();

    let error = verify_token(&state, &request("abcd.efgh"), NOW).unwrap_err();
    assert_eq!(error, AuthAPIError::MalformedToken);
    assert_eq!(error.status_code(), 422);
    assert_eq!(error.message(), "Malformed token".to_string());
}

#[test]
fn wrong_secret_is_rejected() {
    let state = test_state();
    let email = Email::parse("user@example.com").unwrap();
    let token = generate_auth_token(&email, b"another-secret", NOW).unwrap();

    let error = verify_token(&state, &request(&token), NOW).unwrap_err();
    assert_eq!(error, AuthAPIError::InvalidToken);
}
