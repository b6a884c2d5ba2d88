use auth_service::app_state::AppState;
use auth_service::domain::error::AuthAPIError;
use auth_service::routes::signup::{signup, SignupRequest};
use auth_service::services::banned_token_store::HashsetBannedTokenStore;
use auth_service::services::data_stores::hashmap_2fa_store::HashmapTwoFactorStore;
use auth_service::services::data_stores::hashmap_user_store::HashmapUserStore;
use auth_service::services::mock_email_client::MockEmailClient;

fn test_state() -> AppState {
    AppState::new(
        HashsetBannedTokenStore::default(),
        HashmapUserStore::default(),
        HashmapTwoFactorStore::default(),
        MockEmailClient::default(),
        b"test-signing-secret".to_vec(),
    )
}

fn request(email: &str, password: &str, requires_2fa: bool) -> SignupRequest {
    SignupRequest {
        email: email.to_string(),
        password: password.to_string(),
        requires_2fa,
    }
}

#[test]
fn signup_same_email_twice() {
    let mut state = test_state();

    let response = signup(&mut state, &request("a@x.com", "longpass1", false)).unwrap();
    assert_eq!(response.message, "User created successfully!".to_string());
    assert_eq!(response.status_code(), 201);

    let error = signup(&mut state, &request("a@x.com", "longpass1", false)).unwrap_err();
    assert_eq!(error, AuthAPIError::UserAlreadyExists);
    assert_eq!(error.status_code(), 409);
    assert_eq!(error.message(), "User already exists".to_string());
}

#[test]
fn signup_rejects_malformed_email() {
    let mut state = test_state();

    let error = signup(&mut state, &request("ax.com", "longpass1", false)).unwrap_err();
    assert_eq!(error, AuthAPIError::InvalidCredentials);
    assert_eq!(error.status_code(), 400);
}

#[test]
fn signup_rejects_short_password() {
    let mut state = test_state();

    let error = signup(&mut state, &request("a@x.com", "abc123", false)).unwrap_err();
    assert_eq!(error, AuthAPIError::InvalidCredentials);
}

#[test]
fn signup_rejects_whitespace_padded_short_password() {
    let mut state = test_state();

    // Nine characters, but only seven once the padding is trimmed.
    let error = signup(&mut state, &request("a@x.com", " abcd123 ", false)).unwrap_err();
    assert_eq!(error, AuthAPIError::InvalidCredentials);

    let error = signup(&mut state, &request("a@x.com", "        ", false)).unwrap_err();
    assert_eq!(error, AuthAPIError::InvalidCredentials);
}
