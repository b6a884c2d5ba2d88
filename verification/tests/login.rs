use auth_service::app_state::AppState;
use auth_service::domain::email::Email;
use auth_service::domain::error::AuthAPIError;
use auth_service::routes::login::{login, LoginRequest, LoginResponse};
use auth_service::routes::signup::{signup, SignupRequest};
use auth_service::services::banned_token_store::HashsetBannedTokenStore;
use auth_service::services::data_stores::hashmap_2fa_store::HashmapTwoFactorStore;
use auth_service::services::data_stores::hashmap_user_store::HashmapUserStore;
use auth_service::services::mock_email_client::MockEmailClient;
use auth_service::utils::constants::jwt_cookie_name;

const NOW: u64 = 1_700_000_000;

fn test_state() -> AppState {
    AppState::new(
        HashsetBannedTokenStore::default(),
        HashmapUserStore::default(),
        HashmapTwoFactorStore::default(),
        MockEmailClient::default(),
        b"test-signing-secret".to_vec(),
    )
}

fn signup_request(email: &str, password: &str, requires_2fa: bool) -> SignupRequest {
    SignupRequest {
        email: email.to_string(),
        password: password.to_string(),
        requires_2fa,
    }
}

fn login_request(email: &str, password: &str) -> LoginRequest {
    LoginRequest {
        email: email.to_string(),
        password: password.to_string(),
    }
}

#[test]
fn should_return_200_if_valid_credentials_and_2fa_disabled() {
    let mut state = test_state();
    let email = "user@example.com";
    let password = "abcd1234";
    let response = signup(&mut state, &signup_request(email, password, false)).unwrap();

    assert_eq!(response.status_code(), 201);

    let (response, cookie) = login(&mut state, &login_request(email, password), NOW).unwrap();

    assert_eq!(response.status_code(), 200);

    let cookie = cookie.expect("No auth cookie found");
    assert_eq!(cookie.name(), jwt_cookie_name());
    assert!(!cookie.value().is_empty());
}

#[test]
fn should_return_206_if_valid_credentials_and_2fa_enabled() {
    let mut state = test_state();
    let email = "user@example.com";
    let password = "abcd1234";
    let response = signup(&mut state, &signup_request(email, password, true)).unwrap();

    assert_eq!(response.status_code(), 201);

    let (response, cookie) = login(&mut state, &login_request(email, password), NOW).unwrap();

    assert_eq!(response.status_code(), 206);
    assert!(cookie.is_none());

    let body = match response {
        LoginResponse::TwoFactorAuth(body) => body,
        LoginResponse::RegularAuth(_) => panic!("expected a two-factor answer"),
    };

    assert_eq!(body.message, "2FA required".to_owned());

    let email = Email::parse(email).unwrap();
    let maybe_value = state.two_factor_store.get_code(&email);

    assert!(maybe_value.is_ok());

    let (attempt_id, _) = maybe_value.unwrap();

    assert_eq!(body.login_attempt_id, attempt_id);
}

#[test]
fn login_should_return_400_if_invalid_input() {
    let mut state = test_state();
    let email = "user@example.com";
    let _ = signup(&mut state, &signup_request(email, "abcd1234", false));
    let response = login(&mut state, &login_request(email, "abcd123"), NOW);

    let error = response.unwrap_err();
    assert_eq!(error, AuthAPIError::InvalidCredentials);
    assert_eq!(error.status_code(), 400);
    assert_eq!(error.message(), "Invalid credentials".to_owned());
}

#[test]
fn login_should_return_401_if_incorrect_credentials() {
    let mut state = test_state();
    let email = "user@example.com";
    let _ = signup(&mut state, &signup_request(email, "abcd1234", false));
    let response = login(&mut state, &login_request(email, "abcd7890"), NOW);

    let error = response.unwrap_err();
    assert_eq!(error, AuthAPIError::IncorrectCredentials);
    assert_eq!(error.status_code(), 401);
}

#[test]
fn login_unknown_email_is_enumeration_safe() {
    let mut state = test_state();
    let response = login(
        &mut state,
        &login_request("nobody@example.com", "abcd1234"),
        NOW,
    );

    assert_eq!(response.unwrap_err(), AuthAPIError::InvalidCredentials);
}

#[test]
fn login_2fa_code_travels_only_to_the_email_client() {
    let mut state = test_state();
    let email = "user@example.com";
    let password = "abcd1234";
    let _ = signup(&mut state, &signup_request(email, password, true)).unwrap();

    assert_eq!(state.email_client.sent_count(), 0);

    let _ = login(&mut state, &login_request(email, password), NOW).unwrap();

    assert_eq!(state.email_client.sent_count(), 1);

    let parsed = Email::parse(email).unwrap();
    let (_, code) = state.two_factor_store.get_code(&parsed).unwrap();
    assert_eq!(code.as_str().len(), 6);
}
