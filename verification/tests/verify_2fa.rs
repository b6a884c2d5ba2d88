use auth_service::app_state::AppState;
use auth_service::domain::data_stores::{LoginAttemptId, TwoFactorCode};
use auth_service::domain::email::Email;
use auth_service::domain::error::AuthAPIError;
use auth_service::routes::login::{login, LoginRequest};
use auth_service::routes::signup::{signup, SignupRequest};
use auth_service::routes::verify_2fa::{verify_2fa, Verify2FARequest};
use auth_service::services::banned_token_store::HashsetBannedTokenStore;
use auth_service::services::data_stores::hashmap_2fa_store::HashmapTwoFactorStore;
use auth_service::services::data_stores::hashmap_user_store::HashmapUserStore;
use auth_service::services::mock_email_client::MockEmailClient;

const NOW: u64 = 1_700_000_000;

fn test_state() -> AppState {
    AppState::new(
        HashsetBannedTokenStore::default(),
        HashmapUserStore::default(),
        HashmapTwoFactorStore::default(),
        MockEmailClient::default(),
        b"test-signing-secret".to_vec(),
    )
}

fn open_challenge(state: &mut AppState, email: &str, password: &str) {
    signup(
        state,
        &SignupRequest {
            email: email.to_string(),
            password: password.to_string(),
            requires_2fa: true,
        },
    )
    .unwrap();
    login(
        state,
        &LoginRequest {
            email: email.to_string(),
            password: password.to_string(),
        },
        NOW,
    )
    .unwrap();
}

#[test]
fn should_return_200_if_correct_code() {
    let mut state = test_state();
    let email = "user@example.com";
    open_challenge(&mut state, email, "abcd1234");

    let parsed = Email::parse(email).unwrap();
    let (attempt_id, code) = state
        .two_factor_store
        .get_code(&parsed)
        .expect("Failed to get code from two factor store");

    let cookie = verify_2fa(
        &mut state,
        &Verify2FARequest {
            email: parsed,
            login_attempt_id: attempt_id,
            two_factor_code: code,
        },
        NOW,
    )
    .expect("No auth cookie found");

    assert!(!cookie.value().is_empty());
}

#[test]
fn verify_2fa_should_return_400_if_invalid_input() {
    // A five-character code fails parsing before any store lookup; the
    // boundary answers such a request with `InvalidCredentials`.
    assert!(TwoFactorCode::parse("12345").is_err());
    assert_eq!(AuthAPIError::InvalidCredentials.status_code(), 400);
}

#[test]
fn verify_2fa_should_return_401_if_incorrect_credentials() {
    let mut state = test_state();

    let error = verify_2fa(
        &mut state,
        &Verify2FARequest {
            email: Email::parse("me@null.computer").unwrap(),
            login_attempt_id: LoginAttemptId::parse("550e8400-e29b-41d4-a716-446655440000")
                .unwrap(),
            two_factor_code: TwoFactorCode::parse("123456").unwrap(),
        },
        NOW,
    )
    .unwrap_err();

    assert_eq!(error, AuthAPIError::IncorrectCredentials);
    assert_eq!(error.status_code(), 401);
}

#[test]
fn should_return_401_if_old_code() {
    let mut state = test_state();
    let email = "user@example.com";
    open_challenge(&mut state, email, "abcd1234");

    let parsed = Email::parse(email).unwrap();
    let (attempt_id, code) = state
        .two_factor_store
        .get_code(&parsed)
        .expect("Failed to get code from two factor store");

    // A second login overwrites the challenge; the first pair is dead.
    login(
        &mut state,
        &LoginRequest {
            email: email.to_string(),
            password: "abcd1234".to_string(),
        },
        NOW,
    )
    .unwrap();

    let error = verify_2fa(
        &mut state,
        &Verify2FARequest {
            email: parsed,
            login_attempt_id: attempt_id,
            two_factor_code: code,
        },
        NOW,
    )
    .unwrap_err();

    assert_eq!(error, AuthAPIError::IncorrectCredentials);
    assert_eq!(error.status_code(), 401);
}

#[test]
fn should_return_401_if_same_code_twice() {
    let mut state = test_state();
    let email = "user@example.com";
    open_challenge(&mut state, email, "abcd1234");

    let parsed = Email::parse(email).unwrap();
    let (attempt_id, code) = state
        .two_factor_store
        .get_code(&parsed)
        .expect("Failed to get code from two factor store");

    let request = Verify2FARequest {
        email: parsed,
        login_attempt_id: attempt_id,
        two_factor_code: code,
    };

    assert!(verify_2fa(&mut state, &request, NOW).is_ok());

    let error = verify_2fa(&mut state, &request, NOW).unwrap_err();
    assert_eq!(error, AuthAPIError::IncorrectCredentials);
    assert_eq!(error.status_code(), 401);
}

#[test]
fn wrong_attempt_id_is_rejected_without_consuming() {
    let mut state = test_state();
    let email = "user@example.com";
    open_challenge(&mut state, email, "abcd1234");

    let parsed = Email::parse(email).unwrap();
    let (_, code) = state.two_factor_store.get_code(&parsed).unwrap();

    let error = verify_2fa(
        &mut state,
        &Verify2FARequest {
            email: parsed.clone(),
            login_attempt_id: LoginAttemptId::parse("550e8400-e29b-41d4-a716-446655440000")
                .unwrap(),
            two_factor_code: code,
        },
        NOW,
    )
    .unwrap_err();

    assert_eq!(error, AuthAPIError::IncorrectCredentials);
    // The mismatch did not consume the challenge.
    assert!(state.two_factor_store.get_code(&parsed).is_ok());
}
