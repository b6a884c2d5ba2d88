use auth_service::domain::data_stores::{LoginAttemptId, TwoFactorCode, TwoFactorStoreError};
use auth_service::domain::email::Email;
use auth_service::services::data_stores::hashmap_2fa_store::HashmapTwoFactorStore;

#[test]
fn test_add_code() {
    let mut store = HashmapTwoFactorStore::default();
    let email = Email::parse("me@null.computer").unwrap();
    let code = TwoFactorCode::default();
    let attempt_id = LoginAttemptId::default();

    assert_eq!(store.add_code(email, attempt_id, code), Ok(()));
}

#[test]
fn test_remove_code() {
    let mut store = HashmapTwoFactorStore::default();
    let email = Email::parse("me@null.computer").unwrap();
    let code = TwoFactorCode::default();
    let attempt_id = LoginAttemptId::default();

    assert_eq!(
        store.remove_code(&email),
        Err(TwoFactorStoreError::LoginAttemptIdNotFound)
    );
    assert_eq!(store.add_code(email.clone(), attempt_id, code), Ok(()));
    assert_eq!(store.remove_code(&email), Ok(()));
}

#[test]
fn test_get_code() {
    let mut store = HashmapTwoFactorStore::default();
    let email = Email::parse("me@null.computer").unwrap();
    let code = TwoFactorCode::default();
    let attempt_id = LoginAttemptId::default();

    assert_eq!(
        store.get_code(&email),
        Err(TwoFactorStoreError::LoginAttemptIdNotFound)
    );
    assert_eq!(
        store.add_code(email.clone(), attempt_id.clone(), code.clone()),
        Ok(())
    );

    let value = store.get_code(&email);

    assert!(value.is_ok());

    let value = value.unwrap();

    assert_eq!(value.0, attempt_id);
    assert_eq!(value.1, code);
}

#[test]
fn second_code_overwrites_first() {
    let mut store = HashmapTwoFactorStore::default();
    let email = Email::parse("me@null.computer").unwrap();
    let first_id = LoginAttemptId::parse("550e8400-e29b-41d4-a716-446655440000").unwrap();
    let first_code = TwoFactorCode::parse("111111").unwrap();
    let second_id = LoginAttemptId::parse("67e55044-10b1-426f-9247-bb680e5fe0c8").unwrap();
    let second_code = TwoFactorCode::parse("222222").unwrap();

    assert_eq!(
        store.add_code(email.clone(), first_id, first_code),
        Ok(())
    );
    assert_eq!(
        store.add_code(email.clone(), second_id.clone(), second_code.clone()),
        Ok(())
    );

    let (attempt_id, code) = store.get_code(&email).unwrap();
    assert_eq!(attempt_id, second_id);
    assert_eq!(code, second_code);
}

#[test]
fn code_and_attempt_id_formats() {
    assert!(TwoFactorCode::parse("12345").is_err());
    assert!(TwoFactorCode::parse("1234567").is_err());
    assert!(TwoFactorCode::parse("abcdef").is_err());
    assert!(TwoFactorCode::parse("12345a").is_err());
    assert!(TwoFactorCode::parse("123456").is_ok());
    assert_eq!(TwoFactorCode::parse("123456").unwrap().as_str(), "123456");

    let generated = TwoFactorCode::default();
    assert_eq!(generated.as_str().len(), 6);
    assert!(generated.as_str().chars().all(|c| c.is_ascii_digit()));

    assert!(LoginAttemptId::parse("not-a-uuid").is_err());
    // Parsing normalises: an upper-case UUID comes back in canonical lower case.
    let parsed = LoginAttemptId::parse("550E8400-E29B-41D4-A716-446655440000").unwrap();
    assert_eq!(parsed.as_str(), "550e8400-e29b-41d4-a716-446655440000");

    let generated = LoginAttemptId::default();
    assert!(LoginAttemptId::parse(generated.as_str()).is_ok());
    assert_eq!(generated.as_str().len(), 36);
}
