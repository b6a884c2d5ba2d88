use auth_service::domain::data_stores::UserStoreError;
use auth_service::domain::email::Email;
use auth_service::domain::password::Password;
use auth_service::domain::user::User;
use auth_service::services::hashmap_user_store::HashmapUserStore;

#[test]
fn hashmap_user_store_test_add_user() {
    let mut store = HashmapUserStore::default();
    let user = User::new(
        &Email::parse("me@null.computer").unwrap(),
        &Password::parse("abcd1234").unwrap(),
        true,
    );

    assert_eq!(store.add_user(user.clone()), Ok(()));
    assert_eq!(store.add_user(user), Err(UserStoreError::UserAlreadyExists));
}

#[test]
fn hashmap_user_store_test_get_user() {
    let mut store = HashmapUserStore::default();
    let email = Email::parse("me@null.computer").unwrap();
    let user = User::new(&email, &Password::parse("abcd1234").unwrap(), true);

    assert_eq!(store.add_user(user.clone()), Ok(()));
    assert_eq!(store.get_user(&email), Ok(user));
    assert_eq!(
        store.get_user(&Email::parse("you@null.computer").unwrap()),
        Err(UserStoreError::UserNotFound)
    );
}

#[test]
fn hashmap_user_store_test_validate_user() {
    let mut store = HashmapUserStore::default();
    let email = Email::parse("me@null.computer").unwrap();
    let password = Password::parse("abcd1234").unwrap();
    let user = User::new(&email, &password, true);

    assert_eq!(
        store.validate_user(&email, &password),
        Err(UserStoreError::UserNotFound)
    );
    assert_eq!(store.add_user(user), Ok(()));
    assert_eq!(store.validate_user(&email, &password), Ok(()));
    assert_eq!(
        store.validate_user(&email, &Password::parse("wxyz7890").unwrap()),
        Err(UserStoreError::InvalidCredentials)
    );
}
