use auth_service::services::banned_token_store::HashsetBannedTokenStore;

#[test]
fn register_then_check() {
    let mut store = HashsetBannedTokenStore::default();

    assert_eq!(store.check("header.payload.signature"), Ok(false));
    assert_eq!(
        store.register(&vec!["header.payload.signature".to_string()]),
        Ok(())
    );
    assert_eq!(store.check("header.payload.signature"), Ok(true));
    assert_eq!(store.check("other.token.text"), Ok(false));
}

#[test]
fn register_is_idempotent() {
    let mut store = HashsetBannedTokenStore::default();
    let tokens = vec!["t.t.t".to_string(), "t.t.t".to_string()];

    assert_eq!(store.register(&tokens), Ok(()));
    assert_eq!(store.register(&tokens), Ok(()));
    assert_eq!(store.check("t.t.t"), Ok(true));
}
