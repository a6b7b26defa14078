use spiel::secrets::SecretStore;

#[test]
fn test_set_and_get() {
    let mut store = SecretStore::new();
    store.set("openai", "sk-test1234abcd").unwrap();
    assert!(store.is_configured("openai"));
    assert_eq!(store.get("openai"), Some("sk-test1234abcd".into()));
}

#[test]
fn test_status_never_returns_full_key() {
    let mut store = SecretStore::new();
    store.set("openai", "sk-test1234abcd").unwrap();
    let status = store.get_status("openai");
    assert!(status.configured);
    // Nothing in the status holds the full key.
    let status_text = format!("{:?}", status);
    assert!(!status_text.contains("sk-test1234abcd"));
    // It does hold the hint.
    assert!(status.last_four == Some("abcd".into()));
}

#[test]
fn test_validate_all_blockers() {
    let store = SecretStore::new();
    let validation = store.validate_provider_config("openai", true, false);
    assert!(!validation.ready);
    assert_eq!(validation.blockers.len(), 3);
}

#[test]
fn test_validate_ready() {
    let mut store = SecretStore::new();
    store.set("openai", "sk-test1234abcd").unwrap();
    let validation = store.validate_provider_config("openai", false, true);
    assert!(validation.ready);
    assert!(validation.blockers.is_empty());
}

#[test]
fn test_delete() {
    let mut store = SecretStore::new();
    store.set("openai", "sk-test1234abcd").unwrap();
    assert!(store.is_configured("openai"));
    store.delete("openai");
    assert!(!store.is_configured("openai"));
}

#[test]
fn test_invalid_openai_key_format() {
    let mut store = SecretStore::new();
    let result = store.set("openai", "not-a-valid-key");
    assert!(result.is_err());
}

#[test]
fn test_empty_key_value() {
    let mut store = SecretStore::new();
    let result = store.set("openai", "");
    assert!(result.is_err());
}
