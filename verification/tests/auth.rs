use relay_gitcode_cli::auth::effective_token;
use relay_gitcode_cli::auth::{service_name, CredentialStore, MemoryCredentialStore};

#[test]
fn memory_store_round_trips_token() {
    let mut store = MemoryCredentialStore::new();
    assert!(store.get_token("gitcode.com").unwrap().is_none());
    store.set_token("gitcode.com", "token").unwrap();
    assert_eq!(
        store.get_token("gitcode.com").unwrap().as_deref(),
        Some("token")
    );
    store.delete_token("gitcode.com").unwrap();
    assert!(store.get_token("gitcode.com").unwrap().is_none());
}

#[test]
fn memory_store_keeps_hosts_apart_and_replaces_tokens() {
    let mut store = MemoryCredentialStore::new();
    store.set_token("a.com", "1").unwrap();
    store.set_token("b.com", "2").unwrap();
    store.set_token("a.com", "3").unwrap();
    assert_eq!(store.get_token("a.com").unwrap().as_deref(), Some("3"));
    assert_eq!(store.get_token("b.com").unwrap().as_deref(), Some("2"));
    store.delete_token("a.com").unwrap();
    assert!(store.get_token("a.com").unwrap().is_none());
    assert_eq!(store.get_token("b.com").unwrap().as_deref(), Some("2"));
}

#[test]
fn keyring_service_names_the_host() {
    assert_eq!(service_name("gitcode.com"), "gd.gitcode.gitcode.com");
}

#[test]
fn environment_token_wins_over_stored_token() {
    let env = Some(("GD_TOKEN".to_string(), "e".to_string()));
    assert_eq!(effective_token(env, Some("s".to_string())).as_deref(), Some("e"));
    assert_eq!(effective_token(None, Some("s".to_string())).as_deref(), Some("s"));
    assert_eq!(effective_token(None, None), None);
}
