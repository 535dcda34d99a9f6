use dauth::store::{Auth, AuthType, IdentityStore};

#[test]
fn upsert_is_idempotent() {
    let mut store = IdentityStore::new();
    let hash = vec![9u8; 32];
    store.insert_account_if_new(hash.as_slice(), &[1, 2, 3]);
    assert_eq!(store.account_rows(), 1);
    // A second seal of the same credential differs byte for byte, but the
    // row must stay as it was.
    store.insert_account_if_new(hash.as_slice(), &[7, 7, 7, 7]);
    assert_eq!(store.account_rows(), 1);
    assert!(store.contains_account(hash.as_slice()));
}

#[test]
fn auth_ids_count_up_from_one() {
    let mut store = IdentityStore::new();
    let hash = vec![9u8; 32];
    store.insert_account_if_new(hash.as_slice(), &[1]);
    assert_eq!(store.query_latest_auth_id(hash.as_slice()), 0);
    for n in 1..=3u32 {
        let auth = Auth {
            acc_hash: hash.clone(),
            auth_id: store.query_latest_auth_id(hash.as_slice()) + 1,
            auth_type: AuthType::Email,
            auth_datetime: 1000 + n as u64,
            auth_exp: 4600 + n as u64,
        };
        assert_eq!(auth.auth_id, n);
        store.insert_auth(&auth);
        assert_eq!(store.query_latest_auth_id(hash.as_slice()), n);
    }
}

#[test]
fn histories_of_different_accounts_are_independent() {
    let mut store = IdentityStore::new();
    let a = vec![1u8; 32];
    let b = vec![2u8; 32];
    store.insert_account_if_new(a.as_slice(), &[10]);
    store.insert_account_if_new(b.as_slice(), &[20]);
    assert_eq!(store.account_rows(), 2);
    let auth = Auth {
        acc_hash: a.clone(),
        auth_id: 1,
        auth_type: AuthType::Google,
        auth_datetime: 1,
        auth_exp: 2,
    };
    store.insert_auth(&auth);
    assert_eq!(store.query_latest_auth_id(a.as_slice()), 1);
    assert_eq!(store.query_latest_auth_id(b.as_slice()), 0);
    assert_eq!(store.query_latest_auth_id(vec![3u8; 32].as_slice()), 0);
}

#[test]
fn auth_type_parsing_and_names() {
    assert_eq!(AuthType::from_str(&"google".to_string()), Some(AuthType::Google));
    assert_eq!(AuthType::from_str(&"github".to_string()), Some(AuthType::Github));
    assert_eq!(AuthType::from_str(&"email".to_string()), None);
    assert_eq!(AuthType::from_str(&"GitHub".to_string()), None);
    assert_eq!(AuthType::Google.provider_name(), "google");
    assert_eq!(AuthType::Github.provider_name(), "github");
    assert_eq!(AuthType::Email.provider_name(), "email");
    assert_eq!(AuthType::Email.type_code(), 0);
    assert_eq!(AuthType::Google.type_code(), 1);
    assert_eq!(AuthType::Github.type_code(), 2);
}
