use dauth::flows::{
    auth_email, auth_email_complete, auth_email_confirm, auth_email_confirm_complete, auth_oauth,
    auth_oauth2, auth_oauth2_complete, auth_oauth_seal_complete, exchange_key,
    exchange_key_complete, health, issue_token_commit, oauth_redeem_complete, session_gate,
    ConfirmStep, EmailStep, Gate, IssuePlan, Oauth2Step, OauthStep, SealPlan,
};
use dauth::resp::{AuthEmailConfirmReq, AuthEmailReq, AuthOauthReq, ExchangeKeyReq};
use dauth::session::SessionRegistry;
use dauth::store::{AuthType, IdentityStore};
use dauth::tee::{KeyExchangeOutcome, PlainOutcome, SealOutcome, SignOutcome, TeeStatus};

fn fixed_buf(bytes: &[u8]) -> Vec<u8> {
    let mut v = vec![0u8; 1024];
    v[..bytes.len()].copy_from_slice(bytes);
    v
}

fn ok_key_exchange(tee_key: u8, session_id: u8) -> KeyExchangeOutcome {
    KeyExchangeOutcome {
        transport: TeeStatus::Success,
        status: TeeStatus::Success,
        tee_key: vec![tee_key; 64],
        session_id: vec![session_id; 32],
    }
}

fn ok_seal(hash: u8, seal: &[u8]) -> SealOutcome {
    SealOutcome {
        transport: TeeStatus::Success,
        status: TeeStatus::Success,
        acc_hash: vec![hash; 32],
        acc_seal: fixed_buf(seal),
        seal_len: seal.len(),
    }
}

fn ok_sign(token: &str) -> SignOutcome {
    SignOutcome {
        transport: TeeStatus::Success,
        status: TeeStatus::Success,
        token: fixed_buf(token.as_bytes()),
        token_len: token.len(),
    }
}

fn open_session(reg: &mut SessionRegistry, session_id: u8, now: u64) -> String {
    let out = ok_key_exchange(0xcd, session_id);
    let resp = exchange_key_complete(reg, now, &out).unwrap();
    assert_eq!(resp.status, "success");
    resp.session_id
}

#[test]
fn email_happy_path() {
    let mut reg = SessionRegistry::new(600);
    let mut store = IdentityStore::new();

    let req = ExchangeKeyReq { key: format!("04{}", "ab".repeat(64)) };
    let user_key = exchange_key(&req).unwrap();
    assert_eq!(user_key, vec![0xab; 64]);

    let out = ok_key_exchange(0xcd, 7);
    let resp = exchange_key_complete(&mut reg, 1000, &out).unwrap();
    assert_eq!(resp.status, "success");
    assert_eq!(resp.key, format!("04{}", "cd".repeat(64)));
    assert_eq!(resp.session_id, "07".repeat(32));

    let req2 = AuthEmailReq {
        session_id: resp.session_id.clone(),
        cipher_email: "deadbeef".to_string(),
    };
    match auth_email(&mut reg, &req2, 1100) {
        EmailStep::SendCipherEmail { session_id, cipher_email } => {
            assert_eq!(session_id, vec![7u8; 32]);
            assert_eq!(cipher_email, vec![0xde, 0xad, 0xbe, 0xef]);
        },
        _ => panic!("expected the send step"),
    }
    let sent = auth_email_complete(&PlainOutcome {
        transport: TeeStatus::Success,
        status: TeeStatus::Success,
    });
    assert_eq!(sent.status, "success");

    let req3 = AuthEmailConfirmReq {
        session_id: resp.session_id.clone(),
        cipher_code: "0102".to_string(),
    };
    match auth_email_confirm(&mut reg, &req3, 1200) {
        ConfirmStep::RegisterEmailConfirm { session_id, cipher_code } => {
            assert_eq!(session_id, vec![7u8; 32]);
            assert_eq!(cipher_code, vec![1u8, 2u8]);
        },
        _ => panic!("expected the confirm step"),
    }
    let sealed = ok_seal(9, &[0x11, 0x22, 0x33]);
    let auth = match auth_email_confirm_complete(&mut store, &sealed, 1200) {
        IssuePlan::Sign { auth } => auth,
        IssuePlan::Reply { resp } => panic!("unexpected reply {}", resp.error_code),
    };
    assert_eq!(auth.acc_hash, vec![9u8; 32]);
    assert_eq!(auth.auth_id, 1);
    assert_eq!(auth.auth_type, AuthType::Email);
    assert_eq!(auth.auth_exp, 1200 + 3600);

    let signed = issue_token_commit(&mut store, auth, &ok_sign("jwt.header.sig")).unwrap();
    assert_eq!(signed.status, "success");
    assert_eq!(signed.token, "jwt.header.sig");
    assert_eq!(store.account_rows(), 1);
    assert!(store.contains_account(vec![9u8; 32].as_slice()));
    assert_eq!(store.query_latest_auth_id(vec![9u8; 32].as_slice()), 1);
}

#[test]
fn expired_session_is_closed_once() {
    let mut reg = SessionRegistry::new(600);
    let sid_hex = open_session(&mut reg, 7, 1000);

    let req = AuthEmailReq { session_id: sid_hex.clone(), cipher_email: "aa".to_string() };
    match auth_email(&mut reg, &req, 1600) {
        EmailStep::Reply { resp, close_tee } => {
            assert_eq!(resp.status, "fail");
            assert_eq!(resp.error_code, "DataError");
            assert_eq!(resp.error_msg, "session expired");
            assert_eq!(close_tee, Some(vec![7u8; 32]));
        },
        _ => panic!("expected a reply"),
    }
    match auth_email(&mut reg, &req, 1601) {
        EmailStep::Reply { resp, close_tee } => {
            assert_eq!(resp.error_code, "DataError");
            assert_eq!(resp.error_msg, "session not found");
            assert_eq!(close_tee, None);
        },
        _ => panic!("expected a reply"),
    }
}

#[test]
fn wrong_code_leaves_no_rows() {
    let mut store = IdentityStore::new();
    let mut sealed = ok_seal(9, &[0x11]);
    sealed.status = TeeStatus::InvalidAttribute;
    match auth_email_confirm_complete(&mut store, &sealed, 1200) {
        IssuePlan::Reply { resp } => {
            assert_eq!(resp.status, "fail");
            assert_eq!(resp.error_code, "OsError");
            assert_eq!(resp.error_msg, "OAuth failed");
        },
        _ => panic!("expected a reply"),
    }
    assert_eq!(store.account_rows(), 0);
    assert!(!store.contains_account(vec![9u8; 32].as_slice()));
}

#[test]
fn confirm_is_idempotent_in_account() {
    let mut store = IdentityStore::new();
    let first = match auth_email_confirm_complete(&mut store, &ok_seal(9, &[0x11]), 1200) {
        IssuePlan::Sign { auth } => auth,
        _ => panic!("expected a plan"),
    };
    issue_token_commit(&mut store, first, &ok_sign("t1")).unwrap();
    // The same email confirms again: the seal differs (seals are
    // nonce-bearing) but the hash is deterministic.
    let second = match auth_email_confirm_complete(&mut store, &ok_seal(9, &[0x77, 0x88]), 1300) {
        IssuePlan::Sign { auth } => auth,
        _ => panic!("expected a plan"),
    };
    assert_eq!(second.auth_id, 2);
    issue_token_commit(&mut store, second, &ok_sign("t2")).unwrap();
    assert_eq!(store.account_rows(), 1);
    assert_eq!(store.query_latest_auth_id(vec![9u8; 32].as_slice()), 2);
}

#[test]
fn sign_failure_prevents_insert_auth() {
    let mut store = IdentityStore::new();
    let auth = match auth_email_confirm_complete(&mut store, &ok_seal(9, &[0x11]), 1200) {
        IssuePlan::Sign { auth } => auth,
        _ => panic!("expected a plan"),
    };
    let mut sign = ok_sign("never");
    sign.status = TeeStatus::Other;
    let err = issue_token_commit(&mut store, auth, &sign).unwrap_err();
    assert_eq!(err.error_code, "SGXError");
    assert_eq!(err.error_msg, "sign auth failed");
    // The account row stays (it was sealed before signing), but no auth
    // history was written.
    assert_eq!(store.account_rows(), 1);
    assert_eq!(store.query_latest_auth_id(vec![9u8; 32].as_slice()), 0);
}

#[test]
fn oauth_variant_b_github() {
    let mut reg = SessionRegistry::new(600);
    let mut store = IdentityStore::new();
    let sid_hex = open_session(&mut reg, 7, 1000);

    let req = AuthOauthReq {
        session_id: sid_hex.clone(),
        cipher_code: "gh_code_xyz".to_string(),
        oauth_type: "github".to_string(),
    };
    let (auth_type, code) = match auth_oauth(&mut reg, &req, 1100, true) {
        OauthStep::Redeem { auth_type, code } => (auth_type, code),
        _ => panic!("expected the redeem step"),
    };
    assert_eq!(auth_type, AuthType::Github);
    assert_eq!(code, "gh_code_xyz");

    let plaintext = match oauth_redeem_complete(&Ok("42".to_string()), auth_type) {
        SealPlan::Seal { plaintext } => plaintext,
        _ => panic!("expected the seal step"),
    };
    assert_eq!(plaintext, "42@github");

    let auth = match auth_oauth_seal_complete(&mut store, &ok_seal(5, &[0x55]), auth_type, 1100) {
        IssuePlan::Sign { auth } => auth,
        _ => panic!("expected a plan"),
    };
    assert_eq!(auth.auth_type, AuthType::Github);
    assert_eq!(auth.auth_id, 1);
    let signed = issue_token_commit(&mut store, auth, &ok_sign("jwt.b")).unwrap();
    assert_eq!(signed.token, "jwt.b");
    assert_eq!(store.account_rows(), 1);
    assert_eq!(store.query_latest_auth_id(vec![5u8; 32].as_slice()), 1);
}

#[test]
fn second_auth_of_same_account() {
    let mut reg = SessionRegistry::new(600);
    let mut store = IdentityStore::new();
    let sid_hex = open_session(&mut reg, 7, 1000);
    let req = AuthOauthReq {
        session_id: sid_hex.clone(),
        cipher_code: "gh_code_1".to_string(),
        oauth_type: "github".to_string(),
    };
    for round in 0..2u32 {
        let (auth_type, _code) = match auth_oauth(&mut reg, &req, 1100, true) {
            OauthStep::Redeem { auth_type, code } => (auth_type, code),
            _ => panic!("expected the redeem step"),
        };
        match oauth_redeem_complete(&Ok("42".to_string()), auth_type) {
            SealPlan::Seal { plaintext } => assert_eq!(plaintext, "42@github"),
            _ => panic!("expected the seal step"),
        }
        let auth =
            match auth_oauth_seal_complete(&mut store, &ok_seal(5, &[0x55]), auth_type, 1100) {
                IssuePlan::Sign { auth } => auth,
                _ => panic!("expected a plan"),
            };
        assert_eq!(auth.auth_id, round + 1);
        issue_token_commit(&mut store, auth, &ok_sign("jwt.n")).unwrap();
    }
    assert_eq!(store.account_rows(), 1);
    assert_eq!(store.query_latest_auth_id(vec![5u8; 32].as_slice()), 2);
}

#[test]
fn missing_bearer_is_invalid_token() {
    let mut reg = SessionRegistry::new(600);
    let sid_hex = open_session(&mut reg, 7, 1000);
    let req = AuthOauthReq {
        session_id: sid_hex,
        cipher_code: "gh_code_xyz".to_string(),
        oauth_type: "github".to_string(),
    };
    match auth_oauth(&mut reg, &req, 1100, false) {
        OauthStep::Reply { resp, close_tee } => {
            assert_eq!(resp.status, "fail");
            assert_eq!(resp.error_code, "DataError");
            assert_eq!(resp.error_msg, "invalid token");
            assert_eq!(close_tee, None);
        },
        _ => panic!("expected a reply"),
    }
}

#[test]
fn two_exchanges_two_sessions() {
    let mut reg = SessionRegistry::new(600);
    let first = open_session(&mut reg, 1, 1000);
    let second = open_session(&mut reg, 2, 1000);
    assert_ne!(first, second);
    assert!(matches!(session_gate(&mut reg, &first, 1100), Gate::Proceed { .. }));
    assert!(matches!(session_gate(&mut reg, &second, 1100), Gate::Proceed { .. }));
}

#[test]
fn exchange_key_rejects_malformed_keys() {
    for bad in [
        "".to_string(),
        "04".to_string(),
        format!("05{}", "ab".repeat(64)),
        format!("04{}", "zz".repeat(64)),
        format!("04{}", "ab".repeat(63)),
        format!("04{}\u{00e9}a", "ab".repeat(63)),
    ] {
        let err = exchange_key(&ExchangeKeyReq { key: bad }).unwrap_err();
        assert_eq!(err.status, "fail");
        assert_eq!(err.error_code, "ReqError");
        assert_eq!(err.error_msg, "invalid key");
    }
}

#[test]
fn exchange_key_complete_reports_tee_failures() {
    let mut reg = SessionRegistry::new(600);
    let mut out = ok_key_exchange(0xcd, 7);
    out.transport = TeeStatus::Other;
    let err = exchange_key_complete(&mut reg, 1000, &out).unwrap_err();
    assert_eq!(err.error_code, "SgxError");
    assert_eq!(err.error_msg, "unsafe call failed");

    let mut out2 = ok_key_exchange(0xcd, 7);
    out2.status = TeeStatus::Other;
    let err2 = exchange_key_complete(&mut reg, 1000, &out2).unwrap_err();
    assert_eq!(err2.error_code, "SgxError");
    assert_eq!(err2.error_msg, "sgx return error");
}

#[test]
fn oauth2_tee_mediated_flow() {
    let mut reg = SessionRegistry::new(600);
    let mut store = IdentityStore::new();
    let sid_hex = open_session(&mut reg, 7, 1000);
    let req = AuthOauthReq {
        session_id: sid_hex.clone(),
        cipher_code: "a1b2".to_string(),
        oauth_type: "google".to_string(),
    };
    let (session_id, cipher_code, auth_type) = match auth_oauth2(&mut reg, &req, 1100) {
        Oauth2Step::AuthOauth { session_id, cipher_code, auth_type } => {
            (session_id, cipher_code, auth_type)
        },
        _ => panic!("expected the TEE call step"),
    };
    assert_eq!(session_id, vec![7u8; 32]);
    assert_eq!(cipher_code, vec![0xa1, 0xb2]);
    assert_eq!(auth_type, AuthType::Google);

    let auth = match auth_oauth2_complete(&mut store, &ok_seal(6, &[0x66]), auth_type, 1100) {
        IssuePlan::Sign { auth } => auth,
        _ => panic!("expected a plan"),
    };
    assert_eq!(auth.auth_type, AuthType::Google);
    let signed = issue_token_commit(&mut store, auth, &ok_sign("jwt.g")).unwrap();
    assert_eq!(signed.token, "jwt.g");
}

#[test]
fn oauth2_wrong_code_is_data_error() {
    let mut store = IdentityStore::new();
    let mut sealed = ok_seal(6, &[0x66]);
    sealed.status = TeeStatus::InvalidAttribute;
    match auth_oauth2_complete(&mut store, &sealed, AuthType::Google, 1100) {
        IssuePlan::Reply { resp } => {
            assert_eq!(resp.error_code, "DataError");
            assert_eq!(resp.error_msg, "confirm code does not match");
        },
        _ => panic!("expected a reply"),
    }
    assert_eq!(store.account_rows(), 0);
}

#[test]
fn oauth2_unknown_type_is_req_error() {
    let mut reg = SessionRegistry::new(600);
    let sid_hex = open_session(&mut reg, 7, 1000);
    let req = AuthOauthReq {
        session_id: sid_hex,
        cipher_code: "a1b2".to_string(),
        oauth_type: "gitlab".to_string(),
    };
    match auth_oauth2(&mut reg, &req, 1100) {
        Oauth2Step::Reply { resp, close_tee } => {
            assert_eq!(resp.error_code, "ReqError");
            assert_eq!(resp.error_msg, "oauth type not found");
            assert_eq!(close_tee, None);
        },
        _ => panic!("expected a reply"),
    }
}

#[test]
fn provider_failure_is_oauth_error() {
    match oauth_redeem_complete(&Err("redeem refused".to_string()), AuthType::Google) {
        SealPlan::Reply { resp } => {
            assert_eq!(resp.error_code, "OauthError");
            assert_eq!(resp.error_msg, "redeem refused");
        },
        _ => panic!("expected a reply"),
    }
}

#[test]
fn gate_rejects_unknown_and_malformed_session_ids() {
    let mut reg = SessionRegistry::new(600);
    match session_gate(&mut reg, &"07".repeat(32), 1000) {
        Gate::Reject { resp, close_tee } => {
            assert_eq!(resp.error_code, "DataError");
            assert_eq!(resp.error_msg, "session not found");
            assert_eq!(close_tee, None);
        },
        _ => panic!("expected a reply"),
    }
    match session_gate(&mut reg, "not-hex!", 1000) {
        Gate::Reject { resp, .. } => assert_eq!(resp.error_msg, "session not found"),
        _ => panic!("expected a reply"),
    }
}

#[test]
fn email_cipher_must_be_hex() {
    let mut reg = SessionRegistry::new(600);
    let sid_hex = open_session(&mut reg, 7, 1000);
    let req = AuthEmailReq { session_id: sid_hex, cipher_email: "xyz".to_string() };
    match auth_email(&mut reg, &req, 1100) {
        EmailStep::Reply { resp, close_tee } => {
            assert_eq!(resp.error_code, "ReqError");
            assert_eq!(resp.error_msg, "invalid hex");
            assert_eq!(close_tee, None);
        },
        _ => panic!("expected a reply"),
    }
}

#[test]
fn email_send_failure_is_sgx_error() {
    let bad = auth_email_complete(&PlainOutcome {
        transport: TeeStatus::Success,
        status: TeeStatus::Other,
    });
    assert_eq!(bad.status, "fail");
    assert_eq!(bad.error_code, "SgxError");
    assert_eq!(bad.error_msg, "sgx return error");
}

#[test]
fn health_message() {
    assert_eq!(health(), "Webapp is up and running!");
}

#[test]
fn commit_rejects_non_utf8_token() {
    let mut store = IdentityStore::new();
    let auth = match auth_email_confirm_complete(&mut store, &ok_seal(9, &[0x11]), 1200) {
        IssuePlan::Sign { auth } => auth,
        _ => panic!("expected a plan"),
    };
    let mut sign = ok_sign("x");
    sign.token[0] = 0xff;
    let err = issue_token_commit(&mut store, auth, &sign).unwrap_err();
    assert_eq!(err.error_code, "SGXError");
    assert_eq!(store.query_latest_auth_id(vec![9u8; 32].as_slice()), 0);
}
