//! Request Coordinator and engines: the per-endpoint decision logic.
//!
//! Every endpoint other than key exchange and health runs the same
//! prelude: look the session up, check its expiry (closing it on both
//! sides if past due), and decode the session id hex exactly once.  Each
//! endpoint is then a pair of decision functions around the TEE entries
//! the application performs: a step function that validates the request
//! and says which capability to call with which arguments, and a
//! completion function that says, for every possible outcome of the
//! call, what is persisted and what is answered.

use vstd::prelude::*;
use vstd::slice::slice_subrange;
use vstd::slice::slice_to_vec;
use vstd::string::*;
use vstd::utf8::valid_utf8;
use vstd::utf8::decode_utf8;
use crate::bytes::utf8_to_string;
use crate::hexcode::bytes_of_hex;
use crate::hexcode::hex_encode;
use crate::hexcode::hex_decode;
use crate::hexcode::hex_of;
use crate::hexcode::is_hex_str;
use crate::hexcode::parse_client_key;
use crate::hexcode::well_formed_client_key;
use crate::hexcode::wire_key_of;
use crate::resp::AuthEmailConfirmReq;
use crate::resp::AuthEmailReq;
use crate::resp::AuthOauthReq;
use crate::resp::AuthSuccessResp;
use crate::resp::BaseResp;
use crate::resp::ErrorCode;
use crate::resp::ExchangeKeyReq;
use crate::resp::ExchangeKeyResp;
use crate::resp::fail_resp;
use crate::resp::is_fail;
use crate::resp::succ_resp;
use crate::session::SessionCheck;
use crate::session::SessionRegistry;
use crate::store::Auth;
use crate::store::AuthRecord;
use crate::store::AuthType;
use crate::store::IdentityStore;
use crate::store::provider_text;
use crate::tee::KeyExchangeOutcome;
use crate::tee::PlainOutcome;
use crate::tee::SealOutcome;
use crate::tee::SignOutcome;
use crate::tee::TeeStatus;
use crate::tee::tee_ok;

verus! {

broadcast use vstd::string::group_string_axioms;

/// The session prelude: missing — no record under the decoded id (or the
/// id is not even hex, in which case no record can exist).
pub open spec fn gate_missing(reg: SessionRegistry, hex: Seq<char>) -> bool {
    !is_hex_str(hex) || !reg.has_session(bytes_of_hex(hex))
}

/// The session prelude: a record exists but its expiry has passed.
pub open spec fn gate_expired(reg: SessionRegistry, hex: Seq<char>, now: u64) -> bool {
    is_hex_str(hex) && reg.has_session(bytes_of_hex(hex)) && now >= reg.expiry_of(
        bytes_of_hex(hex),
    )
}

/// The session prelude: a live record exists.
pub open spec fn gate_valid(reg: SessionRegistry, hex: Seq<char>, now: u64) -> bool {
    is_hex_str(hex) && reg.has_session(bytes_of_hex(hex)) && now < reg.expiry_of(
        bytes_of_hex(hex),
    )
}

/// What the prelude decided: proceed with the decoded 32-byte session id,
/// or answer a failure (and, if the session just expired, tell the TEE to
/// drop its half of the state for this id).
pub enum Gate {
    Proceed { session_id: Vec<u8> },
    Reject { resp: BaseResp, close_tee: Option<Vec<u8>> },
}

/// The common prelude of every session-bound endpoint.
pub fn session_gate(reg: &mut SessionRegistry, session_id_hex: &str, now: u64) -> (g: Gate)
    requires
        old(reg).wf(),
    ensures
        final(reg).wf(),
        final(reg).default_ttl() == old(reg).default_ttl(),
        gate_missing(*old(reg), session_id_hex@) ==> (g matches Gate::Reject { resp, close_tee }
            && is_fail(resp, ErrorCode::DataError, "session not found"@) && close_tee is None
            && *final(reg) == *old(reg)),
        gate_expired(*old(reg), session_id_hex@, now) ==> (g matches Gate::Reject {
            resp,
            close_tee,
        } && is_fail(resp, ErrorCode::DataError, "session expired"@) && (close_tee matches Some(b)
            && b@ == bytes_of_hex(session_id_hex@)) && !final(reg).has_session(
            bytes_of_hex(session_id_hex@),
        )),
        gate_valid(*old(reg), session_id_hex@, now) ==> (g matches Gate::Proceed { session_id }
            && session_id@ == bytes_of_hex(session_id_hex@) && session_id@.len() == 32
            && *final(reg) == *old(reg)),
        forall|o: Seq<u8>|
            o != bytes_of_hex(session_id_hex@) ==> #[trigger] final(reg).has_session(o)
                == old(reg).has_session(o),
        forall|o: Seq<u8>|
            o != bytes_of_hex(session_id_hex@) && old(reg).has_session(o)
                ==> #[trigger] final(reg).expiry_of(o) == old(reg).expiry_of(o),
{
    match hex_decode(session_id_hex) {
        None => Gate::Reject {
            resp: fail_resp(ErrorCode::DataError, "session not found"),
            close_tee: None,
        },
        Some(sid) => {
            match reg.check_session(sid.as_slice(), now) {
                SessionCheck::Missing => Gate::Reject {
                    resp: fail_resp(ErrorCode::DataError, "session not found"),
                    close_tee: None,
                },
                SessionCheck::Valid => {
                    proof {
                        reg.lemma_session_id_len(sid@);
                    }
                    Gate::Proceed { session_id: sid }
                },
                SessionCheck::Expired => Gate::Reject {
                    resp: fail_resp(ErrorCode::DataError, "session expired"),
                    close_tee: Some(sid),
                },
            }
        },
    }
}

/// Validate a key exchange request: exactly the well-formed wire form is
/// accepted, and the `04` prefix is stripped before anything reaches the
/// TEE.  The accepted value is the 64-byte client public key.
pub fn exchange_key(req: &ExchangeKeyReq) -> (r: Result<Vec<u8>, BaseResp>)
    ensures
        r is Ok <==> well_formed_client_key(req.key@),
        r matches Ok(k) ==> k@ == bytes_of_hex(req.key@.skip(2)) && k@.len() == 64,
        r matches Err(resp) ==> is_fail(resp, ErrorCode::ReqError, "invalid key"@),
{
    match parse_client_key(req.key.as_str()) {
        Some(k) => Ok(k),
        None => Err(fail_resp(ErrorCode::ReqError, "invalid key")),
    }
}

/// Complete a key exchange: check both TEE discriminators, register the
/// fresh session, and frame the TEE public key and session id for the
/// wire (the `04` prefix goes back on here and only here).
pub fn exchange_key_complete(
    reg: &mut SessionRegistry,
    now: u64,
    tee: &KeyExchangeOutcome,
) -> (r: Result<ExchangeKeyResp, BaseResp>)
    requires
        old(reg).wf(),
        tee.tee_key@.len() == 64,
        tee.session_id@.len() == 32,
        now + old(reg).default_ttl() <= u64::MAX,
    ensures
        final(reg).wf(),
        final(reg).default_ttl() == old(reg).default_ttl(),
        r is Ok <==> tee_ok(tee.transport, tee.status),
        !(tee.transport is Success) ==> (r matches Err(resp) && is_fail(
            resp,
            ErrorCode::SgxError,
            "unsafe call failed"@,
        ) && *final(reg) == *old(reg)),
        tee.transport is Success && !(tee.status is Success) ==> (r matches Err(resp) && is_fail(
            resp,
            ErrorCode::SgxError,
            "sgx return error"@,
        ) && *final(reg) == *old(reg)),
        r matches Ok(resp) ==> resp.status@ == "success"@ && resp.key@ == seq!['0', '4'] + hex_of(
            tee.tee_key@,
        ) && resp.session_id@ == hex_of(tee.session_id@) && final(reg).has_session(tee.session_id@)
            && final(reg).expiry_of(tee.session_id@) == now + old(reg).default_ttl(),
        forall|o: Seq<u8>|
            o != tee.session_id@ ==> #[trigger] final(reg).has_session(o)
                == old(reg).has_session(o),
        forall|o: Seq<u8>|
            o != tee.session_id@ && old(reg).has_session(o) ==> #[trigger] final(reg).expiry_of(o)
                == old(reg).expiry_of(o),
{
    if !matches!(tee.transport, TeeStatus::Success) {
        return Err(fail_resp(ErrorCode::SgxError, "unsafe call failed"));
    }
    if !matches!(tee.status, TeeStatus::Success) {
        return Err(fail_resp(ErrorCode::SgxError, "sgx return error"));
    }
    let key_wire = wire_key_of(tee.tee_key.as_slice());
    let session_id_hex = hex_encode(tee.session_id.as_slice());
    reg.register_session(tee.session_id.as_slice(), now);
    Ok(
        ExchangeKeyResp {
            status: String::from_str("success"),
            key: key_wire,
            session_id: session_id_hex,
        },
    )
}

/// An issued session id reaches exactly its own registry record on every
/// later request.  Decoding the hex form of a registered 32-byte id gives
/// that same id, and the record is found: before its expiry the request
/// may proceed, at or after its expiry the answer is the expiry failure,
/// and the not-found failure cannot happen.
pub proof fn lemma_issued_session_gates(reg: SessionRegistry, sid: Seq<u8>, now: u64)
    requires
        reg.wf(),
        sid.len() == 32,
        reg.has_session(sid),
    ensures
        !gate_missing(reg, hex_of(sid)),
        gate_valid(reg, hex_of(sid), now) <==> now < reg.expiry_of(sid),
        gate_expired(reg, hex_of(sid), now) <==> now >= reg.expiry_of(sid),
{
    crate::hexcode::lemma_hex_round_trip(sid);
}

/// What the email initiation decided: answer now, or have the
/// `send_cipher_email` capability called with these arguments.
pub enum EmailStep {
    Reply { resp: BaseResp, close_tee: Option<Vec<u8>> },
    SendCipherEmail { session_id: Vec<u8>, cipher_email: Vec<u8> },
}

/// Initiate the email challenge: run the prelude, then decode the
/// ciphertext and hand it to the TEE, which mails the code itself.
pub fn auth_email(reg: &mut SessionRegistry, req: &AuthEmailReq, now: u64) -> (r: EmailStep)
    requires
        old(reg).wf(),
    ensures
        final(reg).wf(),
        final(reg).default_ttl() == old(reg).default_ttl(),
        forall|o: Seq<u8>|
            o != bytes_of_hex(req.session_id@) ==> #[trigger] final(reg).has_session(o)
                == old(reg).has_session(o),
        forall|o: Seq<u8>|
            o != bytes_of_hex(req.session_id@) && old(reg).has_session(o)
                ==> #[trigger] final(reg).expiry_of(o) == old(reg).expiry_of(o),
        gate_missing(*old(reg), req.session_id@) ==> (r matches EmailStep::Reply {
            resp,
            close_tee,
        } && is_fail(resp, ErrorCode::DataError, "session not found"@) && close_tee is None
            && *final(reg) == *old(reg)),
        gate_expired(*old(reg), req.session_id@, now) ==> (r matches EmailStep::Reply {
            resp,
            close_tee,
        } && is_fail(resp, ErrorCode::DataError, "session expired"@) && (close_tee matches Some(b)
            && b@ == bytes_of_hex(req.session_id@)) && !final(reg).has_session(
            bytes_of_hex(req.session_id@),
        )),
        gate_valid(*old(reg), req.session_id@, now) && !is_hex_str(req.cipher_email@)
            ==> (r matches EmailStep::Reply { resp, close_tee } && is_fail(
            resp,
            ErrorCode::ReqError,
            "invalid hex"@,
        ) && close_tee is None && *final(reg) == *old(reg)),
        gate_valid(*old(reg), req.session_id@, now) && is_hex_str(req.cipher_email@)
            ==> (r matches EmailStep::SendCipherEmail { session_id, cipher_email } && session_id@
            == bytes_of_hex(req.session_id@) && session_id@.len() == 32 && cipher_email@
            == bytes_of_hex(req.cipher_email@) && *final(reg) == *old(reg)),
{
    match session_gate(reg, req.session_id.as_str(), now) {
        Gate::Reject { resp, close_tee } => EmailStep::Reply { resp, close_tee },
        Gate::Proceed { session_id } => {
            match hex_decode(req.cipher_email.as_str()) {
                None => EmailStep::Reply {
                    resp: fail_resp(ErrorCode::ReqError, "invalid hex"),
                    close_tee: None,
                },
                Some(cipher) => EmailStep::SendCipherEmail { session_id, cipher_email: cipher },
            }
        },
    }
}

/// Complete the email initiation: both discriminators must report
/// success; the success answer is the bare envelope, since the code
/// travels over the TEE's own side channel.
pub fn auth_email_complete(tee: &PlainOutcome) -> (r: BaseResp)
    ensures
        !(tee.transport is Success) ==> is_fail(r, ErrorCode::SgxError, "unsafe call failed"@),
        tee.transport is Success && !(tee.status is Success) ==> is_fail(
            r,
            ErrorCode::SgxError,
            "sgx return error"@,
        ),
        tee_ok(tee.transport, tee.status) ==> r.status@ == "success"@ && r.error_code@ == ""@
            && r.error_msg@ == ""@,
{
    if !matches!(tee.transport, TeeStatus::Success) {
        fail_resp(ErrorCode::SgxError, "unsafe call failed")
    } else if !matches!(tee.status, TeeStatus::Success) {
        fail_resp(ErrorCode::SgxError, "sgx return error")
    } else {
        succ_resp()
    }
}

/// What the email confirmation decided: answer now, or have the
/// `register_email_confirm` capability called with these arguments.
pub enum ConfirmStep {
    Reply { resp: BaseResp, close_tee: Option<Vec<u8>> },
    RegisterEmailConfirm { session_id: Vec<u8>, cipher_code: Vec<u8> },
}

/// Confirm the email challenge: run the prelude, then decode the cipher
/// code and hand it to the TEE for comparison against the stored code.
pub fn auth_email_confirm(
    reg: &mut SessionRegistry,
    req: &AuthEmailConfirmReq,
    now: u64,
) -> (r: ConfirmStep)
    requires
        old(reg).wf(),
    ensures
        final(reg).wf(),
        final(reg).default_ttl() == old(reg).default_ttl(),
        forall|o: Seq<u8>|
            o != bytes_of_hex(req.session_id@) ==> #[trigger] final(reg).has_session(o)
                == old(reg).has_session(o),
        forall|o: Seq<u8>|
            o != bytes_of_hex(req.session_id@) && old(reg).has_session(o)
                ==> #[trigger] final(reg).expiry_of(o) == old(reg).expiry_of(o),
        gate_missing(*old(reg), req.session_id@) ==> (r matches ConfirmStep::Reply {
            resp,
            close_tee,
        } && is_fail(resp, ErrorCode::DataError, "session not found"@) && close_tee is None
            && *final(reg) == *old(reg)),
        gate_expired(*old(reg), req.session_id@, now) ==> (r matches ConfirmStep::Reply {
            resp,
            close_tee,
        } && is_fail(resp, ErrorCode::DataError, "session expired"@) && (close_tee matches Some(b)
            && b@ == bytes_of_hex(req.session_id@)) && !final(reg).has_session(
            bytes_of_hex(req.session_id@),
        )),
        gate_valid(*old(reg), req.session_id@, now) && !is_hex_str(req.cipher_code@)
            ==> (r matches ConfirmStep::Reply { resp, close_tee } && is_fail(
            resp,
            ErrorCode::ReqError,
            "invalid hex"@,
        ) && close_tee is None && *final(reg) == *old(reg)),
        gate_valid(*old(reg), req.session_id@, now) && is_hex_str(req.cipher_code@)
            ==> (r matches ConfirmStep::RegisterEmailConfirm { session_id, cipher_code }
            && session_id@ == bytes_of_hex(req.session_id@) && session_id@.len() == 32
            && cipher_code@ == bytes_of_hex(req.cipher_code@) && *final(reg) == *old(reg)),
{
    match session_gate(reg, req.session_id.as_str(), now) {
        Gate::Reject { resp, close_tee } => ConfirmStep::Reply { resp, close_tee },
        Gate::Proceed { session_id } => {
            match hex_decode(req.cipher_code.as_str()) {
                None => ConfirmStep::Reply {
                    resp: fail_resp(ErrorCode::ReqError, "invalid hex"),
                    close_tee: None,
                },
                Some(cipher) => ConfirmStep::RegisterEmailConfirm {
                    session_id,
                    cipher_code: cipher,
                },
            }
        },
    }
}

/// What a completed credential proof leads to: answer a failure now, or
/// build this `Auth` record and have `sign_auth_jwt` called for it.
pub enum IssuePlan {
    Reply { resp: BaseResp },
    Sign { auth: Auth },
}

/// Upsert the proven identity and plan its next auth record: the account
/// row is created only if the hash is new; the record takes the next
/// dense `auth_id` and expires an hour from now.  Nothing is inserted
/// into the history yet: that waits for the signing outcome.
fn upsert_and_plan(
    store: &mut IdentityStore,
    acc_hash: &Vec<u8>,
    acc_seal: Vec<u8>,
    auth_type: AuthType,
    now: u64,
) -> (a: Auth)
    requires
        old(store).wf(),
        acc_hash@.len() == 32,
        acc_seal@.len() <= 1024,
        now + 3600 <= u64::MAX,
        old(store).auth_count(acc_hash@) + 1 <= u32::MAX,
    ensures
        final(store).wf(),
        final(store).has_account(acc_hash@),
        old(store).has_account(acc_hash@) ==> *final(store) == *old(store),
        !old(store).has_account(acc_hash@) ==> final(store).seal_of(acc_hash@) == acc_seal@
            && final(store).auths_of(acc_hash@) == Seq::<AuthRecord>::empty(),
        forall|o: Seq<u8>|
            o != acc_hash@ ==> #[trigger] final(store).has_account(o)
                == old(store).has_account(o),
        forall|o: Seq<u8>|
            o != acc_hash@ && old(store).has_account(o) ==> #[trigger] final(store).auths_of(o)
                == old(store).auths_of(o) && final(store).seal_of(o) == old(store).seal_of(o),
        a.acc_hash@ == acc_hash@,
        a.auth_id == old(store).auth_count(acc_hash@) + 1,
        a.auth_id == final(store).auth_count(acc_hash@) + 1,
        a.auth_type == auth_type,
        a.auth_datetime == now,
        a.auth_exp == now + 3600,
{
    store.insert_account_if_new(acc_hash.as_slice(), acc_seal.as_slice());
    let latest = store.query_latest_auth_id(acc_hash.as_slice());
    Auth {
        acc_hash: slice_to_vec(acc_hash.as_slice()),
        auth_id: latest + 1,
        auth_type,
        auth_datetime: now,
        auth_exp: now + 3600,
    }
}

/// Complete the email confirmation.  The `invalid attribute`
/// discriminator means the code did not match: that answers `OsError /
/// OAuth failed` and touches no row.  Only a full success upserts the
/// account and plans the token.
pub fn auth_email_confirm_complete(
    store: &mut IdentityStore,
    tee: &SealOutcome,
    now: u64,
) -> (r: IssuePlan)
    requires
        old(store).wf(),
        tee.acc_hash@.len() == 32,
        tee.seal_len <= tee.acc_seal@.len(),
        tee.seal_len <= 1024,
        now + 3600 <= u64::MAX,
        old(store).auth_count(tee.acc_hash@) + 1 <= u32::MAX,
    ensures
        final(store).wf(),
        !(tee.transport is Success) ==> (r matches IssuePlan::Reply { resp } && is_fail(
            resp,
            ErrorCode::SgxError,
            "unsafe call failed"@,
        ) && *final(store) == *old(store)),
        tee.transport is Success && tee.status is InvalidAttribute ==> (r matches IssuePlan::Reply {
            resp,
        } && is_fail(resp, ErrorCode::OsError, "OAuth failed"@) && *final(store) == *old(store)),
        tee.transport is Success && tee.status is Other ==> (r matches IssuePlan::Reply { resp }
            && is_fail(resp, ErrorCode::SgxError, "sgx return error"@) && *final(store) == *old(
            store,
        )),
        tee_ok(tee.transport, tee.status) ==> (r matches IssuePlan::Sign { auth }
            && plan_holds(*old(store), *final(store), auth, *tee, AuthType::Email, now)),
{
    if !matches!(tee.transport, TeeStatus::Success) {
        return IssuePlan::Reply { resp: fail_resp(ErrorCode::SgxError, "unsafe call failed") };
    }
    match tee.status {
        TeeStatus::InvalidAttribute => IssuePlan::Reply {
            resp: fail_resp(ErrorCode::OsError, "OAuth failed"),
        },
        TeeStatus::Other => IssuePlan::Reply {
            resp: fail_resp(ErrorCode::SgxError, "sgx return error"),
        },
        TeeStatus::Success => {
            let seal = slice_to_vec(slice_subrange(tee.acc_seal.as_slice(), 0, tee.seal_len));
            let auth = upsert_and_plan(store, &tee.acc_hash, seal, AuthType::Email, now);
            IssuePlan::Sign { auth }
        },
    }
}

/// What a successful sealing outcome guarantees of the store and of the
/// planned record: the account is upserted (created only if new, with
/// exactly the seal bytes the TEE wrote), every other account is
/// untouched, and the planned record carries the next dense id, the
/// proof's type, and an expiry an hour out.
pub open spec fn plan_holds(
    before: IdentityStore,
    after: IdentityStore,
    auth: Auth,
    tee: SealOutcome,
    auth_type: AuthType,
    now: u64,
) -> bool {
    &&& after.has_account(tee.acc_hash@)
    &&& (before.has_account(tee.acc_hash@) ==> after == before)
    &&& (!before.has_account(tee.acc_hash@) ==> after.seal_of(tee.acc_hash@)
        == tee.acc_seal@.subrange(0, tee.seal_len as int) && after.auths_of(tee.acc_hash@)
        == Seq::<AuthRecord>::empty())
    &&& (forall|o: Seq<u8>|
        o != tee.acc_hash@ ==> #[trigger] after.has_account(o) == before.has_account(o))
    &&& (forall|o: Seq<u8>|
        o != tee.acc_hash@ && before.has_account(o) ==> #[trigger] after.auths_of(o)
            == before.auths_of(o) && after.seal_of(o) == before.seal_of(o))
    &&& auth.acc_hash@ == tee.acc_hash@
    &&& auth.auth_id == before.auth_count(tee.acc_hash@) + 1
    &&& auth.auth_id == after.auth_count(tee.acc_hash@) + 1
    &&& auth.auth_type == auth_type
    &&& auth.auth_datetime == now
    &&& auth.auth_exp == now + 3600
}

/// Issue the token and persist the history, in that order: a signing
/// failure (either discriminator, or a token that is not UTF-8) answers
/// `SGXError / sign auth failed` and leaves no auth row behind; only a
/// signed token is followed by `insert_auth`.
pub fn issue_token_commit(
    store: &mut IdentityStore,
    auth: Auth,
    tee: &SignOutcome,
) -> (r: Result<AuthSuccessResp, BaseResp>)
    requires
        old(store).wf(),
        old(store).has_account(auth.acc_hash@),
        auth.auth_id == old(store).auth_count(auth.acc_hash@) + 1,
        tee.token_len <= tee.token@.len(),
    ensures
        final(store).wf(),
        !tee_ok(tee.transport, tee.status) || !valid_utf8(
            tee.token@.subrange(0, tee.token_len as int),
        ) ==> (r matches Err(resp) && is_fail(resp, ErrorCode::SGXError, "sign auth failed"@)
            && *final(store) == *old(store)),
        tee_ok(tee.transport, tee.status) && valid_utf8(
            tee.token@.subrange(0, tee.token_len as int),
        ) ==> (r matches Ok(resp) && resp.status@ == "success"@ && resp.token@ == decode_utf8(
            tee.token@.subrange(0, tee.token_len as int),
        ) && final(store).auths_of(auth.acc_hash@) == old(store).auths_of(auth.acc_hash@).push(
            auth.record(),
        ) && final(store).seal_of(auth.acc_hash@) == old(store).seal_of(auth.acc_hash@)),
        forall|o: Seq<u8>| #[trigger]
            final(store).has_account(o) == old(store).has_account(o),
        forall|o: Seq<u8>|
            o != auth.acc_hash@ && old(store).has_account(o) ==> #[trigger] final(store).auths_of(
                o,
            ) == old(store).auths_of(o) && final(store).seal_of(o) == old(store).seal_of(o),
{
    if !matches!(tee.transport, TeeStatus::Success) || !matches!(tee.status, TeeStatus::Success) {
        return Err(fail_resp(ErrorCode::SGXError, "sign auth failed"));
    }
    let token_bytes = slice_to_vec(slice_subrange(tee.token.as_slice(), 0, tee.token_len));
    match utf8_to_string(token_bytes) {
        None => Err(fail_resp(ErrorCode::SGXError, "sign auth failed")),
        Some(token) => {
            store.insert_auth(&auth);
            Ok(AuthSuccessResp { status: String::from_str("success"), token })
        },
    }
}

/// What the TEE-mediated OAuth endpoint decided: answer now, or have the
/// `auth_oauth` capability called with these arguments.
pub enum Oauth2Step {
    Reply { resp: BaseResp, close_tee: Option<Vec<u8>> },
    AuthOauth { session_id: Vec<u8>, cipher_code: Vec<u8>, auth_type: AuthType },
}

/// TEE-mediated OAuth redemption: run the prelude, resolve the provider,
/// decode the cipher code, and hand everything to the TEE, which redeems
/// the code inside the trusted boundary.
pub fn auth_oauth2(reg: &mut SessionRegistry, req: &AuthOauthReq, now: u64) -> (r: Oauth2Step)
    requires
        old(reg).wf(),
    ensures
        final(reg).wf(),
        final(reg).default_ttl() == old(reg).default_ttl(),
        forall|o: Seq<u8>|
            o != bytes_of_hex(req.session_id@) ==> #[trigger] final(reg).has_session(o)
                == old(reg).has_session(o),
        forall|o: Seq<u8>|
            o != bytes_of_hex(req.session_id@) && old(reg).has_session(o)
                ==> #[trigger] final(reg).expiry_of(o) == old(reg).expiry_of(o),
        gate_missing(*old(reg), req.session_id@) ==> (r matches Oauth2Step::Reply {
            resp,
            close_tee,
        } && is_fail(resp, ErrorCode::DataError, "session not found"@) && close_tee is None
            && *final(reg) == *old(reg)),
        gate_expired(*old(reg), req.session_id@, now) ==> (r matches Oauth2Step::Reply {
            resp,
            close_tee,
        } && is_fail(resp, ErrorCode::DataError, "session expired"@) && (close_tee matches Some(b)
            && b@ == bytes_of_hex(req.session_id@)) && !final(reg).has_session(
            bytes_of_hex(req.session_id@),
        )),
        gate_valid(*old(reg), req.session_id@, now) && req.oauth_type@ != "google"@
            && req.oauth_type@ != "github"@ ==> (r matches Oauth2Step::Reply { resp, close_tee }
            && is_fail(resp, ErrorCode::ReqError, "oauth type not found"@) && close_tee is None
            && *final(reg) == *old(reg)),
        gate_valid(*old(reg), req.session_id@, now) && (req.oauth_type@ == "google"@
            || req.oauth_type@ == "github"@) && !is_hex_str(req.cipher_code@) ==> (
        r matches Oauth2Step::Reply { resp, close_tee } && is_fail(
            resp,
            ErrorCode::ReqError,
            "invalid hex"@,
        ) && close_tee is None && *final(reg) == *old(reg)),
        gate_valid(*old(reg), req.session_id@, now) && (req.oauth_type@ == "google"@
            || req.oauth_type@ == "github"@) && is_hex_str(req.cipher_code@) ==> (
        r matches Oauth2Step::AuthOauth { session_id, cipher_code, auth_type } && session_id@
            == bytes_of_hex(req.session_id@) && session_id@.len() == 32 && cipher_code@
            == bytes_of_hex(req.cipher_code@) && (req.oauth_type@ == "google"@ ==> auth_type
            == AuthType::Google) && (req.oauth_type@ == "github"@ ==> auth_type == AuthType::Github)
            && *final(reg) == *old(reg)),
{
    match session_gate(reg, req.session_id.as_str(), now) {
        Gate::Reject { resp, close_tee } => Oauth2Step::Reply { resp, close_tee },
        Gate::Proceed { session_id } => {
            match AuthType::from_str(&req.oauth_type) {
                None => Oauth2Step::Reply {
                    resp: fail_resp(ErrorCode::ReqError, "oauth type not found"),
                    close_tee: None,
                },
                Some(auth_type) => {
                    match hex_decode(req.cipher_code.as_str()) {
                        None => Oauth2Step::Reply {
                            resp: fail_resp(ErrorCode::ReqError, "invalid hex"),
                            close_tee: None,
                        },
                        Some(cipher) => Oauth2Step::AuthOauth {
                            session_id,
                            cipher_code: cipher,
                            auth_type,
                        },
                    }
                },
            }
        },
    }
}

/// Complete the TEE-mediated OAuth redemption.  The `invalid attribute`
/// discriminator is the one user-meaningful failure (the confirm code did
/// not match); everything else collapses to an SGX failure.  Only a full
/// success upserts the account and plans the token.
pub fn auth_oauth2_complete(
    store: &mut IdentityStore,
    tee: &SealOutcome,
    auth_type: AuthType,
    now: u64,
) -> (r: IssuePlan)
    requires
        old(store).wf(),
        tee.acc_hash@.len() == 32,
        tee.seal_len <= tee.acc_seal@.len(),
        tee.seal_len <= 1024,
        now + 3600 <= u64::MAX,
        old(store).auth_count(tee.acc_hash@) + 1 <= u32::MAX,
    ensures
        final(store).wf(),
        !(tee.transport is Success) ==> (r matches IssuePlan::Reply { resp } && is_fail(
            resp,
            ErrorCode::SGXError,
            ""@,
        ) && *final(store) == *old(store)),
        tee.transport is Success && tee.status is InvalidAttribute ==> (r matches IssuePlan::Reply {
            resp,
        } && is_fail(resp, ErrorCode::DataError, "confirm code does not match"@) && *final(store)
            == *old(store)),
        tee.transport is Success && tee.status is Other ==> (r matches IssuePlan::Reply { resp }
            && is_fail(resp, ErrorCode::SgxError, ""@) && *final(store) == *old(store)),
        tee_ok(tee.transport, tee.status) ==> (r matches IssuePlan::Sign { auth } && plan_holds(
            *old(store),
            *final(store),
            auth,
            *tee,
            auth_type,
            now,
        )),
{
    if !matches!(tee.transport, TeeStatus::Success) {
        return IssuePlan::Reply { resp: fail_resp(ErrorCode::SGXError, "") };
    }
    match tee.status {
        TeeStatus::InvalidAttribute => IssuePlan::Reply {
            resp: fail_resp(ErrorCode::DataError, "confirm code does not match"),
        },
        TeeStatus::Other => IssuePlan::Reply { resp: fail_resp(ErrorCode::SgxError, "") },
        TeeStatus::Success => {
            let seal = slice_to_vec(slice_subrange(tee.acc_seal.as_slice(), 0, tee.seal_len));
            let auth = upsert_and_plan(store, &tee.acc_hash, seal, auth_type, now);
            IssuePlan::Sign { auth }
        },
    }
}

/// What the host-mediated OAuth endpoint decided: answer now, or redeem
/// this code with the provider (an HTTPS exchange the application
/// performs) before sealing.
pub enum OauthStep {
    Reply { resp: BaseResp, close_tee: Option<Vec<u8>> },
    Redeem { auth_type: AuthType, code: String },
}

/// Host-mediated OAuth redemption: run the prelude, demand a valid bearer
/// token (its claims are verified against the configured secret by the
/// caller), resolve the provider, and pass the code through for the
/// host-side exchange.
pub fn auth_oauth(
    reg: &mut SessionRegistry,
    req: &AuthOauthReq,
    now: u64,
    bearer_claims_valid: bool,
) -> (r: OauthStep)
    requires
        old(reg).wf(),
    ensures
        final(reg).wf(),
        final(reg).default_ttl() == old(reg).default_ttl(),
        forall|o: Seq<u8>|
            o != bytes_of_hex(req.session_id@) ==> #[trigger] final(reg).has_session(o)
                == old(reg).has_session(o),
        forall|o: Seq<u8>|
            o != bytes_of_hex(req.session_id@) && old(reg).has_session(o)
                ==> #[trigger] final(reg).expiry_of(o) == old(reg).expiry_of(o),
        gate_missing(*old(reg), req.session_id@) ==> (r matches OauthStep::Reply {
            resp,
            close_tee,
        } && is_fail(resp, ErrorCode::DataError, "session not found"@) && close_tee is None
            && *final(reg) == *old(reg)),
        gate_expired(*old(reg), req.session_id@, now) ==> (r matches OauthStep::Reply {
            resp,
            close_tee,
        } && is_fail(resp, ErrorCode::DataError, "session expired"@) && (close_tee matches Some(b)
            && b@ == bytes_of_hex(req.session_id@)) && !final(reg).has_session(
            bytes_of_hex(req.session_id@),
        )),
        gate_valid(*old(reg), req.session_id@, now) && !bearer_claims_valid ==> (
        r matches OauthStep::Reply { resp, close_tee } && is_fail(
            resp,
            ErrorCode::DataError,
            "invalid token"@,
        ) && close_tee is None && *final(reg) == *old(reg)),
        gate_valid(*old(reg), req.session_id@, now) && bearer_claims_valid && req.oauth_type@
            != "google"@ && req.oauth_type@ != "github"@ ==> (r matches OauthStep::Reply {
            resp,
            close_tee,
        } && is_fail(resp, ErrorCode::ReqError, "oauth type not found"@) && close_tee is None
            && *final(reg) == *old(reg)),
        gate_valid(*old(reg), req.session_id@, now) && bearer_claims_valid && (req.oauth_type@
            == "google"@ || req.oauth_type@ == "github"@) ==> (r matches OauthStep::Redeem {
            auth_type,
            code,
        } && code@ == req.cipher_code@ && (req.oauth_type@ == "google"@ ==> auth_type
            == AuthType::Google) && (req.oauth_type@ == "github"@ ==> auth_type == AuthType::Github)
            && *final(reg) == *old(reg)),
{
    match session_gate(reg, req.session_id.as_str(), now) {
        Gate::Reject { resp, close_tee } => OauthStep::Reply { resp, close_tee },
        Gate::Proceed { session_id: _session_id } => {
            if !bearer_claims_valid {
                return OauthStep::Reply {
                    resp: fail_resp(ErrorCode::DataError, "invalid token"),
                    close_tee: None,
                };
            }
            match AuthType::from_str(&req.oauth_type) {
                None => OauthStep::Reply {
                    resp: fail_resp(ErrorCode::ReqError, "oauth type not found"),
                    close_tee: None,
                },
                Some(auth_type) => OauthStep::Redeem { auth_type, code: req.cipher_code.clone() },
            }
        },
    }
}

/// What a finished provider exchange leads to: answer the provider's
/// error, or seal this plaintext in the TEE.
pub enum SealPlan {
    Reply { resp: BaseResp },
    Seal { plaintext: String },
}

/// Turn the provider exchange's result into the sealing step: a failure
/// answers `OauthError` with the provider's message; a redeemed subject
/// is composed into the canonical `subject@provider` plaintext.
pub fn oauth_redeem_complete(redeemed: &Result<String, String>, auth_type: AuthType) -> (r:
    SealPlan)
    ensures
        redeemed matches Err(m) ==> (r matches SealPlan::Reply { resp } && is_fail(
            resp,
            ErrorCode::OauthError,
            m@,
        )),
        redeemed matches Ok(subject) ==> (r matches SealPlan::Seal { plaintext } && plaintext@
            == subject@ + "@"@ + provider_text(auth_type)),
{
    match redeemed {
        Err(m) => SealPlan::Reply { resp: fail_resp(ErrorCode::OauthError, m.as_str()) },
        Ok(subject) => {
            let mut plaintext = subject.clone();
            plaintext.append("@");
            plaintext.append(auth_type.provider_name());
            SealPlan::Seal { plaintext }
        },
    }
}

/// Complete the host-mediated sealing: both discriminators must report
/// success; only then is the account upserted and the token planned.
pub fn auth_oauth_seal_complete(
    store: &mut IdentityStore,
    tee: &SealOutcome,
    auth_type: AuthType,
    now: u64,
) -> (r: IssuePlan)
    requires
        old(store).wf(),
        tee.acc_hash@.len() == 32,
        tee.seal_len <= tee.acc_seal@.len(),
        tee.seal_len <= 1024,
        now + 3600 <= u64::MAX,
        old(store).auth_count(tee.acc_hash@) + 1 <= u32::MAX,
    ensures
        final(store).wf(),
        !(tee.transport is Success) ==> (r matches IssuePlan::Reply { resp } && is_fail(
            resp,
            ErrorCode::SgxError,
            ""@,
        ) && *final(store) == *old(store)),
        tee.transport is Success && !(tee.status is Success) ==> (r matches IssuePlan::Reply {
            resp,
        } && is_fail(resp, ErrorCode::SgxError, "sgx return error"@) && *final(store) == *old(
            store,
        )),
        tee_ok(tee.transport, tee.status) ==> (r matches IssuePlan::Sign { auth } && plan_holds(
            *old(store),
            *final(store),
            auth,
            *tee,
            auth_type,
            now,
        )),
{
    if !matches!(tee.transport, TeeStatus::Success) {
        return IssuePlan::Reply { resp: fail_resp(ErrorCode::SgxError, "") };
    }
    if !matches!(tee.status, TeeStatus::Success) {
        return IssuePlan::Reply { resp: fail_resp(ErrorCode::SgxError, "sgx return error") };
    }
    let seal = slice_to_vec(slice_subrange(tee.acc_seal.as_slice(), 0, tee.seal_len));
    let auth = upsert_and_plan(store, &tee.acc_hash, seal, auth_type, now);
    IssuePlan::Sign { auth }
}

/// The health check's body.
pub fn health() -> (r: String)
    ensures
        r@ == "Webapp is up and running!"@,
{
    String::from_str("Webapp is up and running!")
}

} // verus!
