//! TEE Bridge outcomes, as plain values.
//!
//! Every TEE entry returns two status discriminators — a transport status
//! (did the call reach the TEE) and a logical status (the TEE's own
//! result) — plus fixed-size output buffers with, for variable-length
//! outputs, the number of bytes written.  The application performs the
//! entries on a worker thread and hands the outcomes back; the decision
//! functions here and in the flow module say what each outcome means,
//! whatever came back.

use vstd::prelude::*;

verus! {

/// A status discriminator as the logic reads it: success, the `invalid
/// attribute` discriminator (a wrong confirmation code), or anything
/// else.
#[derive(Clone, Copy, PartialEq, Eq, Structural, Debug)]
pub enum TeeStatus {
    Success,
    InvalidAttribute,
    Other,
}

/// Both discriminators report success.
pub open spec fn tee_ok(transport: TeeStatus, status: TeeStatus) -> bool {
    transport is Success && status is Success
}

/// Outcome of the `key_exchange` capability: the TEE public key and the
/// fresh session id.
pub struct KeyExchangeOutcome {
    pub transport: TeeStatus,
    pub status: TeeStatus,
    pub tee_key: Vec<u8>,
    pub session_id: Vec<u8>,
}

/// Outcome of a capability with no outputs (`send_cipher_email`,
/// `close_session`).
pub struct PlainOutcome {
    pub transport: TeeStatus,
    pub status: TeeStatus,
}

/// Outcome of a sealing capability (`register_email_confirm`,
/// `auth_oauth`, `seal`): the account hash, the fixed 1024-byte seal
/// buffer, and how much of it was written.
pub struct SealOutcome {
    pub transport: TeeStatus,
    pub status: TeeStatus,
    pub acc_hash: Vec<u8>,
    pub acc_seal: Vec<u8>,
    pub seal_len: usize,
}

/// Outcome of `sign_auth_jwt`: the fixed 1024-byte token buffer and how
/// much of it was written.
pub struct SignOutcome {
    pub transport: TeeStatus,
    pub status: TeeStatus,
    pub token: Vec<u8>,
    pub token_len: usize,
}

} // verus!
