//! Response envelopes and the closed set of error codes.

use vstd::prelude::*;
use vstd::string::*;

verus! {

broadcast use vstd::string::group_string_axioms;

/// The closed set of error codes a response may carry.  `SgxError` and
/// `SGXError` are distinct members of the set: the first reports a failed
/// TEE entry, the second a failed token signing.
#[derive(Clone, Copy, PartialEq, Eq, Structural, Debug)]
pub enum ErrorCode {
    SgxError,
    SGXError,
    DataError,
    OsError,
    ReqError,
    OauthError,
}

/// The wire text of an error code.
pub open spec fn code_text(c: ErrorCode) -> Seq<char> {
    match c {
        ErrorCode::SgxError => "SgxError"@,
        ErrorCode::SGXError => "SGXError"@,
        ErrorCode::DataError => "DataError"@,
        ErrorCode::OsError => "OsError"@,
        ErrorCode::ReqError => "ReqError"@,
        ErrorCode::OauthError => "OauthError"@,
    }
}

impl ErrorCode {
    /// The code as it is written into a response.
    pub fn text(&self) -> (r: &'static str)
        ensures
            r@ == code_text(*self),
    {
        match self {
            ErrorCode::SgxError => "SgxError",
            ErrorCode::SGXError => "SGXError",
            ErrorCode::DataError => "DataError",
            ErrorCode::OsError => "OsError",
            ErrorCode::ReqError => "ReqError",
            ErrorCode::OauthError => "OauthError",
        }
    }
}

/// Base response for most requests: `status` is either `success` or
/// `fail`; on failure the code and message say why.
#[derive(Debug)]
pub struct BaseResp {
    pub status: String,
    pub error_code: String,
    pub error_msg: String,
}

/// A failure envelope carrying exactly this code and message.
pub open spec fn is_fail(r: BaseResp, c: ErrorCode, msg: Seq<char>) -> bool {
    r.status@ == "fail"@ && r.error_code@ == code_text(c) && r.error_msg@ == msg
}

/// The failure envelope: `status` is `fail`.
pub fn fail_resp(code: ErrorCode, msg: &str) -> (r: BaseResp)
    ensures
        is_fail(r, code, msg@),
{
    BaseResp {
        status: String::from_str("fail"),
        error_code: String::from_str(code.text()),
        error_msg: String::from_str(msg),
    }
}

/// The bare success envelope: `status` is `success`, no error fields.
pub fn succ_resp() -> (r: BaseResp)
    ensures
        r.status@ == "success"@,
        r.error_code@ == ""@,
        r.error_msg@ == ""@,
{
    BaseResp {
        status: String::from_str("success"),
        error_code: String::from_str(""),
        error_msg: String::from_str(""),
    }
}

/// Key exchange request: the client's public key on the wire.
pub struct ExchangeKeyReq {
    pub key: String,
}

/// Key exchange response: the TEE public key and the fresh session id.
#[derive(Debug)]
pub struct ExchangeKeyResp {
    pub status: String,
    pub key: String,
    pub session_id: String,
}

/// Email challenge initiation request.
pub struct AuthEmailReq {
    pub session_id: String,
    pub cipher_email: String,
}

/// Email challenge confirmation request.
pub struct AuthEmailConfirmReq {
    pub session_id: String,
    pub cipher_code: String,
}

/// A successful authentication: the signed token.
#[derive(Debug)]
pub struct AuthSuccessResp {
    pub status: String,
    pub token: String,
}

/// OAuth2 challenge request, for either redemption variant.
#[derive(Debug)]
pub struct AuthOauthReq {
    pub session_id: String,
    pub cipher_code: String,
    pub oauth_type: String,
}

} // verus!
