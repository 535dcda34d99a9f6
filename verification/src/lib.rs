//! Host-side core of an authentication gateway backed by a trusted
//! execution environment (TEE).
//!
//! The library holds the logic that is worth proving: the hex framing of
//! every value that crosses the client boundary, the registry of secure
//! sessions and their expiry, the durable identity store with its dense
//! per-account authentication history, and the per-endpoint decision
//! functions that drive the credential-proof protocols.  The TEE itself,
//! the HTTP server and the relational store are outside collaborators:
//! their calls are made by the surrounding application, which feeds the
//! outcomes back into the verified decision functions as plain values.

use vstd::prelude::*;

pub mod bytes;
pub mod flows;
pub mod hexcode;
pub mod session;
pub mod resp;
pub mod store;
pub mod tee;
