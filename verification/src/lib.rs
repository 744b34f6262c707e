//! Server-side core of an attestation-backed enrollment and
//! challenge-response authentication protocol.
//!
//! A client enrolls an identity by submitting a hardware attestation quote;
//! the public key embedded in the quote's report-data window becomes the
//! account's long-term credential. Authentication is a session-scoped,
//! single-use challenge signed by the client with the matching private key.

pub mod auth;
pub mod bridge;
pub mod codec;
pub mod crypto;
pub mod enclave;
pub mod error;
pub mod kv;
pub mod message;
pub mod register;
pub mod sgx;
pub mod store;
