//! The protocol's error vocabulary and its mapping onto HTTP-style status
//! codes: client mistakes answer with a 4xx code, infrastructure faults
//! with a 5xx code, and every cryptographic failure during authentication
//! is collapsed into one generic code so that callers cannot tell which
//! check failed.

use vstd::prelude::*;
use crate::sgx;

verus! {

/// Everything the enrollment and authentication protocol can report.
#[derive(Debug, Clone, Copy, PartialEq, Eq, Structural)]
pub enum AppError {
    /// The login already has a durable record, or a registration for it is
    /// already in flight.
    AlreadyRegistered,
    /// The login has no durable record.
    NotRegistered,
    /// No challenge is pending in the session (never issued, or consumed).
    InvalidChallenge,
    /// The session cookie failed its integrity check.
    InvalidCookie,
    /// The session is not authenticated.
    NotAuthenticated,
    /// The session is already authenticated.
    AlreadyAuthenticated,
    /// The attestation authority rejected the quote; the code is the
    /// authority's nonzero return code.
    AttestationRejected(i32),
    /// The durable user store could not be reached, or the background
    /// registration task failed to run at all.
    StoreUnavailable,
    /// The duplicate check passed but the insert lost the race.
    DuplicateOnInsert,
    /// The challenge response was not valid base64.
    InvalidEncoding,
    /// The signature did not verify, or the stored key was malformed.
    AuthenticationFailed,
    /// No entropy was available to mint a challenge.
    EntropyFailure,
    /// An attestation-evidence error (quote too short, nonce too long, ...).
    RustSgxUtil(sgx::Error),
}

impl AppError {
    /// Whether this error is the client's fault (4xx) rather than the
    /// server's (5xx).
    pub open spec fn is_client_error(&self) -> bool {
        !(self matches AppError::StoreUnavailable || self matches AppError::EntropyFailure)
    }

    /// The HTTP-style status code: 4xx for client errors, 5xx for
    /// infrastructure faults; authentication and authorization failures
    /// answer 403.
    pub fn status_code(&self) -> (r: u16)
        ensures
            r == match self {
                AppError::AlreadyRegistered => 400u16,
                AppError::NotRegistered => 400u16,
                AppError::InvalidChallenge => 400u16,
                AppError::InvalidCookie => 400u16,
                AppError::NotAuthenticated => 403u16,
                AppError::AlreadyAuthenticated => 403u16,
                AppError::AttestationRejected(_) => 400u16,
                AppError::StoreUnavailable => 500u16,
                AppError::DuplicateOnInsert => 400u16,
                AppError::InvalidEncoding => 400u16,
                AppError::AuthenticationFailed => 403u16,
                AppError::EntropyFailure => 500u16,
                AppError::RustSgxUtil(_) => 400u16,
            },
            self.is_client_error() <==> 400 <= r < 500,
    {
        match self {
            AppError::AlreadyRegistered => 400,
            AppError::NotRegistered => 400,
            AppError::InvalidChallenge => 400,
            AppError::InvalidCookie => 400,
            AppError::NotAuthenticated => 403,
            AppError::AlreadyAuthenticated => 403,
            AppError::AttestationRejected(_) => 400,
            AppError::StoreUnavailable => 500,
            AppError::DuplicateOnInsert => 400,
            AppError::InvalidEncoding => 400,
            AppError::AuthenticationFailed => 403,
            AppError::EntropyFailure => 500,
            AppError::RustSgxUtil(_) => 400,
        }
    }

    /// A machine-readable description for the response body.
    pub fn description(&self) -> (r: String)
        ensures
            r@ == match self {
                AppError::AlreadyRegistered => "user already registered"@,
                AppError::NotRegistered => "user not registered yet"@,
                AppError::InvalidChallenge => "invalid challenge"@,
                AppError::InvalidCookie => "invalid cookie"@,
                AppError::NotAuthenticated => "user not authenticated"@,
                AppError::AlreadyAuthenticated => "user already authenticated"@,
                AppError::AttestationRejected(_) => "attestation rejected"@,
                AppError::StoreUnavailable => "user store unavailable"@,
                AppError::DuplicateOnInsert => "registration lost an insert race"@,
                AppError::InvalidEncoding => "invalid base64 encoding"@,
                AppError::AuthenticationFailed => "authentication failed"@,
                AppError::EntropyFailure => "no entropy available"@,
                AppError::RustSgxUtil(_) => "attestation evidence error"@,
            },
    {
        match self {
            AppError::AlreadyRegistered => "user already registered".to_owned(),
            AppError::NotRegistered => "user not registered yet".to_owned(),
            AppError::InvalidChallenge => "invalid challenge".to_owned(),
            AppError::InvalidCookie => "invalid cookie".to_owned(),
            AppError::NotAuthenticated => "user not authenticated".to_owned(),
            AppError::AlreadyAuthenticated => "user already authenticated".to_owned(),
            AppError::AttestationRejected(_) => "attestation rejected".to_owned(),
            AppError::StoreUnavailable => "user store unavailable".to_owned(),
            AppError::DuplicateOnInsert => "registration lost an insert race".to_owned(),
            AppError::InvalidEncoding => "invalid base64 encoding".to_owned(),
            AppError::AuthenticationFailed => "authentication failed".to_owned(),
            AppError::EntropyFailure => "no entropy available".to_owned(),
            AppError::RustSgxUtil(_) => "attestation evidence error".to_owned(),
        }
    }
}

} // verus!
