//! The challenge-response authenticator: issues a session-scoped,
//! single-use random challenge, and marks the session authenticated when
//! the client returns a valid Ed25519 signature of the challenge bytes
//! under the login's stored public key.
//!
//! Per session the states are: no challenge, challenge issued,
//! authenticated. Issuing is idempotent while a challenge is pending; a
//! challenge is consumed by the first verification attempt that reads it,
//! whatever its outcome.

use vstd::prelude::*;
use crate::codec::{b64_decode, b64_decode_of, b64_encode, b64_of};
use crate::crypto::{ed25519_accepts, ed25519_verify, random_bytes};
use crate::error::AppError;
use crate::store::UserStore;

verus! {

/// Length in bytes of a freshly minted challenge.
pub const CHALLENGE_LEN: usize = 64;

/// The authentication state a session carries: at most one pending
/// challenge, and the login once authenticated. The transport (a signed
/// cookie) lives outside this module; this is what it stores.
#[derive(Debug)]
pub struct SessionState {
    /// The pending challenge, base64-encoded, if one was issued.
    pub challenge: Option<String>,
    /// The authenticated login, once verification has succeeded.
    pub user_id: Option<String>,
}

/// The abstract value of a session.
pub struct SessionView {
    pub challenge: Option<Seq<char>>,
    pub user_id: Option<Seq<char>>,
}

/// The abstract value of an optional string.
pub open spec fn opt_str_view(o: Option<String>) -> Option<Seq<char>> {
    match o {
        Some(s) => Some(s@),
        None => None,
    }
}

impl View for SessionState {
    type V = SessionView;

    open spec fn view(&self) -> SessionView {
        SessionView {
            challenge: opt_str_view(self.challenge),
            user_id: opt_str_view(self.user_id),
        }
    }
}

impl SessionState {
    /// A fresh, unauthenticated session without a challenge.
    pub fn new() -> (r: SessionState)
        ensures
            r@.challenge is None,
            r@.user_id is None,
    {
        SessionState { challenge: None, user_id: None }
    }

    /// Whether the session is authenticated.
    pub fn is_authenticated(&self) -> (r: bool)
        ensures
            r == (self@.user_id is Some),
    {
        self.user_id.is_some()
    }
}

/// The protected-resource decision: succeeds exactly for an
/// authenticated session, and fails with [`AppError::NotAuthenticated`]
/// otherwise.
pub fn check_authenticated(session: &SessionState) -> (r: Result<(), AppError>)
    ensures
        r == if session@.user_id is Some {
            Ok::<(), AppError>(())
        } else {
            Err::<(), AppError>(AppError::NotAuthenticated)
        },
{
    if session.user_id.is_some() {
        Ok(())
    } else {
        Err(AppError::NotAuthenticated)
    }
}

/// The abstract value of an issue-challenge result.
pub open spec fn challenge_result_view(r: Result<String, AppError>) -> Result<
    Seq<char>,
    AppError,
> {
    match r {
        Ok(c) => Ok(c@),
        Err(e) => Err(e),
    }
}

/// Abstract transition of [`issue_challenge`]: how the session after the
/// call and the result relate to the session before it.
pub open spec fn issue_transition(
    s: SessionView,
    s2: SessionView,
    r: Result<Seq<char>, AppError>,
) -> bool {
    match r {
        Ok(c) => {
            &&& s.user_id is None
            &&& s2.user_id == s.user_id
            &&& s2.challenge == Some(c)
            &&& match s.challenge {
                Some(c0) => c == c0 && s2 == s,
                None => exists|b: Seq<u8>|
                    b.len() == CHALLENGE_LEN && c == b64_of(b) && b64_decode_of(c) == Some(b),
            }
        },
        Err(e) => {
            &&& s2 == s
            &&& if s.user_id is Some {
                e == AppError::AlreadyAuthenticated
            } else {
                s.challenge is None && e == AppError::EntropyFailure
            }
        },
    }
}

/// Issues the session's challenge.
///
/// Fails with [`AppError::AlreadyAuthenticated`] when the session already
/// holds a login. Returns the pending challenge unchanged when one is
/// already issued (re-issuing is idempotent, so a client already signing
/// is not invalidated). Otherwise mints [`CHALLENGE_LEN`] random bytes,
/// stores them base64-encoded as the pending challenge and returns that
/// text; [`AppError::EntropyFailure`] is possible only then.
pub fn issue_challenge(session: &mut SessionState) -> (r: Result<String, AppError>)
    ensures
        issue_transition(old(session)@, final(session)@, challenge_result_view(r)),
{
    if session.user_id.is_some() {
        return Err(AppError::AlreadyAuthenticated);
    }
    match &session.challenge {
        Some(c) => Ok(c.clone()),
        None => {
            match random_bytes(CHALLENGE_LEN) {
                None => Err(AppError::EntropyFailure),
                Some(bytes) => {
                    let ghost b = bytes@;
                    let text = b64_encode(&bytes);
                    session.challenge = Some(text.clone());
                    proof {
                        assert(b.len() == CHALLENGE_LEN && text@ == b64_of(b)
                            && b64_decode_of(text@) == Some(b));
                    }
                    Ok(text)
                },
            }
        },
    }
}

/// Abstract transition of [`verify_response`]: the session after the call
/// and the result, as a function of the session, the store, the login and
/// the base64 response.
pub open spec fn spec_verify(
    s: SessionView,
    store: Map<Seq<char>, Seq<char>>,
    login: Seq<char>,
    response_b64: Seq<char>,
) -> (SessionView, Result<(), AppError>) {
    if s.user_id is Some {
        (s, Err(AppError::AlreadyAuthenticated))
    } else if !store.contains_key(login) {
        (s, Err(AppError::NotRegistered))
    } else {
        match s.challenge {
            None => (s, Err(AppError::InvalidChallenge)),
            Some(chal) => {
                let s1 = SessionView { challenge: None, user_id: s.user_id };
                match b64_decode_of(response_b64) {
                    None => (s1, Err(AppError::InvalidEncoding)),
                    Some(sig) => match b64_decode_of(chal) {
                        None => (s1, Err(AppError::InvalidChallenge)),
                        Some(msg) => match b64_decode_of(store[login]) {
                            None => (s1, Err(AppError::AuthenticationFailed)),
                            Some(pk) => if ed25519_accepts(pk, msg, sig) {
                                (SessionView { challenge: None, user_id: Some(login) }, Ok(()))
                            } else {
                                (s1, Err(AppError::AuthenticationFailed))
                            },
                        },
                    },
                }
            },
        }
    }
}

/// Verifies a challenge response and, on success, authenticates the
/// session.
///
/// The order of checks and the errors they answer: an authenticated
/// session fails with [`AppError::AlreadyAuthenticated`]; an unknown
/// login with [`AppError::NotRegistered`]; a session without a pending
/// challenge with [`AppError::InvalidChallenge`]. Past those checks the
/// challenge is consumed whatever happens next: a response that is not
/// base64 fails with [`AppError::InvalidEncoding`], and a stored
/// challenge or key that does not decode, a malformed key, or a signature
/// that does not verify all collapse into
/// [`AppError::AuthenticationFailed`]. On success the session holds the
/// login and no challenge.
pub fn verify_response(
    session: &mut SessionState,
    store: &UserStore,
    login: &String,
    response_b64: &String,
) -> (r: Result<(), AppError>)
    requires
        store.wf(),
    ensures
        ({
            let (s2, res) = spec_verify(old(session)@, store@, login@, response_b64@);
            final(session)@ == s2 && r == res
        }),
{
    if session.user_id.is_some() {
        return Err(AppError::AlreadyAuthenticated);
    }
    let record = match store.find(login) {
        Some(u) => u,
        None => {
            return Err(AppError::NotRegistered);
        },
    };
    let chal: String = match &session.challenge {
        Some(c) => c.clone(),
        None => {
            return Err(AppError::InvalidChallenge);
        },
    };
    // Single use: the challenge is gone from here on, whatever the outcome.
    session.challenge = None;
    let sig = match b64_decode(response_b64.as_str()) {
        Some(v) => v,
        None => {
            return Err(AppError::InvalidEncoding);
        },
    };
    let msg = match b64_decode(chal.as_str()) {
        Some(v) => v,
        None => {
            return Err(AppError::InvalidChallenge);
        },
    };
    let pk = match b64_decode(record.pub_key.as_str()) {
        Some(v) => v,
        None => {
            return Err(AppError::AuthenticationFailed);
        },
    };
    if ed25519_verify(&pk, &msg, &sig) {
        session.user_id = Some(login.clone());
        Ok(())
    } else {
        Err(AppError::AuthenticationFailed)
    }
}

/// Law: issuing a challenge twice on an unauthenticated session returns
/// the same challenge both times and leaves the session as the first
/// issue left it.
pub proof fn lemma_issue_challenge_idempotent(
    s: SessionView,
    s1: SessionView,
    c1: Seq<char>,
    s2: SessionView,
    c2: Seq<char>,
)
    requires
        issue_transition(s, s1, Ok(c1)),
        issue_transition(s1, s2, Ok(c2)),
    ensures
        c2 == c1,
        s2 == s1,
{
}

/// Law: a verification attempt that reaches the pending challenge
/// consumes it, and a second attempt against the same session, without a
/// re-issue, cannot succeed: after a failed first attempt it fails with
/// [`AppError::InvalidChallenge`] (for any registered login), and after a
/// successful first attempt with [`AppError::AlreadyAuthenticated`].
pub proof fn lemma_challenge_single_use(
    s: SessionView,
    store: Map<Seq<char>, Seq<char>>,
    login: Seq<char>,
    resp1: Seq<char>,
    login2: Seq<char>,
    resp2: Seq<char>,
)
    requires
        s.user_id is None,
        store.contains_key(login),
        s.challenge is Some,
    ensures
        ({
            let (s1, r1) = spec_verify(s, store, login, resp1);
            let (s2, r2) = spec_verify(s1, store, login2, resp2);
            &&& s1.challenge is None
            &&& !(r2 is Ok)
            &&& (r1 is Err && store.contains_key(login2)) ==> r2 == Err::<(), AppError>(
                AppError::InvalidChallenge,
            )
            &&& r1 is Ok ==> r2 == Err::<(), AppError>(AppError::AlreadyAuthenticated)
        }),
{
}

/// Law: a response that is the valid signature, under the login's stored
/// key, of exactly the bytes the issued challenge encodes, always
/// verifies: the session becomes authenticated for that login and the
/// challenge is consumed.
pub proof fn lemma_round_trip(
    s: SessionView,
    s1: SessionView,
    c: Seq<char>,
    store: Map<Seq<char>, Seq<char>>,
    login: Seq<char>,
    pk: Seq<u8>,
    msg: Seq<u8>,
    sig: Seq<u8>,
    resp: Seq<char>,
)
    requires
        issue_transition(s, s1, Ok(c)),
        store.contains_key(login),
        b64_decode_of(store[login]) == Some(pk),
        b64_decode_of(c) == Some(msg),
        b64_decode_of(resp) == Some(sig),
        ed25519_accepts(pk, msg, sig),
    ensures
        ({
            let (s2, r) = spec_verify(s1, store, login, resp);
            r == Ok::<(), AppError>(()) && s2.user_id == Some(login) && s2.challenge is None
        }),
{
}

} // verus!
