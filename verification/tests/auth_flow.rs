use pod_core::auth::{check_authenticated, issue_challenge, verify_response, SessionState, CHALLENGE_LEN};
use pod_core::error::AppError;
use pod_core::store::{NewUser, UserStore};

fn store_with_key(login: &str, pk_bytes: &[u8]) -> UserStore {
    let mut store = UserStore::new();
    store
        .insert(NewUser { login: login.to_string(), pub_key: base64::encode(pk_bytes) })
        .unwrap();
    store
}

fn keypair(seed: u8) -> (ed25519_dalek::SecretKey, ed25519_dalek::PublicKey) {
    let secret = ed25519_dalek::SecretKey::from_bytes(&[seed; 32]).unwrap();
    let public = ed25519_dalek::PublicKey::from(&secret);
    (secret, public)
}

fn sign(secret: &ed25519_dalek::SecretKey, public: &ed25519_dalek::PublicKey, msg: &[u8]) -> Vec<u8> {
    let expanded = ed25519_dalek::ExpandedSecretKey::from(secret);
    expanded.sign(msg, public).to_bytes().to_vec()
}

#[test]
fn issue_challenge_is_idempotent() {
    let mut session = SessionState::new();
    let first = issue_challenge(&mut session).unwrap();
    let second = issue_challenge(&mut session).unwrap();
    assert_eq!(first, second);
    assert_eq!(session.challenge.as_deref(), Some(first.as_str()));
}

#[test]
fn issued_challenge_is_fresh_base64() {
    let mut session = SessionState::new();
    let challenge = issue_challenge(&mut session).unwrap();
    let bytes = base64::decode(&challenge).unwrap();
    assert_eq!(bytes.len(), CHALLENGE_LEN);
}

#[test]
fn issue_challenge_refused_when_authenticated() {
    let mut session = SessionState::new();
    session.user_id = Some("alice".to_string());
    assert_eq!(
        issue_challenge(&mut session),
        Err(AppError::AlreadyAuthenticated)
    );
}

#[test]
fn signed_challenge_round_trip() {
    let (secret, public) = keypair(9);
    let store = store_with_key("alice", public.as_bytes());
    let mut session = SessionState::new();

    let challenge = issue_challenge(&mut session).unwrap();
    let challenge_bytes = base64::decode(&challenge).unwrap();
    let response = base64::encode(sign(&secret, &public, &challenge_bytes));

    let verdict = verify_response(
        &mut session,
        &store,
        &"alice".to_string(),
        &response,
    );
    assert_eq!(verdict, Ok(()));
    assert!(session.is_authenticated());
    assert_eq!(session.user_id.as_deref(), Some("alice"));
    assert!(session.challenge.is_none());
}

#[test]
fn challenge_is_single_use() {
    let (_, public) = keypair(10);
    let store = store_with_key("bob", public.as_bytes());
    let mut session = SessionState::new();
    issue_challenge(&mut session).unwrap();

    // A response signed with the wrong key fails...
    let bad_response = base64::encode([0u8; 64]);
    let first = verify_response(&mut session, &store, &"bob".to_string(), &bad_response);
    assert_eq!(first, Err(AppError::AuthenticationFailed));
    // ...and has consumed the challenge: a retry cannot use it again.
    let second = verify_response(&mut session, &store, &"bob".to_string(), &bad_response);
    assert_eq!(second, Err(AppError::InvalidChallenge));
}

#[test]
fn wrong_key_fails_generically() {
    let (secret, public) = keypair(11);
    let (_, other_public) = keypair(12);
    let store = store_with_key("carol", other_public.as_bytes());
    let mut session = SessionState::new();
    let challenge = issue_challenge(&mut session).unwrap();
    let challenge_bytes = base64::decode(&challenge).unwrap();
    let response = base64::encode(sign(&secret, &public, &challenge_bytes));
    let verdict = verify_response(&mut session, &store, &"carol".to_string(), &response);
    assert_eq!(verdict, Err(AppError::AuthenticationFailed));
    assert!(!session.is_authenticated());
}

#[test]
fn tampered_challenge_fails() {
    let (secret, public) = keypair(13);
    let store = store_with_key("dave", public.as_bytes());
    let mut session = SessionState::new();
    let challenge = issue_challenge(&mut session).unwrap();
    let mut other_bytes = base64::decode(&challenge).unwrap();
    other_bytes[0] ^= 1;
    let response = base64::encode(sign(&secret, &public, &other_bytes));
    let verdict = verify_response(&mut session, &store, &"dave".to_string(), &response);
    assert_eq!(verdict, Err(AppError::AuthenticationFailed));
}

#[test]
fn unknown_login_fails_before_touching_challenge() {
    let store = UserStore::new();
    let mut session = SessionState::new();
    let challenge = issue_challenge(&mut session).unwrap();
    let response = base64::encode([0u8; 64]);
    let verdict = verify_response(&mut session, &store, &"nobody".to_string(), &response);
    assert_eq!(verdict, Err(AppError::NotRegistered));
    // The challenge survives a pre-challenge failure.
    assert_eq!(session.challenge.as_deref(), Some(challenge.as_str()));
}

#[test]
fn missing_challenge_is_rejected() {
    let (_, public) = keypair(14);
    let store = store_with_key("erin", public.as_bytes());
    let mut session = SessionState::new();
    let response = base64::encode([0u8; 64]);
    let verdict = verify_response(&mut session, &store, &"erin".to_string(), &response);
    assert_eq!(verdict, Err(AppError::InvalidChallenge));
}

#[test]
fn malformed_response_encoding_is_a_distinct_error() {
    let (_, public) = keypair(15);
    let store = store_with_key("frank", public.as_bytes());
    let mut session = SessionState::new();
    issue_challenge(&mut session).unwrap();
    let verdict = verify_response(
        &mut session,
        &store,
        &"frank".to_string(),
        &"!!!not-base64!!!".to_string(),
    );
    assert_eq!(verdict, Err(AppError::InvalidEncoding));
    // Even this consumed the challenge.
    assert!(session.challenge.is_none());
}

#[test]
fn protected_resource_needs_authentication() {
    let mut session = SessionState::new();
    assert_eq!(check_authenticated(&session), Err(AppError::NotAuthenticated));
    session.user_id = Some("alice".to_string());
    assert_eq!(check_authenticated(&session), Ok(()));
}

#[test]
fn authenticated_session_rejects_further_attempts() {
    let (_, public) = keypair(16);
    let store = store_with_key("grace", public.as_bytes());
    let mut session = SessionState::new();
    session.user_id = Some("grace".to_string());
    let response = base64::encode([0u8; 64]);
    let verdict = verify_response(&mut session, &store, &"grace".to_string(), &response);
    assert_eq!(verdict, Err(AppError::AlreadyAuthenticated));
}
