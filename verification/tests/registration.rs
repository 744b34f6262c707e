use pod_core::error::AppError;
use pod_core::register::{PollStatus, RegistrationCoordinator, TicketState};
use pod_core::sgx;
use pod_core::sgx::Quote;
use pod_core::store::{NewUser, UserStore};

fn quote_with_key(len: usize, key: &[u8; 32]) -> Quote {
    let mut bytes = vec![0u8; len];
    bytes[368..400].copy_from_slice(key);
    Quote::from_vec(bytes)
}

#[test]
fn extract_boundary() {
    let quote = Quote::from_vec(vec![0u8; 438]);
    let window = quote.report_data().unwrap();
    assert_eq!(window.len(), 64);

    let short = Quote::from_vec(vec![0u8; 10]);
    assert_eq!(short.report_data().unwrap_err(), sgx::Error::QuoteTooShort);
}

#[test]
fn extract_window_contents() {
    let mut bytes = vec![0u8; 500];
    for (i, b) in bytes.iter_mut().enumerate() {
        *b = (i % 251) as u8;
    }
    let expected: Vec<u8> = bytes[368..432].to_vec();
    let quote = Quote::from_vec(bytes);
    assert_eq!(quote.report_data().unwrap(), expected);
}

#[test]
fn registration_flow_alice() {
    let mut store = UserStore::new();
    let mut coord = RegistrationCoordinator::new();
    let key = [0xabu8; 32];
    let quote = quote_with_key(500, &key);

    let begun = coord.begin_registration(&store, "alice".to_string(), quote, None);
    assert_eq!(begun, Ok(()));
    assert_eq!(coord.poll_status(&"alice".to_string()), PollStatus::InProgress);

    coord.complete_registration(&mut store, &"alice".to_string(), Ok(()));
    assert_eq!(
        coord.poll_status(&"alice".to_string()),
        PollStatus::Done(Ok(()))
    );

    let record = store.find(&"alice".to_string()).unwrap();
    assert_eq!(record.login, "alice");
    assert_eq!(record.pub_key, base64::encode(key));
}

#[test]
fn poll_consumes_resolved_ticket() {
    let mut store = UserStore::new();
    let mut coord = RegistrationCoordinator::new();
    let quote = quote_with_key(500, &[1u8; 32]);
    coord
        .begin_registration(&store, "alice".to_string(), quote, None)
        .unwrap();
    coord.complete_registration(&mut store, &"alice".to_string(), Ok(()));
    assert!(matches!(
        coord.poll_status(&"alice".to_string()),
        PollStatus::Done(Ok(()))
    ));
    assert_eq!(coord.poll_status(&"alice".to_string()), PollStatus::NotFound);
}

#[test]
fn already_registered_rejected_synchronously() {
    let mut store = UserStore::new();
    store
        .insert(NewUser { login: "carol".to_string(), pub_key: "AAAA".to_string() })
        .unwrap();
    let mut coord = RegistrationCoordinator::new();
    let quote = quote_with_key(500, &[2u8; 32]);
    let begun = coord.begin_registration(&store, "carol".to_string(), quote, None);
    assert_eq!(begun, Err(AppError::AlreadyRegistered));
    assert_eq!(coord.poll_status(&"carol".to_string()), PollStatus::NotFound);
}

#[test]
fn second_begin_with_ticket_in_flight_rejected() {
    let store = UserStore::new();
    let mut coord = RegistrationCoordinator::new();
    let first = coord.begin_registration(
        &store,
        "bob".to_string(),
        quote_with_key(500, &[3u8; 32]),
        None,
    );
    assert_eq!(first, Ok(()));
    let second = coord.begin_registration(
        &store,
        "bob".to_string(),
        quote_with_key(500, &[4u8; 32]),
        None,
    );
    assert_eq!(second, Err(AppError::AlreadyRegistered));
}

#[test]
fn losing_the_insert_race_never_overwrites() {
    let mut store = UserStore::new();
    let mut coord = RegistrationCoordinator::new();
    coord
        .begin_registration(&store, "bob".to_string(), quote_with_key(500, &[5u8; 32]), None)
        .unwrap();
    // Another path wins the race and persists bob first.
    store
        .insert(NewUser { login: "bob".to_string(), pub_key: "winner".to_string() })
        .unwrap();
    coord.complete_registration(&mut store, &"bob".to_string(), Ok(()));
    assert_eq!(
        coord.poll_status(&"bob".to_string()),
        PollStatus::Done(Err(AppError::DuplicateOnInsert))
    );
    // The earlier record is untouched.
    assert_eq!(store.find(&"bob".to_string()).unwrap().pub_key, "winner");
}

#[test]
fn rejecting_verdict_resolves_ticket() {
    let mut store = UserStore::new();
    let mut coord = RegistrationCoordinator::new();
    coord
        .begin_registration(&store, "dave".to_string(), quote_with_key(500, &[6u8; 32]), None)
        .unwrap();
    coord.complete_registration(&mut store, &"dave".to_string(), Err(42));
    assert_eq!(
        coord.poll_status(&"dave".to_string()),
        PollStatus::Done(Err(AppError::AttestationRejected(42)))
    );
    assert!(store.find(&"dave".to_string()).is_none());
}

#[test]
fn short_quote_resolves_ticket_with_typed_error() {
    let mut store = UserStore::new();
    let mut coord = RegistrationCoordinator::new();
    coord
        .begin_registration(&store, "erin".to_string(), Quote::from_vec(vec![0u8; 100]), None)
        .unwrap();
    coord.complete_registration(&mut store, &"erin".to_string(), Ok(()));
    assert_eq!(
        coord.poll_status(&"erin".to_string()),
        PollStatus::Done(Err(AppError::RustSgxUtil(sgx::Error::QuoteTooShort)))
    );
    assert!(store.find(&"erin".to_string()).is_none());
}

#[test]
fn failed_background_unit_resolves_ticket() {
    let mut store = UserStore::new();
    let mut coord = RegistrationCoordinator::new();
    coord
        .begin_registration(&store, "frank".to_string(), quote_with_key(500, &[7u8; 32]), None)
        .unwrap();
    coord.fail_registration(&"frank".to_string());
    assert_eq!(
        coord.poll_status(&"frank".to_string()),
        PollStatus::Done(Err(AppError::StoreUnavailable))
    );
}

#[test]
fn pending_job_hands_out_the_evidence() {
    let store = UserStore::new();
    let mut coord = RegistrationCoordinator::new();
    let key = [8u8; 32];
    coord
        .begin_registration(&store, "grace".to_string(), quote_with_key(500, &key), None)
        .unwrap();
    let ticket = coord.pending_job(&"grace".to_string()).unwrap();
    assert_eq!(ticket.state(), TicketState::Pending);
    assert_eq!(ticket.quote().len(), 500);
    assert!(ticket.nonce().is_none());
    assert!(coord.pending_job(&"absent".to_string()).is_none());
}

#[test]
fn duplicate_insert_into_store_fails() {
    let mut store = UserStore::new();
    store
        .insert(NewUser { login: "henry".to_string(), pub_key: "k1".to_string() })
        .unwrap();
    let err = store
        .insert(NewUser { login: "henry".to_string(), pub_key: "k2".to_string() })
        .unwrap_err();
    assert_eq!(err, AppError::DuplicateOnInsert);
    assert_eq!(store.find(&"henry".to_string()).unwrap().pub_key, "k1");
}
