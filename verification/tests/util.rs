use pod_core::bridge::{
    after_len_read, frame_len, frame_message, interrupt_decision, BridgeError, Interrupt,
    IoOutcome, LenDecision, OutgoingMessage,
};
use pod_core::enclave::{PodEnclave, QuoteType};
use pod_core::error::AppError;
use pod_core::message::{Message, Status};
use pod_core::sgx;
use pod_core::sgx::{GroupId, Nonce, Quote};

#[test]
fn extract_carves_the_requested_window() {
    let bytes: Vec<u8> = (0u8..=255).cycle().take(438).collect();
    let window = sgx::extract(&bytes, 368, 432).unwrap();
    assert_eq!(window.len(), 64);
    assert_eq!(&window[..], &bytes[368..432]);
    assert_eq!(
        sgx::extract(&vec![0u8; 10], 368, 432).unwrap_err(),
        sgx::Error::QuoteTooShort
    );
}

#[test]
fn nonce_length_is_bounded() {
    let nonce = Nonce::new(vec![1u8; 32]).unwrap();
    assert_eq!(nonce.as_bytes().len(), 32);
    assert_eq!(Nonce::new(vec![1u8; 33]).unwrap_err(), sgx::Error::NonceTooLong);
    assert_eq!(Nonce::new(Vec::new()).unwrap().as_bytes().len(), 0);
}

#[test]
fn group_id_parses_hex() {
    let gid = GroupId::from_hex_str("01234567").unwrap();
    assert_eq!(gid.as_bytes(), vec![0x67, 0x45, 0x23, 0x01]);
    assert_eq!(
        GroupId::from_hex_str("0x01234567").unwrap_err(),
        sgx::Error::ParseInt
    );
    assert_eq!(GroupId::from_hex_str("").unwrap_err(), sgx::Error::ParseInt);
    assert_eq!(
        GroupId::from_hex_str("ffffffff").unwrap().as_bytes(),
        vec![0xff, 0xff, 0xff, 0xff]
    );
    assert_eq!(
        GroupId::from_hex_str("100000000").unwrap_err(),
        sgx::Error::ParseInt
    );
    assert_eq!(GroupId::from_hex_str("aB4").unwrap().as_bytes(), vec![0xb4, 0x0a, 0, 0]);
}

#[test]
fn sigrl_outcome_interpretation() {
    assert!(sgx::sigrl_outcome(0, Vec::new()).unwrap().is_none());
    let sigrl = sgx::sigrl_outcome(0, vec![1, 2, 3]).unwrap().unwrap();
    assert_eq!(sigrl.as_bytes(), &[1, 2, 3]);
    assert_eq!(
        sgx::sigrl_outcome(7, vec![1]).unwrap_err(),
        sgx::Error::IasGetSigrlNonZero(7)
    );
}

#[test]
fn verify_quote_outcome_interpretation() {
    assert_eq!(sgx::verify_quote_outcome(0), Ok(()));
    assert_eq!(
        sgx::verify_quote_outcome(-2),
        Err(sgx::Error::IasVerifyQuoteNonZero(-2))
    );
}

#[test]
fn framing_round_trip() {
    let framed = frame_message(&vec![9, 8, 7]).unwrap();
    assert_eq!(framed, vec![3, 0, 0, 0, 9, 8, 7]);
    assert_eq!(frame_len(&framed[0..4]), 3);
    let empty = frame_message(&Vec::new()).unwrap();
    assert_eq!(empty, vec![0, 0, 0, 0]);
}

#[test]
fn interrupt_decisions() {
    assert_eq!(interrupt_decision(IoOutcome::Done, false), Ok(Interrupt::Continue));
    assert_eq!(interrupt_decision(IoOutcome::Done, true), Ok(Interrupt::Continue));
    assert_eq!(interrupt_decision(IoOutcome::Closed, true), Ok(Interrupt::Break));
    assert_eq!(
        interrupt_decision(IoOutcome::Closed, false),
        Err(BridgeError::UnexpectedEof)
    );
    assert_eq!(interrupt_decision(IoOutcome::Failed, true), Err(BridgeError::Io));
}

#[test]
fn len_decisions() {
    assert_eq!(after_len_read(0, true), LenDecision::Stop);
    assert_eq!(after_len_read(0, false), LenDecision::KeepListening);
    assert_eq!(after_len_read(120, false), LenDecision::ReadPayload(120));
}

#[test]
fn outgoing_message_constructors() {
    let quote = Quote::from_vec(vec![1, 2, 3]);
    match OutgoingMessage::get_quote(quote) {
        OutgoingMessage::GetQuote { quote } => assert_eq!(quote.as_bytes(), &vec![1, 2, 3]),
        _ => panic!("wrong variant"),
    }
    match OutgoingMessage::sign_challenge(vec![4, 5]) {
        OutgoingMessage::SignChallenge { signed } => assert_eq!(signed, vec![4, 5]),
        _ => panic!("wrong variant"),
    }
}

#[test]
fn enclave_caches_first_quote() {
    let mut enclave = PodEnclave::new();
    assert!(enclave.quote_needed());
    let first = enclave.get_quote(Quote::from_vec(vec![1, 1]));
    assert_eq!(first.as_bytes(), &vec![1, 1]);
    assert!(!enclave.quote_needed());
    let second = enclave.get_quote(Quote::from_vec(vec![2, 2]));
    assert_eq!(second.as_bytes(), &vec![1, 1]);
}

#[test]
fn quote_type_tags() {
    assert_eq!(QuoteType::Linkable.tag(), 'l');
    assert_eq!(QuoteType::Unlinkable.tag(), 'u');
}

#[test]
fn message_builder_replaces_parameters() {
    let msg = Message::ok()
        .add_param("description".to_string(), "first".to_string())
        .add_param("description".to_string(), "second".to_string())
        .add_param("challenge".to_string(), "abc".to_string());
    assert_eq!(msg.status(), Status::Success);
    assert_eq!(
        msg.param(&"description".to_string()).map(String::as_str),
        Some("second")
    );
    assert_eq!(msg.param(&"challenge".to_string()).map(String::as_str), Some("abc"));
    assert!(msg.param(&"absent".to_string()).is_none());
    assert_eq!(Message::error().status(), Status::Error);
}

#[test]
fn status_codes_follow_the_taxonomy() {
    assert_eq!(AppError::AlreadyRegistered.status_code(), 400);
    assert_eq!(AppError::NotAuthenticated.status_code(), 403);
    assert_eq!(AppError::AlreadyAuthenticated.status_code(), 403);
    assert_eq!(AppError::AuthenticationFailed.status_code(), 403);
    assert_eq!(AppError::StoreUnavailable.status_code(), 500);
    assert_eq!(AppError::EntropyFailure.status_code(), 500);
    assert_eq!(AppError::AttestationRejected(9).status_code(), 400);
    assert_eq!(AppError::RustSgxUtil(sgx::Error::QuoteTooShort).status_code(), 400);
}

#[test]
fn descriptions_name_the_error() {
    assert_eq!(
        AppError::AlreadyRegistered.description(),
        "user already registered"
    );
    assert_eq!(AppError::InvalidChallenge.description(), "invalid challenge");
    assert_eq!(
        AppError::DuplicateOnInsert.description(),
        "registration lost an insert race"
    );
}

#[test]
fn quote_duplicate_preserves_bytes() {
    let quote = Quote::from_vec(vec![5, 6, 7]);
    let copy = quote.duplicate();
    assert_eq!(copy.as_bytes(), quote.as_bytes());
    assert_eq!(copy.len(), 3);
}
