//! The two cryptographic primitives the authenticator needs: Ed25519
//! signature verification and entropy for minting challenges.

use vstd::prelude::*;

verus! {

/// Whether `pk` parses as an Ed25519 public key, `sig` as a signature,
/// and `sig` is a valid signature of `msg` under `pk`.
pub uninterp spec fn ed25519_accepts(pk: Seq<u8>, msg: Seq<u8>, sig: Seq<u8>) -> bool;

/// Relies on ed25519_dalek::PublicKey::from_bytes,
/// ed25519_dalek::Signature::from_bytes and ed25519_dalek::PublicKey's
/// Verifier::verify impl: together they accept exactly the valid Ed25519
/// signatures of `msg` under `pk`, and the outcome depends on the three
/// byte strings alone. Every parse or verification failure comes back as
/// `false`.
#[verifier::external_body]
pub fn ed25519_verify(pk: &Vec<u8>, msg: &Vec<u8>, sig: &Vec<u8>) -> (r: bool)
    ensures
        r == ed25519_accepts(pk@, msg@, sig@),
{
    let pk = match ed25519_dalek::PublicKey::from_bytes(pk) {
        Ok(k) => k,
        Err(_) => return false,
    };
    let sig = match ed25519_dalek::Signature::from_bytes(sig) {
        Ok(s) => s,
        Err(_) => return false,
    };
    ed25519_dalek::Verifier::verify(&pk, msg, &sig).is_ok()
}

/// Relies on getrandom::getrandom: on success the buffer is filled with
/// entropy from the operating system. Only the length is promised;
/// nothing is claimed about the value.
#[verifier::external_body]
pub fn random_bytes(len: usize) -> (r: Option<Vec<u8>>)
    ensures
        match r {
            Some(v) => v@.len() == len,
            None => true,
        },
{
    let mut buf = vec![0u8; len];
    match getrandom::getrandom(&mut buf) {
        Ok(()) => Some(buf),
        Err(_) => None,
    }
}

} // verus!
