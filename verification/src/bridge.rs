//! The client-side helper's stdio bridge: messages travel as a 4-byte
//! little-endian length prefix followed by the payload. This module holds
//! the message vocabulary, the framing, and the decisions the read/write
//! loop takes; the blocking reads and writes themselves live outside.

use vstd::prelude::*;
use vstd::bytes::{spec_u32_from_le_bytes, spec_u32_to_le_bytes, u32_from_le_bytes, u32_to_le_bytes};
use crate::sgx::Quote;

verus! {

/// A reply leaving over the bridge.
#[derive(Debug)]
pub enum OutgoingMessage {
    /// The attestation evidence produced.
    GetQuote { quote: Quote },
    /// The signature over the challenge bytes.
    SignChallenge { signed: Vec<u8> },
}

impl OutgoingMessage {
    /// The reply carrying attestation evidence.
    pub fn get_quote(quote: Quote) -> (r: OutgoingMessage)
        ensures
            match r {
                OutgoingMessage::GetQuote { quote: q } => q@ == quote@,
                _ => false,
            },
    {
        OutgoingMessage::GetQuote { quote }
    }

    /// The reply carrying a signature.
    pub fn sign_challenge(signed: Vec<u8>) -> (r: OutgoingMessage)
        ensures
            match r {
                OutgoingMessage::SignChallenge { signed: s } => s@ == signed@,
                _ => false,
            },
    {
        OutgoingMessage::SignChallenge { signed }
    }
}

/// Frames a payload for the wire: its length as four little-endian bytes,
/// then the payload. Refused exactly when the length does not fit 32
/// bits.
pub fn frame_message(payload: &Vec<u8>) -> (r: Option<Vec<u8>>)
    ensures
        match r {
            Some(f) => payload@.len() <= u32::MAX
                && f@ == spec_u32_to_le_bytes(payload@.len() as u32) + payload@,
            None => payload@.len() > u32::MAX,
        },
{
    if payload.len() > u32::MAX as usize {
        return None;
    }
    let len: u32 = payload.len() as u32;
    let mut framed = u32_to_le_bytes(len);
    let ghost prefix = framed@;
    let mut i: usize = 0;
    while i < payload.len()
        invariant
            i <= payload@.len(),
            framed@ == prefix + payload@.subrange(0, i as int),
        decreases payload@.len() - i,
    {
        framed.push(payload[i]);
        i = i + 1;
        assert(framed@ =~= prefix + payload@.subrange(0, i as int));
    }
    proof {
        assert(payload@.subrange(0, payload@.len() as int) =~= payload@);
    }
    Some(framed)
}

/// Reads the length a 4-byte prefix announces.
pub fn frame_len(prefix: &[u8]) -> (r: u32)
    requires
        prefix@.len() == 4,
    ensures
        r == spec_u32_from_le_bytes(prefix@),
{
    u32_from_le_bytes(prefix)
}

/// Law: parsing the prefix of a framed payload gives back the payload's
/// length, and the rest of the frame is the payload itself.
pub proof fn lemma_frame_round_trip(payload: Seq<u8>)
    requires
        payload.len() <= u32::MAX,
    ensures
        ({
            let f = spec_u32_to_le_bytes(payload.len() as u32) + payload;
            &&& f.len() == payload.len() + 4
            &&& spec_u32_from_le_bytes(f.subrange(0, 4)) == payload.len() as u32
            &&& f.subrange(4, f.len() as int) == payload
        }),
{
    vstd::bytes::lemma_auto_spec_u32_to_from_le_bytes();
    let f = spec_u32_to_le_bytes(payload.len() as u32) + payload;
    assert(f.subrange(0, 4) =~= spec_u32_to_le_bytes(payload.len() as u32));
    assert(f.subrange(4, f.len() as int) =~= payload);
}

/// How a blocking stdio transfer ended, as the loop's decision sees it.
#[derive(Debug, Clone, Copy, PartialEq, Eq, Structural)]
pub enum IoOutcome {
    /// The transfer completed.
    Done,
    /// The peer closed the stream (end of file or a broken pipe).
    Closed,
    /// Any other transfer error.
    Failed,
}

/// Whether the loop goes on or stops.
#[derive(Debug, Clone, Copy, PartialEq, Eq, Structural)]
pub enum Interrupt {
    Break,
    Continue,
}

/// Errors the bridge loop reports.
#[derive(Debug, Clone, Copy, PartialEq, Eq, Structural)]
pub enum BridgeError {
    /// The peer closed the stream without a termination signal.
    UnexpectedEof,
    /// A stdio transfer failed.
    Io,
}

/// The loop's decision after one blocking transfer: a closed stream is a
/// graceful stop only when a termination signal was received, otherwise
/// it is an error; any other failure is an error; a completed transfer
/// lets the loop continue.
pub fn interrupt_decision(outcome: IoOutcome, signaled: bool) -> (r: Result<
    Interrupt,
    BridgeError,
>)
    ensures
        r == match outcome {
            IoOutcome::Done => Ok::<Interrupt, BridgeError>(Interrupt::Continue),
            IoOutcome::Closed => if signaled {
                Ok::<Interrupt, BridgeError>(Interrupt::Break)
            } else {
                Err::<Interrupt, BridgeError>(BridgeError::UnexpectedEof)
            },
            IoOutcome::Failed => Err::<Interrupt, BridgeError>(BridgeError::Io),
        },
{
    match outcome {
        IoOutcome::Done => Ok(Interrupt::Continue),
        IoOutcome::Closed => {
            if signaled {
                Ok(Interrupt::Break)
            } else {
                Err(BridgeError::UnexpectedEof)
            }
        },
        IoOutcome::Failed => Err(BridgeError::Io),
    }
}

/// What the loop does after reading a length prefix.
#[derive(Debug, Clone, Copy, PartialEq, Eq, Structural)]
pub enum LenDecision {
    /// Stop: a termination signal arrived during an idle read.
    Stop,
    /// An empty frame without a termination signal: keep listening.
    KeepListening,
    /// Read a payload of this many bytes.
    ReadPayload(u32),
}

/// The loop's decision after a length prefix: an empty frame stops the
/// loop only under a termination signal, otherwise the loop listens on;
/// a nonzero length means a payload of that size follows.
pub fn after_len_read(msg_len: u32, signaled: bool) -> (r: LenDecision)
    ensures
        r == if msg_len == 0 {
            if signaled {
                LenDecision::Stop
            } else {
                LenDecision::KeepListening
            }
        } else {
            LenDecision::ReadPayload(msg_len)
        },
{
    if msg_len == 0 {
        if signaled {
            LenDecision::Stop
        } else {
            LenDecision::KeepListening
        }
    } else {
        LenDecision::ReadPayload(msg_len)
    }
}

} // verus!
