//! Attestation evidence types: quotes, nonces, signature revocation lists
//! and EPID group identifiers, together with the report-data extraction
//! that carves the client's public key out of a quote.

use vstd::prelude::*;

verus! {

/// First byte of the report-data window inside a quote.
pub const REPORT_DATA_BEGIN: usize = 368;

/// One past the last byte of the report-data window inside a quote.
pub const REPORT_DATA_END: usize = 432;

/// Largest nonce the attestation authority accepts, in bytes.
pub const NONCE_MAX_LEN: usize = 32;

/// Errors of the attestation-evidence layer.
#[derive(Debug, Clone, Copy, PartialEq, Eq, Structural)]
pub enum Error {
    /// The quote is too short to contain the report-data window.
    QuoteTooShort,
    /// A nonce longer than [`NONCE_MAX_LEN`] bytes was supplied.
    NonceTooLong,
    /// A group identifier string was not non-empty hexadecimal fitting 32 bits.
    ParseInt,
    /// The revocation-list lookup returned a nonzero code.
    IasGetSigrlNonZero(i32),
    /// Quote verification returned a nonzero code.
    IasVerifyQuoteNonZero(i32),
}

/// Opaque attestation evidence: a byte blob produced by an enclave.
///
/// The only structure this layer reads out of it is the fixed-offset
/// report-data window; everything else is interpreted by the attestation
/// authority alone.
#[derive(Debug, Clone)]
pub struct Quote {
    bytes: Vec<u8>,
}

impl View for Quote {
    type V = Seq<u8>;

    closed spec fn view(&self) -> Seq<u8> {
        self.bytes@
    }
}

/// Carves the byte window `begin..end` out of `quote`.
///
/// Fails with [`Error::QuoteTooShort`] exactly when the blob is shorter
/// than `end`; no other validation is performed here.
pub fn extract(quote: &Vec<u8>, begin: usize, end: usize) -> (r: Result<Vec<u8>, Error>)
    requires
        begin <= end,
    ensures
        match r {
            Ok(w) => quote@.len() >= end && w@ == quote@.subrange(begin as int, end as int),
            Err(e) => e == Error::QuoteTooShort && quote@.len() < end,
        },
{
    if quote.len() < end {
        return Err(Error::QuoteTooShort);
    }
    let mut window: Vec<u8> = Vec::new();
    let mut i: usize = begin;
    while i < end
        invariant
            begin <= i <= end <= quote@.len(),
            window@ == quote@.subrange(begin as int, i as int),
        decreases end - i,
    {
        window.push(quote[i]);
        i = i + 1;
        assert(window@ =~= quote@.subrange(begin as int, i as int));
    }
    Ok(window)
}

impl Quote {
    /// Wraps a byte blob as a quote.
    pub fn from_vec(bytes: Vec<u8>) -> (r: Quote)
        ensures
            r@ == bytes@,
    {
        Quote { bytes }
    }

    /// Length of the underlying blob.
    pub fn len(&self) -> (r: usize)
        ensures
            r == self@.len(),
    {
        self.bytes.len()
    }

    /// The underlying blob.
    pub fn as_bytes(&self) -> (r: &Vec<u8>)
        ensures
            r@ == self@,
    {
        &self.bytes
    }

    /// A copy of this quote with the same bytes.
    pub fn duplicate(&self) -> (r: Quote)
        ensures
            r@ == self@,
    {
        let bytes = self.bytes.clone();
        proof {
            assert forall|i: int| 0 <= i < bytes@.len() implies bytes@[i] == self.bytes@[i] by {
                assert(cloned::<u8>(self.bytes@[i], bytes@[i]));
            }
            assert(bytes@ =~= self.bytes@);
        }
        Quote { bytes }
    }

    /// Returns the 64-byte report-data window embedded in this quote.
    ///
    /// Fails with [`Error::QuoteTooShort`] exactly when the quote is
    /// shorter than [`REPORT_DATA_END`] bytes. The quote's authenticity is
    /// not checked here; that is the attestation authority's job.
    pub fn report_data(&self) -> (r: Result<Vec<u8>, Error>)
        ensures
            match r {
                Ok(w) => self@.len() >= REPORT_DATA_END && w@ == self@.subrange(
                    REPORT_DATA_BEGIN as int,
                    REPORT_DATA_END as int,
                ),
                Err(e) => e == Error::QuoteTooShort && self@.len() < REPORT_DATA_END,
            },
    {
        extract(&self.bytes, REPORT_DATA_BEGIN, REPORT_DATA_END)
    }
}

/// Client-supplied freshness value echoed into quote verification.
///
/// Never longer than [`NONCE_MAX_LEN`] bytes; the constructor rejects
/// anything longer.
#[derive(Debug, Clone)]
pub struct Nonce {
    bytes: Vec<u8>,
}

impl View for Nonce {
    type V = Seq<u8>;

    closed spec fn view(&self) -> Seq<u8> {
        self.bytes@
    }
}

impl Nonce {
    /// Wraps bytes as a nonce; fails with [`Error::NonceTooLong`] exactly
    /// when more than [`NONCE_MAX_LEN`] bytes are given.
    pub fn new(bytes: Vec<u8>) -> (r: Result<Nonce, Error>)
        ensures
            match r {
                Ok(n) => bytes@.len() <= NONCE_MAX_LEN && n@ == bytes@,
                Err(e) => e == Error::NonceTooLong && bytes@.len() > NONCE_MAX_LEN,
            },
    {
        if bytes.len() > NONCE_MAX_LEN {
            return Err(Error::NonceTooLong);
        }
        Ok(Nonce { bytes })
    }

    /// The underlying bytes.
    pub fn as_bytes(&self) -> (r: &Vec<u8>)
        ensures
            r@ == self@,
    {
        &self.bytes
    }

    /// A copy of this nonce with the same bytes.
    pub fn duplicate(&self) -> (r: Nonce)
        ensures
            r@ == self@,
    {
        let bytes = self.bytes.clone();
        proof {
            assert forall|i: int| 0 <= i < bytes@.len() implies bytes@[i] == self.bytes@[i] by {
                assert(cloned::<u8>(self.bytes@[i], bytes@[i]));
            }
            assert(bytes@ =~= self.bytes@);
        }
        Nonce { bytes }
    }
}

/// A signature revocation list fetched from the attestation authority
/// for one EPID group.
#[derive(Debug)]
pub struct Sigrl {
    bytes: Vec<u8>,
}

impl View for Sigrl {
    type V = Seq<u8>;

    closed spec fn view(&self) -> Seq<u8> {
        self.bytes@
    }
}

impl Sigrl {
    /// Wraps the bytes the authority returned.
    pub fn new(bytes: Vec<u8>) -> (r: Sigrl)
        ensures
            r@ == bytes@,
    {
        Sigrl { bytes }
    }

    /// The underlying bytes.
    pub fn as_bytes(&self) -> (r: &[u8])
        ensures
            r@ == self@,
    {
        self.bytes.as_slice()
    }
}

/// Interprets what the native revocation-list lookup came back with: a
/// zero return code with an empty buffer means the group has no list, a
/// zero code with data is the list itself, and a nonzero code is the
/// authority's failure.
pub fn sigrl_outcome(ret: i32, data: Vec<u8>) -> (r: Result<Option<Sigrl>, Error>)
    ensures
        match r {
            Ok(opt) => ret == 0 && match opt {
                None => data@.len() == 0,
                Some(sg) => data@.len() > 0 && sg@ == data@,
            },
            Err(e) => ret != 0 && e == Error::IasGetSigrlNonZero(ret),
        },
{
    if ret == 0 {
        if data.len() == 0 {
            Ok(None)
        } else {
            Ok(Some(Sigrl::new(data)))
        }
    } else {
        Err(Error::IasGetSigrlNonZero(ret))
    }
}

/// Interprets what native quote verification came back with: a zero
/// return code is acceptance, anything else is the authority's rejection.
pub fn verify_quote_outcome(ret: i32) -> (r: Result<(), Error>)
    ensures
        match r {
            Ok(()) => ret == 0,
            Err(e) => ret != 0 && e == Error::IasVerifyQuoteNonZero(ret),
        },
{
    if ret == 0 {
        Ok(())
    } else {
        Err(Error::IasVerifyQuoteNonZero(ret))
    }
}

/// Whether the character is a hexadecimal digit.
pub open spec fn is_hex_digit(c: char) -> bool {
    (48 <= c as u32 && c as u32 <= 57)  // '0'..='9'
    || (97 <= c as u32 && c as u32 <= 102)  // 'a'..='f'
    || (65 <= c as u32 && c as u32 <= 70)  // 'A'..='F'
}

/// The value of a hexadecimal digit.
pub open spec fn hex_digit_value(c: char) -> nat {
    if 48 <= c as u32 && c as u32 <= 57 {
        (c as u32 - 48) as nat
    } else if 97 <= c as u32 && c as u32 <= 102 {
        (c as u32 - 87) as nat
    } else {
        (c as u32 - 55) as nat
    }
}

/// The number a string of hexadecimal digits denotes, most significant
/// digit first.
pub open spec fn hex_value(s: Seq<char>) -> nat
    decreases s.len(),
{
    if s.len() == 0 {
        0
    } else {
        hex_value(s.drop_last()) * 16 + hex_digit_value(s.last())
    }
}

/// Whether the string is non-empty hexadecimal and its value fits 32
/// bits.
pub open spec fn valid_hex_u32(s: Seq<char>) -> bool {
    &&& s.len() > 0
    &&& forall|i: int| 0 <= i < s.len() ==> is_hex_digit(#[trigger] s[i])
    &&& hex_value(s) <= u32::MAX
}

proof fn lemma_hex_prefix_grows(s: Seq<char>, i: int, j: int)
    requires
        0 <= i <= j <= s.len(),
    ensures
        hex_value(s.subrange(0, j)) >= hex_value(s.subrange(0, i)),
    decreases j - i,
{
    if i < j {
        lemma_hex_prefix_grows(s, i, j - 1);
        assert(s.subrange(0, j).drop_last() =~= s.subrange(0, j - 1));
        assert(hex_value(s.subrange(0, j)) == hex_value(s.subrange(0, j - 1)) * 16
            + hex_digit_value(s.subrange(0, j).last()));
    }
}

/// An EPID group identifier: a 32-bit value, carried on the wire as four
/// little-endian bytes.
#[derive(Debug)]
pub struct GroupId {
    value: u32,
}

impl View for GroupId {
    type V = u32;

    closed spec fn view(&self) -> u32 {
        self.value
    }
}

impl GroupId {
    /// Parses a group identifier from hexadecimal text, most significant
    /// digit first. Fails with [`Error::ParseInt`] exactly when the text
    /// is empty, holds a non-hexadecimal character (so a "0x" prefix is
    /// rejected), or denotes a value beyond 32 bits.
    pub fn from_hex_str(s: &str) -> (r: Result<GroupId, Error>)
        ensures
            match r {
                Ok(g) => valid_hex_u32(s@) && g@ == hex_value(s@),
                Err(e) => e == Error::ParseInt && !valid_hex_u32(s@),
            },
    {
        let n = s.unicode_len();
        if n == 0 {
            return Err(Error::ParseInt);
        }
        let mut value: u32 = 0;
        let mut i: usize = 0;
        while i < n
            invariant
                n == s@.len(),
                i <= n,
                forall|j: int| 0 <= j < i ==> is_hex_digit(#[trigger] s@[j]),
                value == hex_value(s@.subrange(0, i as int)),
            decreases n - i,
        {
            let c = s.get_char(i);
            let u = c as u32;
            let d: u32 = if 48 <= u && u <= 57 {
                u - 48
            } else if 97 <= u && u <= 102 {
                u - 87
            } else if 65 <= u && u <= 70 {
                u - 55
            } else {
                proof {
                    assert(!is_hex_digit(s@[i as int]));
                }
                return Err(Error::ParseInt);
            };
            if value >= 0x1000_0000 {
                proof {
                    assert(s@.subrange(0, i as int + 1).drop_last() =~= s@.subrange(0, i as int));
                    assert(hex_value(s@.subrange(0, i as int + 1)) > u32::MAX);
                    lemma_hex_prefix_grows(s@, i as int + 1, n as int);
                    assert(s@.subrange(0, n as int) =~= s@);
                }
                return Err(Error::ParseInt);
            }
            proof {
                assert(s@.subrange(0, i as int + 1).drop_last() =~= s@.subrange(0, i as int));
                assert(d == hex_digit_value(s@[i as int]));
            }
            value = value * 16 + d;
            i = i + 1;
        }
        proof {
            assert(s@.subrange(0, n as int) =~= s@);
        }
        Ok(GroupId { value })
    }

    /// The identifier as four little-endian bytes, the wire form handed
    /// to the attestation authority.
    pub fn as_bytes(&self) -> (r: Vec<u8>)
        ensures
            r@ == vstd::bytes::spec_u32_to_le_bytes(self@),
    {
        vstd::bytes::u32_to_le_bytes(self.value)
    }
}

} // verus!
