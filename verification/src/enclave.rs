//! The client-side enclave handle as the bridge logic sees it: a cache
//! holding at most one quote. Producing a quote and signing a buffer are
//! native enclave operations performed outside this module; the cache
//! decides when a fresh quote is needed and keeps the one obtained.

use vstd::prelude::*;
use crate::sgx::Quote;

verus! {

/// Whether the produced evidence is linkable across relying parties.
#[derive(Debug, Clone, Copy, PartialEq, Eq, Structural)]
pub enum QuoteType {
    Linkable,
    Unlinkable,
}

impl QuoteType {
    /// The one-character tag the native interface uses for this kind.
    pub fn tag(&self) -> (r: char)
        ensures
            r == match self {
                QuoteType::Linkable => 'l',
                QuoteType::Unlinkable => 'u',
            },
    {
        match self {
            QuoteType::Linkable => 'l',
            QuoteType::Unlinkable => 'u',
        }
    }
}

/// The enclave handle's protocol state: the cached quote, if one was
/// already produced.
#[derive(Debug)]
pub struct PodEnclave {
    quote: Option<Quote>,
}

impl View for PodEnclave {
    type V = Option<Seq<u8>>;

    closed spec fn view(&self) -> Option<Seq<u8>> {
        match self.quote {
            Some(q) => Some(q@),
            None => None,
        }
    }
}

impl PodEnclave {
    /// A freshly loaded enclave handle: no quote cached yet.
    pub fn new() -> (r: PodEnclave)
        ensures
            r@ is None,
    {
        PodEnclave { quote: None }
    }

    /// Whether a fresh quote must be produced before [`Self::get_quote`]
    /// can answer from the cache.
    pub fn quote_needed(&self) -> (r: bool)
        ensures
            r == (self@ is None),
    {
        self.quote.is_none()
    }

    /// Answers with the cached quote if one is held, ignoring `fresh`;
    /// otherwise keeps `fresh` as the cache and answers with it.
    pub fn get_quote(&mut self, fresh: Quote) -> (r: Quote)
        ensures
            match old(self)@ {
                Some(q) => r@ == q && final(self)@ == old(self)@,
                None => r@ == fresh@ && final(self)@ == Some(fresh@),
            },
    {
        match &self.quote {
            Some(q) => q.duplicate(),
            None => {
                self.quote = Some(fresh.duplicate());
                fresh
            },
        }
    }
}

} // verus!
