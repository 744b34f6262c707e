//! The registration coordinator: deduplicates enrollment attempts, tracks
//! one in-flight ticket per login while the attestation authority checks
//! the quote, persists the extracted public key on success, and answers
//! status polls with single-consume semantics.
//!
//! The authority's verdict arrives as an argument to
//! [`RegistrationCoordinator::complete_registration`]; the network call
//! itself happens off the request-handling path, outside this module.

use vstd::prelude::*;
use crate::codec::{b64_encode, b64_of};
use crate::error::AppError;
use crate::kv::KvTable;
use crate::sgx;
use crate::sgx::{Nonce, Quote};
use crate::store::{NewUser, UserStore};

verus! {

/// Length of the public key at the start of the report-data window.
pub const PUB_KEY_LEN: usize = 32;

/// The base64 public key carried in a quote's report-data window: the
/// first [`PUB_KEY_LEN`] bytes of the window, base64-encoded.
pub open spec fn quote_pub_key(quote: Seq<u8>) -> Seq<char> {
    b64_of(
        quote.subrange(
            sgx::REPORT_DATA_BEGIN as int,
            sgx::REPORT_DATA_BEGIN as int + PUB_KEY_LEN as int,
        ),
    )
}

/// Progress of one in-flight registration.
#[derive(Debug, Clone, Copy, PartialEq, Eq)]
pub enum TicketState {
    /// The verdict has not arrived yet.
    Pending,
    /// The registration finished with this outcome.
    Resolved(Result<(), AppError>),
}

/// One in-flight registration: the evidence under verification and how
/// far it has come.
#[derive(Debug)]
pub struct Ticket {
    quote: Quote,
    nonce: Option<Nonce>,
    state: TicketState,
}

/// The abstract value of a ticket.
pub struct TicketView {
    pub quote: Seq<u8>,
    pub nonce: Option<Seq<u8>>,
    pub state: TicketState,
}

/// The abstract value of an optional nonce.
pub open spec fn opt_nonce_view(n: Option<Nonce>) -> Option<Seq<u8>> {
    match n {
        Some(x) => Some(x@),
        None => None,
    }
}

impl View for Ticket {
    type V = TicketView;

    closed spec fn view(&self) -> TicketView {
        TicketView { quote: self.quote@, nonce: opt_nonce_view(self.nonce), state: self.state }
    }
}

impl Ticket {
    /// The evidence under verification.
    pub fn quote(&self) -> (r: &Quote)
        ensures
            r@ == self@.quote,
    {
        &self.quote
    }

    /// The freshness value to echo to the authority, if any.
    pub fn nonce(&self) -> (r: &Option<Nonce>)
        ensures
            opt_nonce_view(*r) == self@.nonce,
    {
        &self.nonce
    }

    /// How far this registration has come.
    pub fn state(&self) -> (r: TicketState)
        ensures
            r == self@.state,
    {
        self.state
    }
}

/// What a status poll reports.
#[derive(Debug, Clone, Copy, PartialEq, Eq)]
pub enum PollStatus {
    /// No ticket for that login: never started, or already consumed.
    NotFound,
    /// The background verification has not signaled yet.
    InProgress,
    /// The registration finished with this outcome; the ticket is gone.
    Done(Result<(), AppError>),
}

/// Abstract transition of [`RegistrationCoordinator::begin_registration`].
pub open spec fn spec_begin(
    c: Map<Seq<char>, TicketView>,
    s: Map<Seq<char>, Seq<char>>,
    login: Seq<char>,
    quote: Seq<u8>,
    nonce: Option<Seq<u8>>,
) -> (Map<Seq<char>, TicketView>, Result<(), AppError>) {
    if s.contains_key(login) || c.contains_key(login) {
        (c, Err(AppError::AlreadyRegistered))
    } else {
        (c.insert(login, TicketView { quote, nonce, state: TicketState::Pending }), Ok(()))
    }
}

/// The ticket map with the login's ticket resolved to `res`.
pub open spec fn resolve_ticket(
    c: Map<Seq<char>, TicketView>,
    login: Seq<char>,
    res: Result<(), AppError>,
) -> Map<Seq<char>, TicketView> {
    c.insert(
        login,
        TicketView {
            quote: c[login].quote,
            nonce: c[login].nonce,
            state: TicketState::Resolved(res),
        },
    )
}

/// Abstract transition of
/// [`RegistrationCoordinator::complete_registration`]: the pending ticket
/// resolves according to the verdict, and exactly on full success the
/// store gains the quote's public key.
pub open spec fn spec_complete(
    c: Map<Seq<char>, TicketView>,
    s: Map<Seq<char>, Seq<char>>,
    login: Seq<char>,
    verdict: Result<(), i32>,
) -> (Map<Seq<char>, TicketView>, Map<Seq<char>, Seq<char>>) {
    if !c.contains_key(login) || !(c[login].state is Pending) {
        (c, s)
    } else {
        match verdict {
            Err(code) => (resolve_ticket(c, login, Err(AppError::AttestationRejected(code))), s),
            Ok(()) => {
                if c[login].quote.len() < sgx::REPORT_DATA_END {
                    (
                        resolve_ticket(
                            c,
                            login,
                            Err(AppError::RustSgxUtil(sgx::Error::QuoteTooShort)),
                        ),
                        s,
                    )
                } else if s.contains_key(login) {
                    (resolve_ticket(c, login, Err(AppError::DuplicateOnInsert)), s)
                } else {
                    (
                        resolve_ticket(c, login, Ok(())),
                        s.insert(login, quote_pub_key(c[login].quote)),
                    )
                }
            },
        }
    }
}

/// Abstract transition of [`RegistrationCoordinator::fail_registration`].
pub open spec fn spec_fail(
    c: Map<Seq<char>, TicketView>,
    login: Seq<char>,
) -> Map<Seq<char>, TicketView> {
    if c.contains_key(login) && c[login].state is Pending {
        resolve_ticket(c, login, Err(AppError::StoreUnavailable))
    } else {
        c
    }
}

/// Abstract transition of [`RegistrationCoordinator::poll_status`]: a
/// resolved ticket is consumed by the poll that observes it.
pub open spec fn spec_poll(
    c: Map<Seq<char>, TicketView>,
    login: Seq<char>,
) -> (Map<Seq<char>, TicketView>, PollStatus) {
    if !c.contains_key(login) {
        (c, PollStatus::NotFound)
    } else {
        match c[login].state {
            TicketState::Pending => (c, PollStatus::InProgress),
            TicketState::Resolved(res) => (c.remove(login), PollStatus::Done(res)),
        }
    }
}

/// Tracks the in-flight registrations, one ticket per login.
pub struct RegistrationCoordinator {
    tickets: KvTable<Ticket>,
}

impl View for RegistrationCoordinator {
    type V = Map<Seq<char>, TicketView>;

    closed spec fn view(&self) -> Map<Seq<char>, TicketView> {
        self.tickets@.map_values(|t: Ticket| t@)
    }
}

impl RegistrationCoordinator {
    /// The ticket table keeps its keys distinct.
    pub closed spec fn wf(&self) -> bool {
        self.tickets.wf()
    }

    /// A coordinator with no in-flight registrations.
    pub fn new() -> (r: RegistrationCoordinator)
        ensures
            r.wf(),
            r@ == Map::<Seq<char>, TicketView>::empty(),
    {
        let r = RegistrationCoordinator { tickets: KvTable::new() };
        proof {
            assert(r@ =~= Map::<Seq<char>, TicketView>::empty());
        }
        r
    }

    /// Accepts an enrollment attempt, or rejects it synchronously.
    ///
    /// Fails with [`AppError::AlreadyRegistered`] — starting no background
    /// work and creating no ticket — exactly when the login already has a
    /// durable record or a ticket in flight. Otherwise a pending ticket
    /// holding the evidence is created and the caller must hand the
    /// evidence to the attestation authority, then report the verdict via
    /// [`Self::complete_registration`].
    pub fn begin_registration(
        &mut self,
        store: &UserStore,
        login: String,
        quote: Quote,
        nonce: Option<Nonce>,
    ) -> (r: Result<(), AppError>)
        requires
            old(self).wf(),
            store.wf(),
        ensures
            final(self).wf(),
            ({
                let (c2, res) = spec_begin(old(self)@, store@, login@, quote@, opt_nonce_view(nonce));
                final(self)@ == c2 && r == res
            }),
    {
        if store.contains(&login) {
            return Err(AppError::AlreadyRegistered);
        }
        if self.tickets.contains(&login) {
            return Err(AppError::AlreadyRegistered);
        }
        let ghost k = login@;
        let ghost tv = TicketView {
            quote: quote@,
            nonce: opt_nonce_view(nonce),
            state: TicketState::Pending,
        };
        let inserted = self.tickets.insert_new(
            login,
            Ticket { quote, nonce, state: TicketState::Pending },
        );
        proof {
            assert(inserted);
            assert(final(self)@ =~= old(self)@.insert(k, tv));
        }
        Ok(())
    }

    /// The evidence awaiting a verdict for this login, if any.
    pub fn pending_job(&self, login: &String) -> (r: Option<&Ticket>)
        requires
            self.wf(),
        ensures
            match r {
                Some(t) => self@.contains_key(login@) && t@ == self@[login@]
                    && self@[login@].state is Pending,
                None => !self@.contains_key(login@) || !(self@[login@].state is Pending),
            },
    {
        match self.tickets.get(login) {
            Some(t) => {
                if matches!(t.state, TicketState::Pending) {
                    Some(t)
                } else {
                    None
                }
            },
            None => None,
        }
    }

    /// Rebuilds the login's ticket with the given resolution.
    fn resolve(&mut self, login: &String, res: Result<(), AppError>)
        requires
            old(self).wf(),
            old(self)@.contains_key(login@),
        ensures
            final(self).wf(),
            final(self)@ == resolve_ticket(old(self)@, login@, res),
    {
        let replacement = match self.tickets.get(login) {
            Some(t) => {
                let nonce = match &t.nonce {
                    Some(n) => Some(n.duplicate()),
                    None => None,
                };
                Ticket { quote: t.quote.duplicate(), nonce, state: TicketState::Resolved(res) }
            },
            None => {
                proof {
                    assert(false);
                }
                Ticket {
                    quote: Quote::from_vec(Vec::new()),
                    nonce: None,
                    state: TicketState::Resolved(res),
                }
            },
        };
        let updated = self.tickets.update(login, replacement);
        proof {
            assert(updated);
            assert(final(self)@ =~= resolve_ticket(old(self)@, login@, res));
        }
    }

    /// Records the attestation authority's verdict for a pending ticket
    /// and finishes the registration.
    ///
    /// On a rejecting verdict the ticket resolves to
    /// [`AppError::AttestationRejected`] and nothing is inserted. On an
    /// accepting verdict the public key is carved out of the stored quote
    /// ([`AppError::RustSgxUtil`] with a too-short quote resolves the
    /// ticket instead) and inserted into the store; losing the insert race
    /// resolves the ticket to [`AppError::DuplicateOnInsert`]. A ticket
    /// that is absent or already resolved leaves everything unchanged; a
    /// pending ticket never stays pending.
    pub fn complete_registration(
        &mut self,
        store: &mut UserStore,
        login: &String,
        verdict: Result<(), i32>,
    )
        requires
            old(self).wf(),
            old(store).wf(),
        ensures
            final(self).wf(),
            final(store).wf(),
            ({
                let (c2, s2) = spec_complete(old(self)@, old(store)@, login@, verdict);
                final(self)@ == c2 && final(store)@ == s2
            }),
    {
        let pending = match self.tickets.get(login) {
            Some(t) => matches!(t.state, TicketState::Pending),
            None => false,
        };
        if !pending {
            return;
        }
        match verdict {
            Err(code) => {
                self.resolve(login, Err(AppError::AttestationRejected(code)));
            },
            Ok(()) => {
                let pk: Option<String> = match self.tickets.get(login) {
                    Some(t) => {
                        match t.quote.report_data() {
                            Ok(window) => {
                                let key_bytes = match sgx::extract(&window, 0, PUB_KEY_LEN) {
                                    Ok(kb) => kb,
                                    Err(_) => {
                                        proof {
                                            assert(false);
                                        }
                                        Vec::new()
                                    },
                                };
                                proof {
                                    assert(key_bytes@ =~= t.quote@.subrange(
                                        sgx::REPORT_DATA_BEGIN as int,
                                        sgx::REPORT_DATA_BEGIN as int + PUB_KEY_LEN as int,
                                    ));
                                }
                                Some(b64_encode(&key_bytes))
                            },
                            Err(_) => None,
                        }
                    },
                    None => {
                        proof {
                            assert(false);
                        }
                        None
                    },
                };
                match pk {
                    None => {
                        self.resolve(
                            login,
                            Err(AppError::RustSgxUtil(sgx::Error::QuoteTooShort)),
                        );
                    },
                    Some(pk_b64) => {
                        match store.insert(NewUser { login: login.clone(), pub_key: pk_b64 }) {
                            Ok(()) => {
                                self.resolve(login, Ok(()));
                            },
                            Err(e) => {
                                self.resolve(login, Err(e));
                            },
                        }
                    },
                }
            },
        }
    }

    /// Resolves a pending ticket to [`AppError::StoreUnavailable`]: the
    /// runtime calls this when the background unit could not run at all,
    /// so that no ticket ever stays pending forever.
    pub fn fail_registration(&mut self, login: &String)
        requires
            old(self).wf(),
        ensures
            final(self).wf(),
            final(self)@ == spec_fail(old(self)@, login@),
    {
        let pending = match self.tickets.get(login) {
            Some(t) => matches!(t.state, TicketState::Pending),
            None => false,
        };
        if pending {
            self.resolve(login, Err(AppError::StoreUnavailable));
        }
    }

    /// Answers a status poll. A resolved ticket is reported exactly once:
    /// the observing poll consumes it, and later polls see
    /// [`PollStatus::NotFound`].
    pub fn poll_status(&mut self, login: &String) -> (r: PollStatus)
        requires
            old(self).wf(),
        ensures
            final(self).wf(),
            ({
                let (c2, st) = spec_poll(old(self)@, login@);
                final(self)@ == c2 && r == st
            }),
    {
        let state_opt: Option<TicketState> = match self.tickets.get(login) {
            Some(t) => Some(t.state),
            None => None,
        };
        match state_opt {
            None => PollStatus::NotFound,
            Some(TicketState::Pending) => PollStatus::InProgress,
            Some(TicketState::Resolved(res)) => {
                let removed = self.tickets.remove(login);
                proof {
                    assert(removed);
                    assert(final(self)@ =~= old(self)@.remove(login@));
                }
                PollStatus::Done(res)
            },
        }
    }
}

/// Law: for a login with no durable record and no ticket in flight, an
/// enrollment that is begun, completed with an accepting verdict over a
/// long-enough quote, and then polled is accepted, reports success
/// exactly once, and persists the quote's public key.
pub proof fn lemma_registration_completes(
    c: Map<Seq<char>, TicketView>,
    s: Map<Seq<char>, Seq<char>>,
    login: Seq<char>,
    quote: Seq<u8>,
    nonce: Option<Seq<u8>>,
)
    requires
        !s.contains_key(login),
        !c.contains_key(login),
        quote.len() >= sgx::REPORT_DATA_END,
    ensures
        ({
            let (c1, r1) = spec_begin(c, s, login, quote, nonce);
            let (c2, s2) = spec_complete(c1, s, login, Ok(()));
            let (c3, st) = spec_poll(c2, login);
            &&& r1 == Ok::<(), AppError>(())
            &&& s2 == s.insert(login, quote_pub_key(quote))
            &&& st == PollStatus::Done(Ok::<(), AppError>(()))
            &&& !c3.contains_key(login)
        }),
{
}

/// Law: while a ticket is in flight, a second enrollment attempt for the
/// same login is rejected synchronously and changes nothing.
pub proof fn lemma_second_begin_rejected(
    c: Map<Seq<char>, TicketView>,
    s: Map<Seq<char>, Seq<char>>,
    login: Seq<char>,
    quote1: Seq<u8>,
    nonce1: Option<Seq<u8>>,
    quote2: Seq<u8>,
    nonce2: Option<Seq<u8>>,
)
    requires
        spec_begin(c, s, login, quote1, nonce1).1 == Ok::<(), AppError>(()),
    ensures
        ({
            let (c1, r1) = spec_begin(c, s, login, quote1, nonce1);
            let (c2, r2) = spec_begin(c1, s, login, quote2, nonce2);
            r2 == Err::<(), AppError>(AppError::AlreadyRegistered) && c2 == c1
        }),
{
}

/// Law: a verdict, whatever it says, resolves a pending ticket; no
/// fault of the background unit leaves a poller waiting forever.
pub proof fn lemma_ticket_always_resolves(
    c: Map<Seq<char>, TicketView>,
    s: Map<Seq<char>, Seq<char>>,
    login: Seq<char>,
    verdict: Result<(), i32>,
)
    requires
        c.contains_key(login),
        c[login].state is Pending,
    ensures
        ({
            let (c2, _) = spec_complete(c, s, login, verdict);
            c2.contains_key(login) && c2[login].state is Resolved
        }),
{
}

/// Law: completing a registration never overwrites a record that is
/// already in the store: when the login is present, the store is
/// unchanged and a pending ticket resolves to
/// [`AppError::DuplicateOnInsert`].
pub proof fn lemma_no_silent_overwrite(
    c: Map<Seq<char>, TicketView>,
    s: Map<Seq<char>, Seq<char>>,
    login: Seq<char>,
)
    requires
        s.contains_key(login),
        c.contains_key(login),
        c[login].state is Pending,
        c[login].quote.len() >= sgx::REPORT_DATA_END,
    ensures
        ({
            let (c2, s2) = spec_complete(c, s, login, Ok(()));
            s2 == s && c2 == resolve_ticket(c, login, Err(AppError::DuplicateOnInsert))
        }),
{
}

} // verus!
