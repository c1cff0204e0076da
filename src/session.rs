//! The decisions of one lookup, as a state machine driven by the caller.
//!
//! [`Session::start`] checks the arguments and the configuration and either
//! finishes at once or asks for the wallet's signatures. The caller performs
//! each requested query and hands the answer to [`Session::step`], until an
//! [`Action::Finish`] comes back.
use crate::codec::{pubkey_decode, signature_decode, TxSignature, WalletAddress};
use crate::error::QueryError;
use crate::report::Outcome;
use vstd::prelude::*;

verus! {

/// How many signatures the lookup asks the remote service for.
pub const SIGNATURE_LIMIT: u64 = 1;

/// The newest transaction version that the fetch asks the remote service to return.
pub const MAX_TRANSACTION_VERSION: u8 = 0;

/// What the caller is asked to do next.
pub enum Action {
    /// Connect to `endpoint` and ask for at most `limit` signatures of `address`.
    ListSignatures { endpoint: String, address: WalletAddress, limit: u64 },
    /// Ask for the transaction that `signature` names, in a version up to `max_supported_version`.
    FetchTransaction { signature: TxSignature, max_supported_version: u8 },
    /// The lookup is over.
    Finish(Outcome),
}

/// The answer to the query that the last action asked for.
pub enum Event {
    /// The signature query returned these signatures, in the service's order.
    SignaturesListed(Vec<String>),
    /// The signature query failed for this reason.
    LookupFailed(String),
    /// The transaction query returned this transaction, in printable form.
    TransactionFetched(String),
    /// The transaction query failed for this reason.
    FetchFailed(String),
}

/// Where a lookup stands.
pub enum Stage {
    /// Waiting for the signatures of the wallet written as `address`.
    AwaitingSignatures { address: String },
    /// Waiting for the transaction named by the signature written as `signature`.
    AwaitingTransaction { signature: String },
    /// Nothing more is awaited.
    Finished,
}

/// One lookup in progress.
pub struct Session {
    pub stage: Stage,
}

/// The name that a usage message gives the program when the arguments do not name it.
pub const DEFAULT_PROGRAM: &'static str = "latest_tx";

/// The program name in a usage message for `args`.
pub open spec fn program_name(args: Seq<String>) -> Seq<char> {
    if args.len() > 0 {
        args[0]@
    } else {
        DEFAULT_PROGRAM@
    }
}

/// The signature that the lookup follows: the last of those that the service returned,
/// which the service's ordering makes the most recent.
pub open spec fn latest(listed: Seq<String>) -> Option<String> {
    if listed.len() == 0 {
        None
    } else {
        Some(listed.last())
    }
}

/// Picks the signature to follow from what the service returned.
pub fn select_latest(listed: &Vec<String>) -> (r: Option<String>)
    ensures
        r == latest(listed@),
{
    let n = listed.len();
    if n == 0 {
        None
    } else {
        Some(listed[n - 1].clone())
    }
}

impl Event {
    /// The event answers a signature query.
    pub open spec fn answers_lookup(&self) -> bool {
        self is SignaturesListed || self is LookupFailed
    }

    /// The event answers a transaction query.
    pub open spec fn answers_fetch(&self) -> bool {
        self is TransactionFetched || self is FetchFailed
    }
}

impl Session {
    /// The session waits for `event`'s kind of answer.
    pub open spec fn awaits(&self, event: Event) -> bool {
        match self.stage {
            Stage::AwaitingSignatures { .. } => event.answers_lookup(),
            Stage::AwaitingTransaction { .. } => event.answers_fetch(),
            Stage::Finished => false,
        }
    }

    /// Whether the session waits for `event`'s kind of answer.
    pub fn accepts(&self, event: &Event) -> (r: bool)
        ensures
            r == self.awaits(*event),
    {
        match self.stage {
            Stage::AwaitingSignatures { .. } => match event {
                Event::SignaturesListed(_) | Event::LookupFailed(_) => true,
                _ => false,
            },
            Stage::AwaitingTransaction { .. } => match event {
                Event::TransactionFetched(_) | Event::FetchFailed(_) => true,
                _ => false,
            },
            Stage::Finished => false,
        }
    }

    /// Whether the lookup is over.
    pub fn is_finished(&self) -> (r: bool)
        ensures
            r == (self.stage is Finished),
    {
        match self.stage {
            Stage::Finished => true,
            _ => false,
        }
    }

    /// Begins a lookup from the command-line arguments (the program name first) and the
    /// configured RPC endpoint, or the reason it could not be read.
    ///
    /// No query is asked for unless there is exactly one argument after the program name,
    /// the endpoint is known, and the address decodes.
    pub fn start(args: &Vec<String>, endpoint: Result<String, String>) -> (r: (Session, Action))
        ensures
            Self::started(args@, endpoint, r.0, r.1),
            r.1 is ListSignatures <==> Self::may_query(args@, endpoint),
            r.1 is Finish <==> r.0.stage is Finished,
    {
        if args.len() != 2 {
            let program = if args.len() > 0 {
                args[0].clone()
            } else {
                DEFAULT_PROGRAM.to_owned()
            };
            let error = QueryError::UsageError { program };
            return (Session { stage: Stage::Finished }, Action::Finish(Outcome::Failed(error)));
        }
        let endpoint = match endpoint {
            Ok(url) => url,
            Err(cause) => {
                let error = QueryError::ConfigurationError { cause };
                return (
                    Session { stage: Stage::Finished },
                    Action::Finish(Outcome::Failed(error)),
                );
            },
        };
        match WalletAddress::parse(&args[1]) {
            Err(reason) => {
                let error = QueryError::InvalidAddressError { address: args[1].clone(), reason };
                (Session { stage: Stage::Finished }, Action::Finish(Outcome::Failed(error)))
            },
            Ok(address) => {
                let session = Session { stage: Stage::AwaitingSignatures { address: args[1].clone() } };
                (session, Action::ListSignatures { endpoint, address, limit: SIGNATURE_LIMIT })
            },
        }
    }

    /// Takes the answer to the last query and decides what comes next.
    pub fn step(&mut self, event: Event) -> (r: Action)
        requires
            old(self).awaits(event),
        ensures
            Self::stepped(old(self).stage, event, final(self).stage, r),
            r is Finish <==> final(self).stage is Finished,
            !(r is ListSignatures),
    {
        let mut stage = Stage::Finished;
        std::mem::swap(&mut stage, &mut self.stage);
        match stage {
            Stage::AwaitingSignatures { address } => match event {
                Event::LookupFailed(cause) => {
                    Action::Finish(Outcome::Failed(QueryError::LookupError { address, cause }))
                },
                Event::SignaturesListed(listed) => match select_latest(&listed) {
                    None => Action::Finish(Outcome::NoTransactions),
                    Some(text) => match TxSignature::parse(&text) {
                        Err(reason) => {
                            let error = QueryError::SignatureParseError { signature: text, reason };
                            Action::Finish(Outcome::Failed(error))
                        },
                        Ok(signature) => {
                            self.stage = Stage::AwaitingTransaction { signature: text };
                            Action::FetchTransaction {
                                signature,
                                max_supported_version: MAX_TRANSACTION_VERSION,
                            }
                        },
                    },
                },
                // an answer of the other kind: excluded by `awaits`
                _ => Action::Finish(Outcome::NoTransactions),
            },
            Stage::AwaitingTransaction { signature } => match event {
                Event::FetchFailed(cause) => {
                    Action::Finish(Outcome::Failed(QueryError::FetchError { signature, cause }))
                },
                Event::TransactionFetched(details) => {
                    Action::Finish(Outcome::Found { signature, details })
                },
                // an answer of the other kind: excluded by `awaits`
                _ => Action::Finish(Outcome::NoTransactions),
            },
            // nothing is awaited once finished: excluded by `awaits`
            Stage::Finished => Action::Finish(Outcome::NoTransactions),
        }
    }

    /// Arguments and configuration under which a lookup queries the remote service.
    pub open spec fn may_query(args: Seq<String>, endpoint: Result<String, String>) -> bool {
        &&& args.len() == 2
        &&& endpoint is Ok
        &&& pubkey_decode(args[1]@) is Ok
    }

    /// `session` and `action` are how a lookup begins for `args` and `endpoint`.
    pub open spec fn started(
        args: Seq<String>,
        endpoint: Result<String, String>,
        session: Session,
        action: Action,
    ) -> bool {
        if args.len() != 2 {
            &&& action matches Action::Finish(Outcome::Failed(QueryError::UsageError { program }))
            &&& program@ == program_name(args)
        } else if endpoint is Err {
            action == Action::Finish(
                Outcome::Failed(QueryError::ConfigurationError { cause: endpoint->Err_0 }),
            )
        } else {
            match pubkey_decode(args[1]@) {
                Err(reason) => action == Action::Finish(
                    Outcome::Failed(QueryError::InvalidAddressError { address: args[1], reason }),
                ),
                Ok(bytes) => {
                    &&& action matches Action::ListSignatures { endpoint: url, address, limit }
                    &&& url == endpoint->Ok_0
                    &&& address.wf()
                    &&& address.text_spec() == args[1]@
                    &&& address.bytes_spec() == bytes
                    &&& limit == SIGNATURE_LIMIT
                    &&& session.stage == (Stage::AwaitingSignatures { address: args[1] })
                },
            }
        }
    }

    /// From `before`, on `event`, the session moves to `after` and asks for `action`.
    pub open spec fn stepped(before: Stage, event: Event, after: Stage, action: Action) -> bool {
        match before {
            Stage::AwaitingSignatures { address } => match event {
                Event::LookupFailed(cause) => action == Action::Finish(
                    Outcome::Failed(QueryError::LookupError { address, cause }),
                ),
                Event::SignaturesListed(listed) => {
                    &&& Self::follows(action, listed@)
                    &&& action is FetchTransaction ==> after == (Stage::AwaitingTransaction {
                        signature: listed@.last(),
                    })
                },
                _ => false,
            },
            Stage::AwaitingTransaction { signature } => match event {
                Event::FetchFailed(cause) => action == Action::Finish(
                    Outcome::Failed(QueryError::FetchError { signature, cause }),
                ),
                Event::TransactionFetched(details) => action == Action::Finish(
                    Outcome::Found { signature, details },
                ),
                _ => false,
            },
            Stage::Finished => false,
        }
    }

    /// `r` is what follows from the signatures `listed`, in the service's order: nothing
    /// found when there are none; otherwise the last one is fetched if it decodes, and
    /// is reported as malformed if not.
    pub open spec fn follows(r: Action, listed: Seq<String>) -> bool {
        match latest(listed) {
            None => r == Action::Finish(Outcome::NoTransactions),
            Some(text) => match signature_decode(text@) {
                Err(reason) => r == Action::Finish(
                    Outcome::Failed(QueryError::SignatureParseError { signature: text, reason }),
                ),
                Ok(bytes) => {
                    &&& r is FetchTransaction
                    &&& r->signature.wf()
                    &&& r->signature.text_spec() == text@
                    &&& r->signature.bytes_spec() == bytes
                    &&& r->max_supported_version == MAX_TRANSACTION_VERSION
                },
            },
        }
    }
}

} // verus!
