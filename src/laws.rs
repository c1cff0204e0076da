//! Properties of a whole lookup, stated over the contracts of its parts.
use crate::codec::pubkey_decode;
use crate::error::QueryError;
use crate::report::{error_message, usage_message, Outcome, Report, NO_TRANSACTIONS};
use crate::session::{latest, program_name, Action, Event, Session, Stage};
use vstd::prelude::*;

verus! {

/// A malformed wallet address ends the lookup with an invalid-address error before any
/// query is made, and the run exits with a non-zero status.
pub proof fn malformed_address_fails_without_query(
    args: Seq<String>,
    endpoint: Result<String, String>,
    session: Session,
    action: Action,
    report: Report,
)
    requires
        args.len() == 2,
        endpoint is Ok,
        pubkey_decode(args[1]@) is Err,
        Session::started(args, endpoint, session, action),
        action is Finish ==> report.shows(action->Finish_0),
    ensures
        action matches Action::Finish(Outcome::Failed(QueryError::InvalidAddressError { address, .. }))
            && address == args[1],
        !(action is ListSignatures),
        report.exit_code != 0,
{
}

/// When the service returns no signature, the run prints only the no-transactions
/// message and exits with 0.
pub proof fn no_signatures_prints_not_found(
    address: String,
    listed: Vec<String>,
    after: Stage,
    action: Action,
    report: Report,
)
    requires
        listed@.len() == 0,
        Session::stepped(
            Stage::AwaitingSignatures { address },
            Event::SignaturesListed(listed),
            after,
            action,
        ),
        action is Finish ==> report.shows(action->Finish_0),
    ensures
        action == Action::Finish(Outcome::NoTransactions),
        report.succeeds_with(seq![NO_TRANSACTIONS@]),
{
}

/// When the service returns exactly one signature that decodes, the transaction of
/// exactly that signature is fetched; what the fetch returns, or why it failed, is
/// then what the lookup ends with.
pub proof fn single_signature_is_fetched(
    address: String,
    listed: Vec<String>,
    waiting: Stage,
    fetch: Action,
    answer: Event,
    done: Stage,
    end: Action,
)
    requires
        listed@.len() == 1,
        Session::stepped(
            Stage::AwaitingSignatures { address },
            Event::SignaturesListed(listed),
            waiting,
            fetch,
        ),
        fetch is FetchTransaction,
        answer.answers_fetch(),
        Session::stepped(waiting, answer, done, end),
    ensures
        fetch->signature.text_spec() == listed@[0]@,
        answer matches Event::TransactionFetched(details) ==> end == Action::Finish(
            Outcome::Found { signature: listed@[0], details },
        ),
        answer matches Event::FetchFailed(cause) ==> end == Action::Finish(
            Outcome::Failed(QueryError::FetchError { signature: listed@[0], cause }),
        ),
{
}

/// Of several returned signatures, the lookup follows the last one, never another.
pub proof fn latest_is_last(address: String, listed: Vec<String>, after: Stage, action: Action)
    requires
        listed@.len() > 0,
        Session::stepped(
            Stage::AwaitingSignatures { address },
            Event::SignaturesListed(listed),
            after,
            action,
        ),
    ensures
        latest(listed@) == Some(listed@[listed@.len() - 1]),
        action is FetchTransaction ==> action->signature.text_spec() == listed@[listed@.len() - 1]@,
        action is FetchTransaction ==> after == (Stage::AwaitingTransaction {
            signature: listed@[listed@.len() - 1],
        }),
        action matches Action::Finish(Outcome::Failed(QueryError::SignatureParseError { signature, .. }))
            ==> signature == listed@[listed@.len() - 1],
        action != Action::Finish(Outcome::NoTransactions),
{
}

/// Without exactly one argument after the program name, the run prints the usage line
/// to standard error and exits with 1, before any query.
pub proof fn wrong_argument_count_prints_usage(
    args: Seq<String>,
    endpoint: Result<String, String>,
    session: Session,
    action: Action,
    report: Report,
)
    requires
        args.len() != 2,
        Session::started(args, endpoint, session, action),
        action is Finish ==> report.shows(action->Finish_0),
    ensures
        !(action is ListSignatures),
        report.fails_with(usage_message(program_name(args))),
{
}

/// Without a configured endpoint, the lookup ends with a configuration error before
/// any query, and the run exits with a non-zero status.
pub proof fn missing_endpoint_fails_without_query(
    args: Seq<String>,
    endpoint: Result<String, String>,
    session: Session,
    action: Action,
    report: Report,
)
    requires
        args.len() == 2,
        endpoint is Err,
        Session::started(args, endpoint, session, action),
        action is Finish ==> report.shows(action->Finish_0),
    ensures
        action == Action::Finish(
            Outcome::Failed(QueryError::ConfigurationError { cause: endpoint->Err_0 }),
        ),
        report.fails_with(
            error_message(QueryError::ConfigurationError { cause: endpoint->Err_0 }),
        ),
        report.exit_code != 0,
{
}

} // verus!
