use latest_tx::codec::{DecodeFailure, TxSignature, WalletAddress};
use latest_tx::error::QueryError;
use latest_tx::report::{error_line, render, Line, Outcome, Report, NO_TRANSACTIONS};
use latest_tx::session::{
    select_latest, Action, Event, Session, Stage, MAX_TRANSACTION_VERSION, SIGNATURE_LIMIT,
};

const SYSTEM_ADDRESS: &str = "11111111111111111111111111111111";
const ENDPOINT: &str = "http://127.0.0.1:8899";

fn args(items: &[&str]) -> Vec<String> {
    items.iter().map(|s| s.to_string()).collect()
}

fn text(line: &Line) -> String {
    line.parts.concat()
}

fn out(report: &Report) -> Vec<String> {
    report.stdout.iter().map(text).collect()
}

fn err(report: &Report) -> Vec<String> {
    report.stderr.iter().map(text).collect()
}

fn zero_signature() -> String {
    "1".repeat(64)
}

fn signature_ending_in(c: char) -> String {
    let mut s = "1".repeat(63);
    s.push(c);
    s
}

fn start_ok() -> (Session, Action) {
    Session::start(&args(&["latest_tx", SYSTEM_ADDRESS]), Ok(ENDPOINT.to_string()))
}

fn finished(action: Action) -> Outcome {
    match action {
        Action::Finish(outcome) => outcome,
        _ => panic!("expected the lookup to finish"),
    }
}

#[test]
fn system_address_with_no_signatures_prints_not_found() {
    let (mut session, action) = start_ok();
    match action {
        Action::ListSignatures { endpoint, address, limit } => {
            assert_eq!(endpoint, ENDPOINT);
            assert_eq!(address.text(), SYSTEM_ADDRESS);
            assert_eq!(address.bytes(), &vec![0u8; 32]);
            assert_eq!(limit, 1);
            assert_eq!(limit, SIGNATURE_LIMIT);
        }
        _ => panic!("expected a signature query"),
    }
    let event = Event::SignaturesListed(Vec::new());
    assert!(session.accepts(&event));
    let outcome = finished(session.step(event));
    assert!(matches!(outcome, Outcome::NoTransactions));
    assert!(session.is_finished());
    let report = render(&outcome);
    assert_eq!(out(&report), vec![NO_TRANSACTIONS.to_string()]);
    assert_eq!(out(&report), vec!["No transactions found for the wallet.".to_string()]);
    assert!(report.stderr.is_empty());
    assert_eq!(report.exit_code, 0);
}

#[test]
fn single_signature_is_fetched_and_printed() {
    let (mut session, _) = start_ok();
    let sig = zero_signature();
    let action = session.step(Event::SignaturesListed(vec![sig.clone()]));
    match action {
        Action::FetchTransaction { signature, max_supported_version } => {
            assert_eq!(signature.text(), &sig);
            assert_eq!(signature.bytes(), &vec![0u8; 64]);
            assert_eq!(max_supported_version, 0);
            assert_eq!(max_supported_version, MAX_TRANSACTION_VERSION);
        }
        _ => panic!("expected a transaction query"),
    }
    let details = "Transaction {\n    slot: 7,\n}".to_string();
    let outcome = finished(session.step(Event::TransactionFetched(details.clone())));
    match &outcome {
        Outcome::Found { signature, details: d } => {
            assert_eq!(signature, &sig);
            assert_eq!(d, &details);
        }
        _ => panic!("expected a found transaction"),
    }
    let report = render(&outcome);
    assert_eq!(
        out(&report),
        vec![
            format!("Latest Transaction Signature: \"{}\"", sig),
            format!("Transaction Details: {}", details),
        ]
    );
    assert!(report.stderr.is_empty());
    assert_eq!(report.exit_code, 0);
}

#[test]
fn short_signature_text_is_a_parse_error() {
    let (mut session, _) = start_ok();
    let outcome = finished(session.step(Event::SignaturesListed(vec!["ABC123".to_string()])));
    match &outcome {
        Outcome::Failed(QueryError::SignatureParseError { signature, reason }) => {
            assert_eq!(signature, "ABC123");
            assert_eq!(*reason, DecodeFailure::WrongSize);
        }
        _ => panic!("expected a signature parse error"),
    }
    let report = render(&outcome);
    assert!(report.stdout.is_empty());
    assert_eq!(err(&report), vec!["Error: Failed to parse signature 'ABC123': wrong size".to_string()]);
    assert_eq!(report.exit_code, 1);
}

#[test]
fn latest_of_three_signatures_is_the_last() {
    let (mut session, _) = start_ok();
    let listed = vec![zero_signature(), signature_ending_in('2'), signature_ending_in('3')];
    match session.step(Event::SignaturesListed(listed.clone())) {
        Action::FetchTransaction { signature, .. } => {
            assert_eq!(signature.text(), &listed[2]);
            let mut expected = vec![0u8; 64];
            expected[63] = 2;
            assert_eq!(signature.bytes(), &expected);
        }
        _ => panic!("expected a transaction query"),
    }
    match &session.stage {
        Stage::AwaitingTransaction { signature } => assert_eq!(signature, &listed[2]),
        _ => panic!("expected to wait for the transaction"),
    }
}

#[test]
fn select_latest_picks_the_last_element() {
    assert_eq!(select_latest(&Vec::new()), None);
    assert_eq!(select_latest(&args(&["a"])), Some("a".to_string()));
    assert_eq!(select_latest(&args(&["a", "b", "c"])), Some("c".to_string()));
}

#[test]
fn malformed_address_fails_without_query() {
    let (session, action) =
        Session::start(&args(&["latest_tx", "not-an-address!"]), Ok(ENDPOINT.to_string()));
    assert!(session.is_finished());
    let outcome = finished(action);
    match &outcome {
        Outcome::Failed(QueryError::InvalidAddressError { address, reason }) => {
            assert_eq!(address, "not-an-address!");
            assert_eq!(*reason, DecodeFailure::Invalid);
        }
        _ => panic!("expected an invalid address error"),
    }
    let report = render(&outcome);
    assert!(report.stdout.is_empty());
    assert_eq!(
        err(&report),
        vec!["Error: Invalid wallet address 'not-an-address!': invalid base58 text".to_string()]
    );
    assert_ne!(report.exit_code, 0);
}

#[test]
fn address_of_wrong_length_is_rejected() {
    let short = "1".repeat(31);
    let long = "1".repeat(45);
    for text in [short, long] {
        let (_, action) =
            Session::start(&args(&["latest_tx", &text]), Ok(ENDPOINT.to_string()));
        match finished(action) {
            Outcome::Failed(QueryError::InvalidAddressError { address, reason }) => {
                assert_eq!(address, text);
                assert_eq!(reason, DecodeFailure::WrongSize);
            }
            _ => panic!("expected an invalid address error"),
        }
    }
}

#[test]
fn no_arguments_print_usage() {
    let (session, action) = Session::start(&Vec::new(), Ok(ENDPOINT.to_string()));
    assert!(session.is_finished());
    let report = render(&finished(action));
    assert!(report.stdout.is_empty());
    assert_eq!(err(&report), vec!["Usage: latest_tx <WALLET_ADDRESS>".to_string()]);
    assert_eq!(report.exit_code, 1);
}

#[test]
fn missing_address_prints_usage() {
    let (_, action) = Session::start(&args(&["lookup"]), Ok(ENDPOINT.to_string()));
    let report = render(&finished(action));
    assert_eq!(err(&report), vec!["Usage: lookup <WALLET_ADDRESS>".to_string()]);
    assert_eq!(report.exit_code, 1);
}

#[test]
fn two_addresses_print_usage() {
    let (_, action) = Session::start(
        &args(&["lookup", SYSTEM_ADDRESS, SYSTEM_ADDRESS]),
        Ok(ENDPOINT.to_string()),
    );
    let outcome = finished(action);
    match &outcome {
        Outcome::Failed(QueryError::UsageError { program }) => assert_eq!(program, "lookup"),
        _ => panic!("expected a usage error"),
    }
    let report = render(&outcome);
    assert_eq!(err(&report), vec!["Usage: lookup <WALLET_ADDRESS>".to_string()]);
    assert_eq!(report.exit_code, 1);
}

#[test]
fn missing_endpoint_is_a_configuration_error() {
    let (session, action) = Session::start(
        &args(&["latest_tx", SYSTEM_ADDRESS]),
        Err("environment variable not found".to_string()),
    );
    assert!(session.is_finished());
    let outcome = finished(action);
    match &outcome {
        Outcome::Failed(QueryError::ConfigurationError { cause }) => {
            assert_eq!(cause, "environment variable not found")
        }
        _ => panic!("expected a configuration error"),
    }
    let report = render(&outcome);
    assert_eq!(
        err(&report),
        vec!["Error: Failed to retrieve RPC_URL from environment: environment variable not found"
            .to_string()]
    );
    assert_eq!(report.exit_code, 1);
}

#[test]
fn failed_signature_query_is_a_lookup_error() {
    let (mut session, _) = start_ok();
    let outcome = finished(session.step(Event::LookupFailed("rate limited".to_string())));
    let report = render(&outcome);
    assert!(matches!(outcome, Outcome::Failed(QueryError::LookupError { .. })));
    assert_eq!(
        err(&report),
        vec![format!("Error: Failed to fetch signatures for wallet '{}': rate limited", SYSTEM_ADDRESS)]
    );
    assert_eq!(report.exit_code, 1);
}

#[test]
fn failed_transaction_query_is_a_fetch_error() {
    let (mut session, _) = start_ok();
    let sig = zero_signature();
    session.step(Event::SignaturesListed(vec![sig.clone()]));
    let event = Event::FetchFailed("connection refused".to_string());
    assert!(session.accepts(&event));
    assert!(!session.accepts(&Event::LookupFailed("x".to_string())));
    let outcome = finished(session.step(event));
    match &outcome {
        Outcome::Failed(QueryError::FetchError { signature, cause }) => {
            assert_eq!(signature, &sig);
            assert_eq!(cause, "connection refused");
        }
        _ => panic!("expected a fetch error"),
    }
    let report = render(&outcome);
    assert_eq!(
        err(&report),
        vec![format!(
            "Error: Failed to get transaction details for signature '{}': connection refused",
            sig
        )]
    );
    assert_eq!(report.exit_code, 1);
    assert!(session.is_finished());
    assert!(!session.accepts(&Event::TransactionFetched(String::new())));
}

#[test]
fn error_lines_name_their_input() {
    let e = QueryError::LookupError { address: "A".to_string(), cause: "B".to_string() };
    assert_eq!(text(&error_line(&e)), "Error: Failed to fetch signatures for wallet 'A': B");
    let e = QueryError::UsageError { program: "p".to_string() };
    assert_eq!(text(&error_line(&e)), "Usage: p <WALLET_ADDRESS>");
}

#[test]
fn wallet_address_decodes_to_its_bytes() {
    let a = WalletAddress::parse(&"11111111111111111111111111111112".to_string()).ok().unwrap();
    let mut expected = vec![0u8; 32];
    expected[31] = 1;
    assert_eq!(a.bytes(), &expected);
    assert_eq!(a.text(), "11111111111111111111111111111112");
    assert!(matches!(
        WalletAddress::parse(&"0OIl".to_string()),
        Err(DecodeFailure::Invalid)
    ));
}

#[test]
fn signature_decodes_to_its_bytes() {
    let s = TxSignature::parse(&signature_ending_in('2')).ok().unwrap();
    let mut expected = vec![0u8; 64];
    expected[63] = 1;
    assert_eq!(s.bytes(), &expected);
    assert!(matches!(TxSignature::parse(&"1".repeat(65)), Err(DecodeFailure::WrongSize)));
    assert!(matches!(TxSignature::parse(&"1".repeat(89)), Err(DecodeFailure::WrongSize)));
}

#[test]
fn decode_failures_describe_themselves() {
    assert_eq!(DecodeFailure::WrongSize.describe(), "wrong size");
    assert_eq!(DecodeFailure::Invalid.describe(), "invalid base58 text");
}
