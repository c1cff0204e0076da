//! What one lookup finally shows: lines for standard output or standard error,
//! and the exit status.
use crate::error::QueryError;
use vstd::prelude::*;

verus! {

/// The text printed when the wallet has no transactions.
pub const NO_TRANSACTIONS: &'static str = "No transactions found for the wallet.";

/// How one lookup ended.
pub enum Outcome {
    /// The remote service returned no signature for the wallet.
    NoTransactions,
    /// The latest signature, and the transaction it names in printable form.
    Found { signature: String, details: String },
    /// The lookup stopped on an error.
    Failed(QueryError),
}

/// One printed line, kept as the pieces it is made of.
pub struct Line {
    pub parts: Vec<String>,
}

/// The characters of `parts`, one after another.
pub open spec fn joined(parts: Seq<String>) -> Seq<char>
    decreases parts.len(),
{
    if parts.len() == 0 {
        Seq::empty()
    } else {
        joined(parts.drop_last()) + parts.last()@
    }
}

impl Line {
    /// The text of the line.
    pub open spec fn text(&self) -> Seq<char> {
        joined(self.parts@)
    }
}

/// The texts of `lines`, in order.
pub open spec fn texts(lines: Seq<Line>) -> Seq<Seq<char>> {
    lines.map_values(|l: Line| l.text())
}

/// What a run prints and the status it exits with.
pub struct Report {
    pub stdout: Vec<Line>,
    pub stderr: Vec<Line>,
    pub exit_code: i32,
}

impl Report {
    /// The run printed `lines` to standard output, nothing to standard error, and exits with 0.
    pub open spec fn succeeds_with(&self, lines: Seq<Seq<char>>) -> bool {
        &&& texts(self.stdout@) == lines
        &&& self.stderr@.len() == 0
        &&& self.exit_code == 0
    }

    /// The run printed one line, `message`, to standard error, nothing to standard output,
    /// and exits with 1.
    pub open spec fn fails_with(&self, message: Seq<char>) -> bool {
        &&& self.stdout@.len() == 0
        &&& texts(self.stderr@) == seq![message]
        &&& self.exit_code == 1
    }

    /// The report is the one that `outcome` is shown as.
    pub open spec fn shows(&self, outcome: Outcome) -> bool {
        match outcome {
            Outcome::NoTransactions => self.succeeds_with(seq![NO_TRANSACTIONS@]),
            Outcome::Found { signature, details } => self.succeeds_with(
                seq![signature_line(signature@), details_line(details@)],
            ),
            Outcome::Failed(e) => self.fails_with(error_message(e)),
        }
    }
}

/// The first line printed for a found transaction.
pub open spec fn signature_line(signature: Seq<char>) -> Seq<char> {
    "Latest Transaction Signature: \""@ + signature + "\""@
}

/// The second line printed for a found transaction.
pub open spec fn details_line(details: Seq<char>) -> Seq<char> {
    "Transaction Details: "@ + details
}

/// The usage line, for a program run as `program`.
pub open spec fn usage_message(program: Seq<char>) -> Seq<char> {
    "Usage: "@ + program + " <WALLET_ADDRESS>"@
}

/// The single line printed for `e`.
pub open spec fn error_message(e: QueryError) -> Seq<char> {
    match e {
        QueryError::UsageError { program } => usage_message(program@),
        QueryError::ConfigurationError { cause } => "Error: Failed to retrieve RPC_URL from environment: "@
            + cause@,
        QueryError::InvalidAddressError { address, reason } => "Error: Invalid wallet address '"@
            + address@ + "': "@ + reason.describe_spec(),
        QueryError::LookupError { address, cause } => "Error: Failed to fetch signatures for wallet '"@
            + address@ + "': "@ + cause@,
        QueryError::SignatureParseError { signature, reason } => "Error: Failed to parse signature '"@
            + signature@ + "': "@ + reason.describe_spec(),
        QueryError::FetchError { signature, cause } =>
            "Error: Failed to get transaction details for signature '"@ + signature@ + "': "@
            + cause@,
    }
}

/// A line made of a fixed head and a text.
fn line2(head: &str, a: &String) -> (r: Line)
    ensures
        r.text() == head@ + a@,
{
    let parts = vec![head.to_owned(), a.clone()];
    proof {
        reveal_with_fuel(joined, 3);
        assert(parts@.drop_last() =~= seq![parts@[0]]);
        assert(seq![parts@[0]].drop_last() =~= Seq::<String>::empty());
    }
    let r = Line { parts };
    assert(r.text() =~= head@ + a@);
    r
}

/// A line made of a fixed head, a text and a fixed tail.
fn line3(head: &str, a: &String, tail: &str) -> (r: Line)
    ensures
        r.text() == head@ + a@ + tail@,
{
    let parts = vec![head.to_owned(), a.clone(), tail.to_owned()];
    proof {
        reveal_with_fuel(joined, 4);
        let s = parts@;
        assert(s.drop_last() =~= seq![s[0], s[1]]);
        assert(seq![s[0], s[1]].drop_last() =~= seq![s[0]]);
        assert(seq![s[0]].drop_last() =~= Seq::<String>::empty());
    }
    let r = Line { parts };
    assert(r.text() =~= head@ + a@ + tail@);
    r
}

/// A line made of a fixed head, a text, a fixed middle and a second text.
fn line4(head: &str, a: &String, mid: &str, b: &String) -> (r: Line)
    ensures
        r.text() == head@ + a@ + mid@ + b@,
{
    let parts = vec![head.to_owned(), a.clone(), mid.to_owned(), b.clone()];
    proof {
        reveal_with_fuel(joined, 5);
        let s = parts@;
        assert(s.drop_last() =~= seq![s[0], s[1], s[2]]);
        assert(seq![s[0], s[1], s[2]].drop_last() =~= seq![s[0], s[1]]);
        assert(seq![s[0], s[1]].drop_last() =~= seq![s[0]]);
        assert(seq![s[0]].drop_last() =~= Seq::<String>::empty());
    }
    let r = Line { parts };
    assert(r.text() =~= head@ + a@ + mid@ + b@);
    r
}

/// The single line printed for `e`.
pub fn error_line(e: &QueryError) -> (r: Line)
    ensures
        r.text() == error_message(*e),
{
    match e {
        QueryError::UsageError { program } => {
            line3("Usage: ", program, " <WALLET_ADDRESS>")
        },
        QueryError::ConfigurationError { cause } => {
            line2("Error: Failed to retrieve RPC_URL from environment: ", cause)
        },
        QueryError::InvalidAddressError { address, reason } => {
            line4("Error: Invalid wallet address '", address, "': ", &reason.describe())
        },
        QueryError::LookupError { address, cause } => {
            line4("Error: Failed to fetch signatures for wallet '", address, "': ", cause)
        },
        QueryError::SignatureParseError { signature, reason } => {
            line4("Error: Failed to parse signature '", signature, "': ", &reason.describe())
        },
        QueryError::FetchError { signature, cause } => {
            line4(
                "Error: Failed to get transaction details for signature '",
                signature,
                "': ",
                cause,
            )
        },
    }
}

/// Turns how a lookup ended into what is printed and the exit status.
pub fn render(outcome: &Outcome) -> (r: Report)
    ensures
        r.shows(*outcome),
{
    match outcome {
        Outcome::NoTransactions => {
            let empty = String::new();
            let line = line2(NO_TRANSACTIONS, &empty);
            assert(line.text() =~= NO_TRANSACTIONS@);
            let r = Report { stdout: vec![line], stderr: Vec::new(), exit_code: 0 };
            assert(texts(r.stdout@) =~= seq![NO_TRANSACTIONS@]);
            r
        },
        Outcome::Found { signature, details } => {
            let first = line3("Latest Transaction Signature: \"", signature, "\"");
            let second = line2("Transaction Details: ", details);
            let r = Report { stdout: vec![first, second], stderr: Vec::new(), exit_code: 0 };
            assert(texts(r.stdout@) =~= seq![signature_line(signature@), details_line(details@)]);
            r
        },
        Outcome::Failed(e) => {
            let line = error_line(e);
            let r = Report { stdout: Vec::new(), stderr: vec![line], exit_code: 1 };
            assert(texts(r.stderr@) =~= seq![error_message(*e)]);
            r
        },
    }
}

} // verus!
