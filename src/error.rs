//! The ways in which one lookup can fail, each with the input that caused it.
use crate::codec::DecodeFailure;
use vstd::prelude::*;

verus! {

/// Every failure ends the lookup; each variant keeps what is needed to act on it.
pub enum QueryError {
    /// Not exactly one argument was given; `program` is the name the program was run under.
    UsageError { program: String },
    /// The RPC endpoint could not be read from the configuration.
    ConfigurationError { cause: String },
    /// The wallet address does not decode.
    InvalidAddressError { address: String, reason: DecodeFailure },
    /// The remote signature query failed.
    LookupError { address: String, cause: String },
    /// A signature returned by the remote service does not decode.
    SignatureParseError { signature: String, reason: DecodeFailure },
    /// The remote transaction query failed.
    FetchError { signature: String, cause: String },
}

} // verus!
