//! Looks up the most recent transaction of a wallet on a Solana-style ledger.
//!
//! The library holds the whole decision flow of one lookup: argument and
//! configuration checks, address and signature decoding, the choice of the
//! latest signature, and the text that is finally printed. The two remote
//! queries are performed by the caller, which feeds their results back into a
//! [`session::Session`].
pub mod codec;
pub mod laws;
pub mod error;
pub mod report;
pub mod session;



