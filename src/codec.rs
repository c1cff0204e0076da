//! Wallet addresses and transaction signatures in their base58 text form.
use std::str::FromStr;
use vstd::prelude::*;

verus! {

/// Number of bytes in a decoded wallet address.
pub const ADDRESS_BYTES: usize = 32;

/// Number of bytes in a decoded transaction signature.
pub const SIGNATURE_BYTES: usize = 64;

/// Why a base58 text did not decode to a value of the expected width.
#[derive(Clone, Copy, Debug, PartialEq, Eq, Structural)]
pub enum DecodeFailure {
    /// The text decodes, but not to the expected number of bytes.
    WrongSize,
    /// The text holds a character outside the base58 alphabet.
    Invalid,
}

impl DecodeFailure {
    /// A short human-readable reason.
    pub fn describe(&self) -> (r: String)
        ensures
            r@ == self.describe_spec(),
    {
        match self {
            DecodeFailure::WrongSize => "wrong size".to_owned(),
            DecodeFailure::Invalid => "invalid base58 text".to_owned(),
        }
    }

    pub open spec fn describe_spec(&self) -> Seq<char> {
        match self {
            DecodeFailure::WrongSize => "wrong size"@,
            DecodeFailure::Invalid => "invalid base58 text"@,
        }
    }
}

/// What `Pubkey::from_str` makes of a text: the 32 address bytes, or the reason it refused.
pub uninterp spec fn pubkey_decode(s: Seq<char>) -> Result<Seq<u8>, DecodeFailure>;

/// What `Signature::from_str` makes of a text: the 64 signature bytes, or the reason it refused.
pub uninterp spec fn signature_decode(s: Seq<char>) -> Result<Seq<u8>, DecodeFailure>;

/// Relies on `solana_sdk::pubkey::Pubkey::from_str` (solana-address): it decodes base58
/// text into exactly 32 bytes, and refuses a text of more than 44 bytes as the wrong size.
#[verifier::external_body]
fn decode_pubkey(s: &str) -> (r: Result<Vec<u8>, DecodeFailure>)
    ensures
        r is Ok ==> (pubkey_decode(s@) is Ok && pubkey_decode(s@)->Ok_0 == r->Ok_0@),
        r is Ok ==> r->Ok_0@.len() == ADDRESS_BYTES,
        r is Err ==> (pubkey_decode(s@) is Err && pubkey_decode(s@)->Err_0 == r->Err_0),
        s@.len() > 44 ==> (r is Err && r->Err_0 == DecodeFailure::WrongSize),
{
    match solana_sdk::pubkey::Pubkey::from_str(s) {
        Ok(p) => Ok(p.to_bytes().to_vec()),
        Err(solana_sdk::pubkey::ParsePubkeyError::WrongSize) => Err(DecodeFailure::WrongSize),
        Err(solana_sdk::pubkey::ParsePubkeyError::Invalid) => Err(DecodeFailure::Invalid),
    }
}

/// Relies on `solana_sdk::signature::Signature::from_str` (solana-signature): it decodes
/// base58 text into exactly 64 bytes, and refuses a text of more than 88 bytes as the wrong size.
#[verifier::external_body]
fn decode_signature(s: &str) -> (r: Result<Vec<u8>, DecodeFailure>)
    ensures
        r is Ok ==> (signature_decode(s@) is Ok && signature_decode(s@)->Ok_0 == r->Ok_0@),
        r is Ok ==> r->Ok_0@.len() == SIGNATURE_BYTES,
        r is Err ==> (signature_decode(s@) is Err && signature_decode(s@)->Err_0 == r->Err_0),
        s@.len() > 88 ==> (r is Err && r->Err_0 == DecodeFailure::WrongSize),
{
    match solana_sdk::signature::Signature::from_str(s) {
        Ok(sig) => Ok(sig.as_array().to_vec()),
        Err(solana_sdk::signature::ParseSignatureError::WrongSize) => Err(DecodeFailure::WrongSize),
        Err(solana_sdk::signature::ParseSignatureError::Invalid) => Err(DecodeFailure::Invalid),
    }
}

/// A wallet address that decoded: its text as given, and its 32 bytes.
pub struct WalletAddress {
    text: String,
    bytes: Vec<u8>,
}

impl WalletAddress {
    pub closed spec fn text_spec(&self) -> Seq<char> {
        self.text@
    }

    pub closed spec fn bytes_spec(&self) -> Seq<u8> {
        self.bytes@
    }

    /// The bytes are what the text decodes to.
    pub open spec fn wf(&self) -> bool {
        &&& pubkey_decode(self.text_spec()) == Ok::<Seq<u8>, DecodeFailure>(self.bytes_spec())
        &&& self.bytes_spec().len() == ADDRESS_BYTES
    }

    /// Decodes `text`; on failure, returns the reason.
    pub fn parse(text: &String) -> (r: Result<WalletAddress, DecodeFailure>)
        ensures
            match r {
                Ok(a) => a.wf() && a.text_spec() == text@,
                Err(e) => (pubkey_decode(text@) is Err && pubkey_decode(text@)->Err_0 == e),
            },
            pubkey_decode(text@) is Ok <==> r is Ok,
            text@.len() > 44 ==> (r is Err && r->Err_0 == DecodeFailure::WrongSize),
    {
        match decode_pubkey(text.as_str()) {
            Ok(bytes) => Ok(WalletAddress { text: text.clone(), bytes }),
            Err(e) => Err(e),
        }
    }

    /// The address as it was written.
    pub fn text(&self) -> (r: &String)
        ensures
            r@ == self.text_spec(),
    {
        &self.text
    }

    /// The decoded 32 bytes.
    pub fn bytes(&self) -> (r: &Vec<u8>)
        ensures
            r@ == self.bytes_spec(),
    {
        &self.bytes
    }
}

/// A transaction signature that decoded: its text as given, and its 64 bytes.
pub struct TxSignature {
    text: String,
    bytes: Vec<u8>,
}

impl TxSignature {
    pub closed spec fn text_spec(&self) -> Seq<char> {
        self.text@
    }

    pub closed spec fn bytes_spec(&self) -> Seq<u8> {
        self.bytes@
    }

    /// The bytes are what the text decodes to.
    pub open spec fn wf(&self) -> bool {
        &&& signature_decode(self.text_spec()) == Ok::<Seq<u8>, DecodeFailure>(self.bytes_spec())
        &&& self.bytes_spec().len() == SIGNATURE_BYTES
    }

    /// Decodes `text`; on failure, returns the reason.
    pub fn parse(text: &String) -> (r: Result<TxSignature, DecodeFailure>)
        ensures
            match r {
                Ok(s) => s.wf() && s.text_spec() == text@,
                Err(e) => (signature_decode(text@) is Err && signature_decode(text@)->Err_0 == e),
            },
            signature_decode(text@) is Ok <==> r is Ok,
            text@.len() > 88 ==> (r is Err && r->Err_0 == DecodeFailure::WrongSize),
    {
        match decode_signature(text.as_str()) {
            Ok(bytes) => Ok(TxSignature { text: text.clone(), bytes }),
            Err(e) => Err(e),
        }
    }

    /// The signature as it was written.
    pub fn text(&self) -> (r: &String)
        ensures
            r@ == self.text_spec(),
    {
        &self.text
    }

    /// The decoded 64 bytes.
    pub fn bytes(&self) -> (r: &Vec<u8>)
        ensures
            r@ == self.bytes_spec(),
    {
        &self.bytes
    }
}

} // verus!
