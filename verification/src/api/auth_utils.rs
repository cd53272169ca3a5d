//! Wallet authentication utilities: the nonce, the message to sign, and the
//! check of a signature against a wallet address.

use crate::auth::crypto::{recover_from_bytes, signer_of};
use crate::bindings::{address_parsed, parse_address, random_uuid, uuid_text, uuid_to_text};
use crate::hex::{decode_hex, hex_text_bytes};
use crate::text::{chars_of, join_text, is_hex_digit, same_bytes};
use vstd::prelude::*;

verus! {

/// Why a signature could not be checked against a wallet address.
#[derive(Clone, Debug, PartialEq, Eq)]
pub enum SignatureCheckError {
    /// The signature is not hexadecimal text.
    SignatureEncoding,
    /// The signature does not have 65 bytes.
    SignatureLength,
    /// No key can have made the signature over the message.
    Recovery,
    /// The wallet address is malformed; the text is the parser's account of it.
    Address(String),
}

/// A failed check as mathematical values.
pub enum CheckFailure {
    SignatureEncoding,
    SignatureLength,
    Recovery,
    Address(Seq<char>),
}

impl View for SignatureCheckError {
    type V = CheckFailure;

    open spec fn view(&self) -> CheckFailure {
        match self {
            SignatureCheckError::SignatureEncoding => CheckFailure::SignatureEncoding,
            SignatureCheckError::SignatureLength => CheckFailure::SignatureLength,
            SignatureCheckError::Recovery => CheckFailure::Recovery,
            SignatureCheckError::Address(reason) => CheckFailure::Address(reason@),
        }
    }
}

impl CheckFailure {
    /// The failure in words.
    pub open spec fn text(self) -> Seq<char> {
        match self {
            CheckFailure::SignatureEncoding => "invalid signature encoding"@,
            CheckFailure::SignatureLength => "invalid signature length"@,
            CheckFailure::Recovery => "signature recovery failed"@,
            CheckFailure::Address(reason) => reason,
        }
    }
}

impl SignatureCheckError {
    /// Writes the failure in words.
    pub fn describe(&self) -> (words: String)
        ensures
            words@ == self@.text(),
    {
        match self {
            SignatureCheckError::SignatureEncoding => String::from_str("invalid signature encoding"),
            SignatureCheckError::SignatureLength => String::from_str("invalid signature length"),
            SignatureCheckError::Recovery => String::from_str("signature recovery failed"),
            SignatureCheckError::Address(reason) => reason.clone(),
        }
    }
}

/// The message that a wallet signs for the given nonce.
pub open spec fn sign_message_text(nonce: Seq<char>) -> Seq<char> {
    "Welcome to Vectra DEX!\n\nSign this message to authenticate your wallet.\n\nNonce: "@ + nonce
        + "\n\nThis request will not trigger a blockchain transaction or cost any gas fees."@
}

/// Whether a text has the form of a wallet address: `0x` and forty
/// hexadecimal digits.
pub open spec fn is_wallet_address_text(address: Seq<char>) -> bool {
    &&& address.len() == 42
    &&& address[0] == '0'
    &&& address[1] == 'x'
    &&& forall|i: int| 2 <= i < 42 ==> is_hex_digit(#[trigger] address[i])
}

/// Whether the signature text is one that the wallet with the address
/// `expected_address` made over `message`, or why that cannot be said. The
/// signature is read first, then the signer is recovered, then the address is
/// read; the first of these to fail is the error.
pub open spec fn signature_check(
    message: Seq<char>,
    signature: Seq<char>,
    expected_address: Seq<char>,
) -> Result<bool, CheckFailure> {
    match hex_text_bytes(signature) {
        Err(_) => Err(CheckFailure::SignatureEncoding),
        Ok(bytes) => if bytes.len() != 65 {
            Err(CheckFailure::SignatureLength)
        } else {
            match signer_of(message, bytes) {
                None => Err(CheckFailure::Recovery),
                Some(signer) => match address_parsed(expected_address) {
                    Err(reason) => Err(CheckFailure::Address(reason)),
                    Ok(expected) => Ok(signer == expected),
                },
            }
        },
    }
}

/// Generates a random nonce for a wallet signature: the text of a random
/// identifier.
pub fn generate_nonce() -> (nonce: String)
    ensures
        nonce@.len() == 36,
        exists|id: u128| nonce@ == #[trigger] uuid_text(id),
{
    let id: u128 = random_uuid();
    uuid_to_text(id)
}

/// Creates the message that the wallet should sign, with the nonce in it.
pub fn create_sign_message(nonce: &str) -> (message: String)
    ensures
        message@ == sign_message_text(nonce@),
{
    let mut message = join_text(
        "Welcome to Vectra DEX!\n\nSign this message to authenticate your wallet.\n\nNonce: ",
        nonce,
    );
    message.append(
        "\n\nThis request will not trigger a blockchain transaction or cost any gas fees.",
    );
    message
}

/// Verifies that the signature was created by the claimed wallet address.
pub fn verify_wallet_signature(message: &str, signature: &str, expected_address: &str) -> (checked:
    Result<bool, SignatureCheckError>)
    ensures
        match checked {
            Ok(same) => signature_check(message@, signature@, expected_address@) == Ok::<
                bool,
                CheckFailure,
            >(same),
            Err(e) => signature_check(message@, signature@, expected_address@) == Err::<
                bool,
                CheckFailure,
            >(e@),
        },
{
    let bytes = match decode_hex(signature) {
        Ok(bytes) => bytes,
        Err(_) => {
            return Err(SignatureCheckError::SignatureEncoding);
        },
    };
    if bytes.len() != 65 {
        return Err(SignatureCheckError::SignatureLength);
    }
    let signer = match recover_from_bytes(message, bytes.as_slice()) {
        Some(signer) => signer,
        None => {
            return Err(SignatureCheckError::Recovery);
        },
    };
    match parse_address(expected_address) {
        Err(reason) => Err(SignatureCheckError::Address(reason)),
        Ok(expected) => Ok(same_bytes(signer.as_slice(), expected.as_slice())),
    }
}

/// Validates that a wallet address has the correct format: it starts with
/// `0x`, is 42 characters long, and has hexadecimal digits after the prefix.
pub fn is_valid_wallet_address(address: &str) -> (valid: bool)
    ensures
        valid == is_wallet_address_text(address@),
{
    let chars = chars_of(address);
    if chars.len() != 42 || chars[0] != '0' || chars[1] != 'x' {
        return false;
    }
    let mut index: usize = 2;
    while index < 42
        invariant
            2 <= index <= 42,
            chars@.len() == 42,
            chars@ == address@,
            forall|i: int| 2 <= i < index ==> is_hex_digit(#[trigger] chars@[i]),
        decreases 42 - index,
    {
        if crate::hex::hex_value(chars[index]).is_none() {
            assert(!is_hex_digit(address@[index as int]));
            return false;
        }
        index += 1;
    }
    true
}

} // verus!
