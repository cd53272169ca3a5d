//! Signature recovery: from a signed text and its signature to the address
//! of the wallet that signed.

use crate::bindings::{eip191_digest, eip191_hash, recover_signer, recovered_signer};
use crate::hex::{decode_signature_text, encode_hex, hex_encoded, signature_text_bytes, HexError};
use crate::text::join_text;
use vstd::prelude::*;

verus! {

/// The number of bytes of a signature: r and s of 32 bytes each, then v.
pub const SIGNATURE_LENGTH: usize = 65;

/// Why no signer was found for a message and a signature.
#[derive(Clone, Copy, Debug, PartialEq, Eq, Structural)]
pub enum RecoveryError {
    /// The signature is not hexadecimal text: a fault of the request's form.
    Encoding(HexError),
    /// The signature decodes to the given number of bytes, not to 65: a
    /// fault of the request's form.
    Length(usize),
    /// The signature has the right form and no key can have made it over this
    /// message.
    NoSigner,
}

impl RecoveryError {
    /// Whether the error is one of form (a bad request) and not a refused
    /// signature.
    pub open spec fn is_format_error(self) -> bool {
        self is Encoding || self is Length
    }
}

/// The signer of `message` under the signature bytes `signature`, where the
/// signature has 65 bytes and a signer is found.
pub open spec fn signer_of(message: Seq<char>, signature: Seq<u8>) -> Option<Seq<u8>> {
    if signature.len() == 65 {
        recovered_signer(eip191_hash(message), signature)
    } else {
        None
    }
}

/// What `recover_address` finds for a message and a signature text.
pub open spec fn recovery_outcome(message: Seq<char>, signature: Seq<char>) -> Result<
    Seq<u8>,
    RecoveryError,
> {
    match signature_text_bytes(signature) {
        Err(e) => Err(RecoveryError::Encoding(e)),
        Ok(bytes) => if bytes.len() != 65 {
            Err(RecoveryError::Length(bytes.len() as usize))
        } else {
            match signer_of(message, bytes) {
                Some(address) => Ok(address),
                None => Err(RecoveryError::NoSigner),
            }
        },
    }
}

/// The text of an address: `0x` and forty lower-case hexadecimal digits.
pub open spec fn address_text(address: Seq<u8>) -> Seq<char> {
    "0x"@ + hex_encoded(address)
}

/// Recovers the address that signed the bytes `signature` over `message`.
pub fn recover_from_bytes(message: &str, signature: &[u8]) -> (signer: Option<[u8; 20]>)
    ensures
        match signer {
            Some(a) => signer_of(message@, signature@) == Some(a@),
            None => signer_of(message@, signature@) is None,
        },
{
    if signature.len() != SIGNATURE_LENGTH {
        return None;
    }
    let digest = eip191_digest(message);
    recover_signer(&digest, signature)
}

/// Recovers the address that signed `message`: the signature text is decoded,
/// the message is hashed behind the prefix of signed messages, and the public
/// key is recovered from the signature over that hash. A signature that is not
/// 65 bytes of hexadecimal text is an error of form.
pub fn recover_address(message: &str, signature: &str) -> (signer: Result<[u8; 20], RecoveryError>)
    ensures
        match signer {
            Ok(a) => recovery_outcome(message@, signature@) == Ok::<Seq<u8>, RecoveryError>(a@),
            Err(e) => recovery_outcome(message@, signature@) == Err::<Seq<u8>, RecoveryError>(e),
        },
{
    match decode_signature_text(signature) {
        Err(e) => Err(RecoveryError::Encoding(e)),
        Ok(bytes) => {
            if bytes.len() != SIGNATURE_LENGTH {
                return Err(RecoveryError::Length(bytes.len()));
            }
            match recover_from_bytes(message, bytes.as_slice()) {
                Some(address) => Ok(address),
                None => Err(RecoveryError::NoSigner),
            }
        },
    }
}

/// Writes an address as `0x` and forty lower-case hexadecimal digits.
pub fn format_address(address: &[u8; 20]) -> (text: String)
    ensures
        text@ == address_text(address@),
{
    let digits = encode_hex(address.as_slice());
    join_text("0x", digits.as_str())
}

/// Recovers the wallet address that signed the given message. Returns the
/// address as text, or `None` if the signature is malformed or no signer is
/// found.
pub fn recover_wallet_address(message: &str, signature: &str) -> (address: Option<String>)
    ensures
        match address {
            Some(a) => recovery_outcome(message@, signature@) is Ok && a@ == address_text(
                recovery_outcome(message@, signature@)->Ok_0,
            ),
            None => recovery_outcome(message@, signature@) is Err,
        },
{
    match recover_address(message, signature) {
        Ok(address) => Some(format_address(&address)),
        Err(_) => None,
    }
}

/// Whether a signer is found or not is decided only for a signature of 65
/// bytes of hexadecimal text: any other is an error of form, and every error
/// of form is such a signature.
pub proof fn lemma_format_errors_precede_recovery(message: Seq<char>, signature: Seq<char>)
    ensures
        (recovery_outcome(message, signature) is Err && recovery_outcome(
            message,
            signature,
        )->Err_0.is_format_error()) == (signature_text_bytes(signature) is Err
            || signature_text_bytes(signature)->Ok_0.len() != 65),
{
}

} // verus!
