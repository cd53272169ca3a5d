//! The random part of a challenge.

use crate::bindings::{is_alphanumeric, random_alphanumeric};
use vstd::prelude::*;

verus! {

/// The number of characters of a nonce.
pub const NONCE_LENGTH: usize = 32;

/// Whether `nonce` has the form of a nonce of this library: 32 ASCII letters
/// and digits.
pub open spec fn is_nonce(nonce: Seq<char>) -> bool {
    &&& nonce.len() == 32
    &&& forall|i: int| 0 <= i < nonce.len() ==> is_alphanumeric(#[trigger] nonce[i])
}

/// Generates a random nonce for use when logging in with a wallet.
pub fn generate_nonce() -> (nonce: String)
    ensures
        is_nonce(nonce@),
{
    random_alphanumeric(NONCE_LENGTH)
}

} // verus!
