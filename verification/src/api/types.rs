//! Data structures for API requests and responses, with the rules that the
//! requests have to meet.

use crate::api::auth_utils::{is_valid_wallet_address, is_wallet_address_text};
use crate::api::errors::{ApiError, ApiFailure};
use crate::text::chars_of;
use vstd::prelude::*;

verus! {

/// Request to initiate the wallet connection process.
#[derive(Clone, Debug, PartialEq, Eq)]
pub struct WalletConnectRequest {
    /// User's wallet address (must be a valid Ethereum address).
    pub wallet_address: String,
}

/// Response containing the nonce for the wallet signature.
#[derive(Clone, Debug, PartialEq, Eq)]
pub struct NonceResponse {
    /// Random nonce for wallet signature.
    pub nonce: String,
    /// Message to be signed by the wallet.
    pub message: String,
}

/// Request to complete wallet authentication.
#[derive(Clone, Debug, PartialEq, Eq)]
pub struct WalletLoginRequest {
    /// User's wallet address.
    pub wallet_address: String,
    /// Signature created by signing the nonce message.
    pub signature: String,
    /// The nonce that was signed.
    pub nonce: String,
}

/// Successful authentication response.
#[derive(Clone, Debug, PartialEq, Eq)]
pub struct AuthResponse {
    /// Token for authenticated requests.
    pub token: String,
    /// Unique user identifier.
    pub user_id: String,
    /// User's wallet address.
    pub wallet_address: String,
    /// User's current level.
    pub level: u32,
    /// Whether this is a new user registration.
    pub is_new_user: bool,
}

/// Standardized API response wrapper.
#[derive(Clone, Debug, PartialEq, Eq)]
pub struct ApiResponse<T> {
    /// Whether the request was successful.
    pub success: bool,
    /// Response data (if successful).
    pub data: Option<T>,
    /// Success or informational message.
    pub message: Option<String>,
}

/// A request to log in as mathematical values.
pub struct LoginFields {
    pub wallet_address: Seq<char>,
    pub signature: Seq<char>,
    pub nonce: Seq<char>,
}

impl View for WalletLoginRequest {
    type V = LoginFields;

    open spec fn view(&self) -> LoginFields {
        LoginFields {
            wallet_address: self.wallet_address@,
            signature: self.signature@,
            nonce: self.nonce@,
        }
    }
}

/// The list of faults `so_far` with `message` added where `failed` holds.
/// The faults of a list are separated by a comma and a space.
pub open spec fn with_fault(so_far: Seq<char>, failed: bool, message: Seq<char>) -> Seq<char> {
    if !failed {
        so_far
    } else if so_far.len() == 0 {
        message
    } else {
        so_far + ", "@ + message
    }
}

/// The faults of a wallet address: it must have 42 characters, and it must
/// be `0x` and forty hexadecimal digits.
pub open spec fn wallet_address_faults(address: Seq<char>) -> Seq<char> {
    with_fault(
        with_fault(
            Seq::<char>::empty(),
            address.len() != 42,
            "wallet_address: Wallet address must be 42 characters"@,
        ),
        !is_wallet_address_text(address),
        "wallet_address: Invalid wallet address format"@,
    )
}

/// The faults of a request to log in: those of its wallet address, then a
/// signature that does not have 130 to 132 characters, then an empty nonce.
pub open spec fn login_faults(request: LoginFields) -> Seq<char> {
    with_fault(
        with_fault(
            wallet_address_faults(request.wallet_address),
            !(130 <= request.signature.len() <= 132),
            "signature: Invalid signature length"@,
        ),
        request.nonce.len() < 1,
        "nonce: Nonce cannot be empty"@,
    )
}

/// Whether a request to log in meets every rule.
pub open spec fn is_valid_login(request: LoginFields) -> bool {
    &&& is_wallet_address_text(request.wallet_address)
    &&& 130 <= request.signature.len() <= 132
    &&& request.nonce.len() >= 1
}

/// What validation gives for a list of faults: success for the empty list,
/// and otherwise a validation error with the list as its message.
pub open spec fn validation_outcome(faults: Seq<char>) -> Result<(), ApiFailure> {
    if faults.len() == 0 {
        Ok(())
    } else {
        Err(ApiFailure::Validation { message: faults })
    }
}

/// Whether a validation result is the expected one.
pub open spec fn validation_matches(result: Result<(), ApiError>, expected: Result<(), ApiFailure>) -> bool {
    match result {
        Ok(_) => expected is Ok,
        Err(error) => expected == Err::<(), ApiFailure>(error@),
    }
}

/// Adds a fault to a list where a rule is broken.
fn add_fault(so_far: String, failed: bool, message: &str) -> (faults: String)
    ensures
        faults@ == with_fault(so_far@, failed, message@),
{
    if !failed {
        so_far
    } else if so_far.as_str().is_empty() {
        String::from_str(message)
    } else {
        let mut faults = so_far;
        faults.append(", ");
        faults.append(message);
        faults
    }
}

/// Lists the faults of a wallet address.
fn check_wallet_address(address: &str) -> (faults: String)
    ensures
        faults@ == wallet_address_faults(address@),
        faults@.len() == 0 <==> is_wallet_address_text(address@),
{
    let length: usize = chars_of(address).len();
    let faults = add_fault(
        String::new(),
        length != 42,
        "wallet_address: Wallet address must be 42 characters",
    );
    let faults = add_fault(
        faults,
        !is_valid_wallet_address(address),
        "wallet_address: Invalid wallet address format",
    );
    proof {
        reveal_strlit("wallet_address: Wallet address must be 42 characters");
        reveal_strlit("wallet_address: Invalid wallet address format");
        reveal_strlit(", ");
    }
    faults
}

/// Turns a list of faults into the result of a validation.
fn faults_to_result(faults: String) -> (result: Result<(), ApiError>)
    ensures
        validation_matches(result, validation_outcome(faults@)),
{
    if faults.as_str().is_empty() {
        Ok(())
    } else {
        Err(ApiError::Validation { message: faults })
    }
}

impl WalletConnectRequest {
    /// Validates the request: its wallet address has to be well formed.
    pub fn validate(&self) -> (result: Result<(), ApiError>)
        ensures
            validation_matches(
                result,
                validation_outcome(wallet_address_faults(self.wallet_address@)),
            ),
            result is Ok <==> is_wallet_address_text(self.wallet_address@),
    {
        faults_to_result(check_wallet_address(self.wallet_address.as_str()))
    }
}

impl WalletLoginRequest {
    /// Validates the request: its wallet address has to be well formed, its
    /// signature of 130 to 132 characters, and its nonce not empty.
    pub fn validate(&self) -> (result: Result<(), ApiError>)
        ensures
            validation_matches(result, validation_outcome(login_faults(self@))),
            result is Ok <==> is_valid_login(self@),
    {
        let faults = check_wallet_address(self.wallet_address.as_str());
        let signature_length: usize = chars_of(self.signature.as_str()).len();
        let faults = add_fault(
            faults,
            signature_length < 130 || signature_length > 132,
            "signature: Invalid signature length",
        );
        let faults = add_fault(
            faults,
            self.nonce.as_str().is_empty(),
            "nonce: Nonce cannot be empty",
        );
        proof {
            reveal_strlit("signature: Invalid signature length");
            reveal_strlit("nonce: Nonce cannot be empty");
            reveal_strlit(", ");
        }
        faults_to_result(faults)
    }
}

} // verus!
