//! The requests and responses of the sign-in endpoints.

use vstd::prelude::*;

verus! {

/// Represents a request for a sign-in challenge.
#[derive(Clone, Debug, PartialEq, Eq)]
pub struct NonceRequest {
    /// The wallet address of the user requesting a nonce.
    pub wallet_address: String,
    /// The domain requesting sign-in, e.g. "vectra.app".
    pub domain: String,
    /// The URI of the app, e.g. "https://vectra.app".
    pub uri: String,
    /// The chain that the user is on, e.g. 1 for Ethereum mainnet.
    pub chain_id: u64,
}

/// Represents the response to a request for a challenge.
#[derive(Clone, Debug, PartialEq, Eq)]
pub struct NonceResponse {
    /// The message for the wallet to sign, with the nonce in it.
    pub message: String,
}

/// Represents a request to verify a signed challenge.
#[derive(Clone, Debug, PartialEq, Eq)]
pub struct VerifyRequest {
    /// The wallet address that claims to have signed.
    pub wallet_address: String,
    /// The signed message, as the text that was signed.
    pub message: String,
    /// The signature: 65 bytes as hexadecimal digits behind `0x`.
    pub signature: String,
}

/// Sent to the client after a login or a refresh.
#[derive(Clone, Debug, PartialEq, Eq)]
pub struct AuthResponse {
    /// Short-lived access token.
    pub access_token: String,
    /// Long-lived refresh token.
    pub refresh_token: String,
}

/// Sent by the client to ask for a new pair of tokens.
#[derive(Clone, Debug, PartialEq, Eq)]
pub struct RefreshRequest {
    /// The user's identifier, as the 128 bits of its UUID.
    pub user_id: u128,
    /// The raw refresh token.
    pub refresh_token: String,
}

/// Sent to the client with the new pair of tokens.
#[derive(Clone, Debug, PartialEq, Eq)]
pub struct RefreshResponse {
    /// New short-lived access token.
    pub access_token: String,
    /// New refresh token.
    pub refresh_token: String,
}

/// A request for a challenge as mathematical values.
pub struct NonceFields {
    pub wallet_address: Seq<char>,
    pub domain: Seq<char>,
    pub uri: Seq<char>,
    pub chain_id: u64,
}

/// A request to verify as mathematical values.
pub struct VerifyFields {
    pub wallet_address: Seq<char>,
    pub message: Seq<char>,
    pub signature: Seq<char>,
}

/// A pair of tokens as mathematical values.
pub struct TokenPair {
    pub access_token: Seq<char>,
    pub refresh_token: Seq<char>,
}

/// A request to refresh as mathematical values.
pub struct RefreshFields {
    pub user_id: u128,
    pub refresh_token: Seq<char>,
}

impl View for NonceRequest {
    type V = NonceFields;

    open spec fn view(&self) -> NonceFields {
        NonceFields {
            wallet_address: self.wallet_address@,
            domain: self.domain@,
            uri: self.uri@,
            chain_id: self.chain_id,
        }
    }
}

impl View for VerifyRequest {
    type V = VerifyFields;

    open spec fn view(&self) -> VerifyFields {
        VerifyFields {
            wallet_address: self.wallet_address@,
            message: self.message@,
            signature: self.signature@,
        }
    }
}

impl View for AuthResponse {
    type V = TokenPair;

    open spec fn view(&self) -> TokenPair {
        TokenPair { access_token: self.access_token@, refresh_token: self.refresh_token@ }
    }
}

impl View for RefreshRequest {
    type V = RefreshFields;

    open spec fn view(&self) -> RefreshFields {
        RefreshFields { user_id: self.user_id, refresh_token: self.refresh_token@ }
    }
}

impl View for RefreshResponse {
    type V = TokenPair;

    open spec fn view(&self) -> TokenPair {
        TokenPair { access_token: self.access_token@, refresh_token: self.refresh_token@ }
    }
}

} // verus!
