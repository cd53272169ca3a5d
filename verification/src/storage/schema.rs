//! The rows that the sign-in protocol keeps, with times in seconds since 1970
//! and identifiers as the 128 bits of their UUIDs.

use vstd::prelude::*;

verus! {

/// Represents a user account.
#[derive(Clone, Debug, PartialEq, Eq)]
pub struct User {
    /// A unique identifier of the user.
    pub id: u128,
    /// The wallet address associated to the user.
    pub wallet_address: String,
    /// When this account was created.
    pub created_at: i64,
}

/// Represents a pending challenge: the nonce that a wallet was asked to sign.
#[derive(Clone, Debug, PartialEq, Eq)]
pub struct LoginSession {
    /// The wallet address that asked for the challenge, as it was submitted.
    pub wallet_address: String,
    /// The randomly generated nonce of the challenge.
    pub nonce: String,
    /// When the challenge was issued.
    pub created_at: i64,
}

/// Represents a refresh token on the server's side: the hash of the raw
/// token, never the token itself.
#[derive(Clone, Debug, PartialEq, Eq)]
pub struct RefreshTokenRecord {
    /// The user that the token was issued to.
    pub user_id: u128,
    /// SHA-256 of the raw token, as lower-case hexadecimal digits.
    pub token_hash: String,
    /// When the token stops being valid.
    pub expires_at: i64,
    /// When the token was issued.
    pub created_at: i64,
}

/// A pending challenge as mathematical values.
pub struct SessionFields {
    pub wallet_address: Seq<char>,
    pub nonce: Seq<char>,
    pub created_at: i64,
}

/// A user account as mathematical values.
pub struct UserFields {
    pub id: u128,
    pub wallet_address: Seq<char>,
    pub created_at: i64,
}

impl View for User {
    type V = UserFields;

    open spec fn view(&self) -> UserFields {
        UserFields {
            id: self.id,
            wallet_address: self.wallet_address@,
            created_at: self.created_at,
        }
    }
}

/// A refresh token record as mathematical values.
pub struct RecordFields {
    pub user_id: u128,
    pub token_hash: Seq<char>,
    pub expires_at: i64,
    pub created_at: i64,
}

impl View for LoginSession {
    type V = SessionFields;

    open spec fn view(&self) -> SessionFields {
        SessionFields {
            wallet_address: self.wallet_address@,
            nonce: self.nonce@,
            created_at: self.created_at,
        }
    }
}

impl View for RefreshTokenRecord {
    type V = RecordFields;

    open spec fn view(&self) -> RecordFields {
        RecordFields {
            user_id: self.user_id,
            token_hash: self.token_hash@,
            expires_at: self.expires_at,
            created_at: self.created_at,
        }
    }
}

} // verus!
