//! Token issuance: an access token and a refresh token for a user, and the
//! record of the refresh token that the server keeps.

use crate::auth::error::{AuthError, Failure};
use crate::auth::jwt::{access_token_outcome, issue_jwt_at, secret_text};
use crate::bindings::{random_uuid, sha256, sha256_digest, unix_now, uuid_text, uuid_to_text};
use crate::hex::{encode_hex, hex_encoded};
use crate::storage::schema::{RecordFields, RefreshTokenRecord};
use vstd::prelude::*;

verus! {

/// How long a refresh token is valid, in seconds: thirty days.
pub const REFRESH_TOKEN_LIFETIME: i64 = 2_592_000;

/// What issuing tokens takes from the clock and the random generator.
#[derive(Clone, Copy, Debug, PartialEq, Eq)]
pub struct Entropy {
    /// The time, in seconds since 1970.
    pub now: i64,
    /// The identifier of the access token.
    pub token_id: u128,
    /// The bits of the raw refresh token.
    pub refresh_id: u128,
}

/// A pair of tokens for the client and the record of the refresh token for
/// the store.
#[derive(Clone, Debug, PartialEq, Eq)]
pub struct IssuedTokens {
    /// Short-lived access token.
    pub access_token: String,
    /// The raw refresh token. It is handed out here once and kept nowhere.
    pub refresh_token: String,
    /// What the store keeps of the refresh token.
    pub record: RefreshTokenRecord,
}

/// A pair of tokens and a record as mathematical values.
pub struct IssuedFields {
    pub access_token: Seq<char>,
    pub refresh_token: Seq<char>,
    pub record: RecordFields,
}

impl View for IssuedTokens {
    type V = IssuedFields;

    open spec fn view(&self) -> IssuedFields {
        IssuedFields {
            access_token: self.access_token@,
            refresh_token: self.refresh_token@,
            record: self.record@,
        }
    }
}

/// The hash under which a raw refresh token is kept: SHA-256 of its text, as
/// lower-case hexadecimal digits.
pub open spec fn refresh_token_hash(raw: Seq<char>) -> Seq<char> {
    hex_encoded(sha256(raw))
}

/// What issuing a refresh token gives: the raw token and its record, which
/// holds the hash of the token and expires thirty days after `now`.
pub open spec fn refresh_token_outcome(user_id: u128, now: i64, refresh_id: u128) -> Result<
    (Seq<char>, RecordFields),
    Failure,
> {
    if now + 2_592_000 > i64::MAX {
        Err(Failure::Internal("Token expiry out of range"@))
    } else {
        Ok(
            (
                uuid_text(refresh_id),
                RecordFields {
                    user_id,
                    token_hash: refresh_token_hash(uuid_text(refresh_id)),
                    expires_at: (now + 2_592_000) as i64,
                    created_at: now,
                },
            ),
        )
    }
}

/// What issuing both tokens gives: the access token is made first, and its
/// failure is the failure of the whole.
pub open spec fn tokens_outcome(user_id: u128, secret: Option<Seq<char>>, entropy: Entropy) -> Result<
    IssuedFields,
    Failure,
> {
    match access_token_outcome(user_id, secret, entropy.now, entropy.token_id) {
        Err(failure) => Err(failure),
        Ok(access_token) => match refresh_token_outcome(user_id, entropy.now, entropy.refresh_id) {
            Err(failure) => Err(failure),
            Ok((refresh_token, record)) => Ok(IssuedFields { access_token, refresh_token, record }),
        },
    }
}

/// Whether issued tokens or a failure are the expected ones.
pub open spec fn tokens_match(
    result: Result<IssuedTokens, AuthError>,
    expected: Result<IssuedFields, Failure>,
) -> bool {
    match result {
        Ok(tokens) => expected == Ok::<IssuedFields, Failure>(tokens@),
        Err(error) => expected == Err::<IssuedFields, Failure>(error@),
    }
}

/// Hashes a raw refresh token for the store.
pub fn hash_refresh_token(raw: &str) -> (hash: String)
    ensures
        hash@ == refresh_token_hash(raw@),
        hash@.len() == 64,
{
    let digest = sha256_digest(raw);
    encode_hex(digest.as_slice())
}

/// Issues a refresh token for the user at the time `now`: the raw token is
/// the text of `refresh_id`, and the record for the store holds its hash.
pub fn issue_refresh_token(user_id: u128, now: i64, refresh_id: u128) -> (issued: Result<
    (String, RefreshTokenRecord),
    AuthError,
>)
    ensures
        match issued {
            Ok((raw, record)) => refresh_token_outcome(user_id, now, refresh_id) == Ok::<
                (Seq<char>, RecordFields),
                Failure,
            >((raw@, record@)),
            Err(error) => refresh_token_outcome(user_id, now, refresh_id) == Err::<
                (Seq<char>, RecordFields),
                Failure,
            >(error@),
        },
        issued is Ok ==> issued->Ok_0.1.token_hash@ != issued->Ok_0.0@,
{
    let expires_at = match now.checked_add(REFRESH_TOKEN_LIFETIME) {
        Some(expires_at) => expires_at,
        None => {
            return Err(AuthError::Internal(String::from_str("Token expiry out of range")));
        },
    };
    let raw = uuid_to_text(refresh_id);
    let token_hash = hash_refresh_token(raw.as_str());
    Ok((raw, RefreshTokenRecord { user_id, token_hash, expires_at, created_at: now }))
}

/// Issues a short-lived access token and a long-lived refresh token from what
/// the clock and the generator gave.
pub fn issue_tokens_with(user_id: u128, secret: Option<&str>, entropy: Entropy) -> (issued: Result<
    IssuedTokens,
    AuthError,
>)
    ensures
        tokens_match(issued, tokens_outcome(user_id, secret_text(secret), entropy)),
        issued is Ok ==> issued->Ok_0.record.token_hash@ != issued->Ok_0.refresh_token@,
{
    let access_token = match issue_jwt_at(user_id, secret, entropy.now, entropy.token_id) {
        Ok(token) => token,
        Err(error) => {
            return Err(error);
        },
    };
    match issue_refresh_token(user_id, entropy.now, entropy.refresh_id) {
        Ok((refresh_token, record)) => Ok(IssuedTokens { access_token, refresh_token, record }),
        Err(error) => Err(error),
    }
}

/// Reads the clock and draws the two random identifiers that a pair of
/// tokens takes. Nothing is known of what comes back.
pub fn draw_entropy() -> (entropy: Entropy) {
    let now: i64 = unix_now();
    let token_id: u128 = random_uuid();
    let refresh_id: u128 = random_uuid();
    Entropy { now, token_id, refresh_id }
}

/// Issues a short-lived access token plus a long-lived refresh token, with
/// the record of the latter for the store. Whatever the clock and the
/// generator gave, the outcome is the one that `issue_tokens_with` has for
/// them.
pub fn issue_tokens(user_id: u128, secret: Option<&str>) -> (issued: Result<IssuedTokens, AuthError>)
    ensures
        exists|entropy: Entropy|
            tokens_match(
                issued,
                #[trigger] tokens_outcome(user_id, secret_text(secret), entropy),
            ),
        secret is None ==> issued is Err,
        issued is Ok ==> issued->Ok_0.record.token_hash@ != issued->Ok_0.refresh_token@,
{
    let entropy = draw_entropy();
    issue_tokens_with(user_id, secret, entropy)
}

} // verus!
