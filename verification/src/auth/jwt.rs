//! Access tokens: short-lived signed statements of who the bearer is.

use crate::auth::error::{text_outcome, AuthError, Failure};
use crate::bindings::{encode_hs256, hs256_token, random_uuid, unix_now, uuid_text, uuid_to_text};
use vstd::prelude::*;

verus! {

/// How long an access token is valid, in seconds: fifteen minutes.
pub const ACCESS_TOKEN_LIFETIME: i64 = 900;

/// The secret as a mathematical value.
pub open spec fn secret_text(secret: Option<&str>) -> Option<Seq<char>> {
    match secret {
        Some(s) => Some(s@),
        None => None,
    }
}

/// What issuing an access token gives: the token that HS256 makes under the
/// secret from the claims (the user as subject, `now` as time of issue, `now`
/// plus fifteen minutes as expiry, `token_id` as the token's own identifier),
/// or the failure: no secret is configured, the expiry cannot be held, or the
/// encoder refuses.
pub open spec fn access_token_outcome(
    user_id: u128,
    secret: Option<Seq<char>>,
    now: i64,
    token_id: u128,
) -> Result<Seq<char>, Failure> {
    match secret {
        None => Err(Failure::Internal("Missing JWT secret"@)),
        Some(key) => if now + 900 > i64::MAX {
            Err(Failure::Internal("Token expiry out of range"@))
        } else {
            match hs256_token(
                key,
                uuid_text(user_id),
                now,
                (now + 900) as i64,
                uuid_text(token_id),
            ) {
                Ok(token) => Ok(token),
                Err(reason) => Err(Failure::Signing(reason)),
            }
        },
    }
}

/// Issues an access token for the user at the time `now`, with the given
/// identifier of the token.
pub fn issue_jwt_at(user_id: u128, secret: Option<&str>, now: i64, token_id: u128) -> (token:
    Result<String, AuthError>)
    ensures
        text_outcome(token, access_token_outcome(user_id, secret_text(secret), now, token_id)),
{
    let key = match secret {
        Some(key) => key,
        None => {
            return Err(AuthError::Internal(String::from_str("Missing JWT secret")));
        },
    };
    let expires_at = match now.checked_add(ACCESS_TOKEN_LIFETIME) {
        Some(expires_at) => expires_at,
        None => {
            return Err(AuthError::Internal(String::from_str("Token expiry out of range")));
        },
    };
    let subject = uuid_to_text(user_id);
    let token_name = uuid_to_text(token_id);
    match encode_hs256(key, subject.as_str(), now, expires_at, token_name.as_str()) {
        Ok(token) => Ok(token),
        Err(reason) => Err(AuthError::Signing(reason)),
    }
}

/// Issues an access token for the user: reads the clock, draws a fresh
/// identifier for the token and signs the claims with the configured secret.
/// Whatever the clock and the generator gave, the outcome is the one that
/// `issue_jwt_at` has for them.
pub fn issue_jwt(user_id: u128, secret: Option<&str>) -> (token: Result<String, AuthError>)
    ensures
        exists|now: i64, token_id: u128|
            text_outcome(
                token,
                #[trigger] access_token_outcome(user_id, secret_text(secret), now, token_id),
            ),
        secret is None ==> token is Err,
{
    let now = unix_now();
    let token_id = random_uuid();
    issue_jwt_at(user_id, secret, now, token_id)
}

} // verus!
