//! The calls that this library makes into other crates. Verus does not read
//! the bodies in this file: it takes each contract here as given, and every
//! proof elsewhere in the library rests on them.

use crate::auth::message::{MessageFields, SignInMessage};
use sha2::Digest;
use vstd::prelude::*;

verus! {

/// What `siwe::Message::from_str` makes of a text: the fields of the message
/// that it reads, or the text of its error.
pub uninterp spec fn siwe_parsed(text: Seq<char>) -> Result<MessageFields, Seq<char>>;

/// What the `Display` of `siwe::Message` writes for a message with the given
/// fields, version 1 and no optional field but the statement; `None` where the
/// domain or the URI cannot be held by a `siwe::Message`.
pub uninterp spec fn siwe_serialized(fields: MessageFields) -> Option<Seq<char>>;

/// The text of the error with which `http::uri::Authority::from_str` refuses a
/// text, or `None` where it accepts it.
pub uninterp spec fn authority_rejection(text: Seq<char>) -> Option<Seq<char>>;

/// The text of the error with which `iri_string::types::UriString::from_str`
/// refuses a text, or `None` where it accepts it.
pub uninterp spec fn uri_rejection(text: Seq<char>) -> Option<Seq<char>>;

/// What `ethers::types::Address::from_str` makes of a text: the twenty bytes
/// of the address, or the text of its error.
pub uninterp spec fn address_parsed(text: Seq<char>) -> Result<Seq<u8>, Seq<char>>;

/// The hash that `ethers::utils::hash_message` gives a message: Keccak-256 of
/// the message behind the prefix of signed Ethereum messages.
pub uninterp spec fn eip191_hash(message: Seq<char>) -> Seq<u8>;

/// The address that `ethers::types::Signature::recover` finds for a signature
/// of 65 bytes over a hash of 32 bytes, or `None` where it finds none.
pub uninterp spec fn recovered_signer(digest: Seq<u8>, signature: Seq<u8>) -> Option<Seq<u8>>;

/// The token that `jsonwebtoken::encode` makes with HS256 from a secret and
/// the claims `sub`, `iat`, `exp` and `jti`, or the text of its error.
pub uninterp spec fn hs256_token(
    secret: Seq<char>,
    subject: Seq<char>,
    issued_at: i64,
    expires_at: i64,
    token_id: Seq<char>,
) -> Result<Seq<char>, Seq<char>>;

/// The SHA-256 digest of the UTF-8 bytes of a text, as `sha2::Sha256` computes it.
pub uninterp spec fn sha256(data: Seq<char>) -> Seq<u8>;

/// The text that `uuid::Uuid` writes for the identifier with the given 128
/// bits: lower-case hexadecimal digits in five groups with hyphens between them.
pub uninterp spec fn uuid_text(id: u128) -> Seq<char>;

/// Whether `c` is an ASCII letter or digit.
pub open spec fn is_alphanumeric(c: char) -> bool {
    ('0' <= c <= '9') || ('a' <= c <= 'z') || ('A' <= c <= 'Z')
}

/// Calls `siwe::Message::from_str` and hands back the fields that this library
/// keeps of a message (the domain and the URI as text, the time of issue in
/// whole seconds), or the text of the parser's error. The contract claims only
/// that the outcome is a function of the text.
#[verifier::external_body]
pub(crate) fn siwe_parse(text: &str) -> (parsed: Result<SignInMessage, String>)
    ensures
        match parsed {
            Ok(m) => siwe_parsed(text@) == Ok::<MessageFields, Seq<char>>(m@),
            Err(e) => siwe_parsed(text@) == Err::<MessageFields, Seq<char>>(e@),
        },
{
    match text.parse::<siwe::Message>() {
        Ok(m) => Ok(SignInMessage {
            domain: m.domain.to_string(),
            address: m.address,
            statement: m.statement,
            uri: m.uri.to_string(),
            chain_id: m.chain_id,
            nonce: m.nonce,
            issued_at: m.issued_at.as_ref().unix_timestamp(),
        }),
        Err(e) => Err(e.to_string()),
    }
}

/// Builds a `siwe::Message` of version 1 from the fields and calls its
/// `Display`. The domain goes through `http::uri::Authority::from_str` and the
/// URI through `iri_string::types::UriString::from_str`; the contract claims
/// that a text comes back exactly when both accept, and that it is a function
/// of the fields. The time must be one that RFC 3339 can write, or the
/// conversion to `siwe::TimeStamp` would stop the program.
#[verifier::external_body]
pub(crate) fn siwe_serialize(m: &SignInMessage) -> (text: Option<String>)
    requires
        0 <= m.issued_at <= 253_402_300_799,
    ensures
        (text is Some) == (authority_rejection(m.domain@) is None && uri_rejection(m.uri@) is None),
        match text {
            Some(t) => siwe_serialized(m@) == Some(t@),
            None => siwe_serialized(m@) is None,
        },
{
    let message = siwe::Message {
        domain: m.domain.parse().ok()?, address: m.address, statement: m.statement.clone(),
        uri: m.uri.parse().ok()?, version: siwe::Version::V1, chain_id: m.chain_id,
        nonce: m.nonce.clone(),
        issued_at: time::OffsetDateTime::from_unix_timestamp(m.issued_at).ok()?.into(),
        expiration_time: None, not_before: None, request_id: None, resources: Vec::new(),
    };
    Some(message.to_string())
}

/// Calls `http::uri::Authority::from_str` and hands back the text of its
/// error, if any.
#[verifier::external_body]
pub(crate) fn authority_error(text: &str) -> (error: Option<String>)
    ensures
        match error {
            Some(e) => authority_rejection(text@) == Some(e@),
            None => authority_rejection(text@) is None,
        },
{
    match text.parse::<http::uri::Authority>() {
        Ok(_) => None,
        Err(e) => Some(e.to_string()),
    }
}

/// Calls `iri_string::types::UriString::from_str` and hands back the text of
/// its error, if any.
#[verifier::external_body]
pub(crate) fn uri_error(text: &str) -> (error: Option<String>)
    ensures
        match error {
            Some(e) => uri_rejection(text@) == Some(e@),
            None => uri_rejection(text@) is None,
        },
{
    match text.parse::<iri_string::types::UriString>() {
        Ok(_) => None,
        Err(e) => Some(e.to_string()),
    }
}

/// Calls `ethers::types::Address::from_str`, which reads forty hexadecimal
/// digits of either case behind an optional `0x` and passes over white space
/// between them, and hands back the twenty bytes or the text of its error. The
/// contract claims only that the outcome is a function of the text.
#[verifier::external_body]
pub(crate) fn parse_address(text: &str) -> (parsed: Result<[u8; 20], String>)
    ensures
        match parsed {
            Ok(a) => address_parsed(text@) == Ok::<Seq<u8>, Seq<char>>(a@),
            Err(e) => address_parsed(text@) == Err::<Seq<u8>, Seq<char>>(e@),
        },
{
    match text.parse::<ethers::types::Address>() {
        Ok(a) => Ok(a.0),
        Err(e) => Err(e.to_string()),
    }
}

/// Calls `ethers::utils::hash_message` on the bytes of the message.
#[verifier::external_body]
pub(crate) fn eip191_digest(message: &str) -> (digest: [u8; 32])
    ensures
        digest@ == eip191_hash(message@),
{
    ethers::utils::hash_message(message).0
}

/// Reads the 65 bytes as an `ethers::types::Signature` (r, s, v) and calls its
/// `recover` on the hash. The contract claims only that the outcome is a
/// function of the two byte strings.
#[verifier::external_body]
pub(crate) fn recover_signer(digest: &[u8; 32], signature: &[u8]) -> (signer: Option<[u8; 20]>)
    requires
        signature@.len() == 65,
    ensures
        match signer {
            Some(a) => recovered_signer(digest@, signature@) == Some(a@),
            None => recovered_signer(digest@, signature@) is None,
        },
{
    let signature = ethers::types::Signature::try_from(signature).ok()?;
    match signature.recover(ethers::types::H256(*digest)) {
        Ok(a) => Some(a.0),
        Err(_) => None,
    }
}

/// Calls `jsonwebtoken::encode` with an HS256 header, the secret as the key
/// and a JSON object of the four claims, in the order `sub`, `iat`, `exp`,
/// `jti`. The contract claims only that the outcome is a function of the
/// arguments.
#[verifier::external_body]
pub(crate) fn encode_hs256(
    secret: &str,
    subject: &str,
    issued_at: i64,
    expires_at: i64,
    token_id: &str,
) -> (token: Result<String, String>)
    ensures
        match token {
            Ok(t) => hs256_token(secret@, subject@, issued_at, expires_at, token_id@)
                == Ok::<Seq<char>, Seq<char>>(t@),
            Err(e) => hs256_token(secret@, subject@, issued_at, expires_at, token_id@)
                == Err::<Seq<char>, Seq<char>>(e@),
        },
{
    let mut claims = serde_json::Map::new();
    claims.insert("sub".into(), subject.into());
    claims.insert("iat".into(), issued_at.into());
    claims.insert("exp".into(), expires_at.into());
    claims.insert("jti".into(), token_id.into());
    let header = jsonwebtoken::Header::new(jsonwebtoken::Algorithm::HS256);
    let key = jsonwebtoken::EncodingKey::from_secret(secret.as_bytes());
    match jsonwebtoken::encode(&header, &claims, &key) {
        Ok(t) => Ok(t),
        Err(e) => Err(e.to_string()),
    }
}

/// Computes SHA-256 of the bytes of the text with `sha2::Sha256`.
#[verifier::external_body]
pub(crate) fn sha256_digest(data: &str) -> (digest: [u8; 32])
    ensures
        digest@ == sha256(data@),
{
    let mut hasher = sha2::Sha256::new();
    hasher.update(data);
    hasher.finalize().into()
}

/// Writes the identifier with the given bits with the `Display` of
/// `uuid::Uuid`: 32 digits and four hyphens, 36 characters in all.
#[verifier::external_body]
pub(crate) fn uuid_to_text(id: u128) -> (text: String)
    ensures
        text@ == uuid_text(id),
        text@.len() == 36,
{
    uuid::Uuid::from_u128(id).to_string()
}

/// Draws a random identifier with `uuid::Uuid::new_v4`. Nothing is claimed of
/// the bits that come back.
#[verifier::external_body]
pub(crate) fn random_uuid() -> (id: u128) {
    uuid::Uuid::new_v4().as_u128()
}

/// Draws `length` characters from `rand::distr::Alphanumeric` with the
/// thread's generator. The contract claims the length and that each character
/// is an ASCII letter or digit, which is all that the distribution yields.
#[verifier::external_body]
pub(crate) fn random_alphanumeric(length: usize) -> (text: String)
    ensures
        text@.len() == length,
        forall|i: int| 0 <= i < text@.len() ==> is_alphanumeric(#[trigger] text@[i]),
{
    rand::Rng::sample_iter(rand::rng(), &rand::distr::Alphanumeric).take(length).map(char::from).collect()
}

/// Reads the clock with `chrono::Utc::now` and hands back the seconds since
/// 1970. Nothing is claimed of the value. `Utc::now` stops the program where
/// the system clock reads a time before 1970.
#[verifier::external_body]
pub(crate) fn unix_now() -> (seconds: i64) {
    chrono::Utc::now().timestamp()
}

} // verus!
