//! The sign-in message: the structured challenge that a wallet signs, its
//! canonical text and the reading of a signed text back into fields.

use crate::bindings::{
    authority_rejection, siwe_parse, siwe_parsed, siwe_serialize, siwe_serialized, uri_rejection,
};
use vstd::prelude::*;

verus! {

/// The last second of the year 9999, the latest time that a message can carry.
pub const MAX_MESSAGE_TIME: i64 = 253_402_300_799;

/// A sign-in message: the fields that a wallet commits to with its signature.
#[derive(Clone, Debug, PartialEq, Eq)]
pub struct SignInMessage {
    /// The authority that asks for the signature, such as `vectra.app`.
    pub domain: String,
    /// The account that signs, as its twenty bytes.
    pub address: [u8; 20],
    /// A sentence for the person who signs.
    pub statement: Option<String>,
    /// The resource that the sign-in is for.
    pub uri: String,
    /// The chain that the session is bound to.
    pub chain_id: u64,
    /// The single-use token of the challenge.
    pub nonce: String,
    /// When the message was issued, in seconds since 1970.
    pub issued_at: i64,
}

/// The fields of a sign-in message as mathematical values.
pub struct MessageFields {
    pub domain: Seq<char>,
    pub address: Seq<u8>,
    pub statement: Option<Seq<char>>,
    pub uri: Seq<char>,
    pub chain_id: u64,
    pub nonce: Seq<char>,
    pub issued_at: i64,
}

impl View for SignInMessage {
    type V = MessageFields;

    open spec fn view(&self) -> MessageFields {
        MessageFields {
            domain: self.domain@,
            address: self.address@,
            statement: match self.statement {
                Some(s) => Some(s@),
                None => None,
            },
            uri: self.uri@,
            chain_id: self.chain_id,
            nonce: self.nonce@,
            issued_at: self.issued_at,
        }
    }
}

/// Why a text is not a sign-in message.
#[derive(Clone, Debug, PartialEq, Eq)]
pub struct MalformedMessage {
    /// The parser's account of what is wrong with the text.
    pub reason: String,
}

/// Whether the time `t` can be written into a message: from 1970 to the end
/// of the year 9999.
pub open spec fn is_message_time(t: int) -> bool {
    0 <= t <= 253_402_300_799
}

/// The fields of the message that `build` makes: the arguments as they are,
/// under the statement that every challenge of this library carries.
pub open spec fn built_fields(
    domain: Seq<char>,
    address: Seq<u8>,
    uri: Seq<char>,
    chain_id: u64,
    nonce: Seq<char>,
    issued_at: i64,
) -> MessageFields {
    MessageFields {
        domain,
        address,
        statement: Some("Sign in to Vectra"@),
        uri,
        chain_id,
        nonce,
        issued_at,
    }
}

/// The canonical text of a message with the given fields, where it has one:
/// the time of issue must be one that a message can carry, and the domain and
/// the URI must be ones that the message format can hold.
pub open spec fn canonical_text(fields: MessageFields) -> Option<Seq<char>> {
    if is_message_time(fields.issued_at as int) {
        siwe_serialized(fields)
    } else {
        None
    }
}

impl SignInMessage {
    /// Builds the challenge for a wallet: the given fields under the fixed
    /// statement. The same arguments always give the same message.
    pub fn build(
        domain: &str,
        address: [u8; 20],
        uri: &str,
        chain_id: u64,
        nonce: &str,
        issued_at: i64,
    ) -> (message: SignInMessage)
        ensures
            message@ == built_fields(domain@, address@, uri@, chain_id, nonce@, issued_at),
    {
        SignInMessage {
            domain: String::from_str(domain),
            address,
            statement: Some(String::from_str("Sign in to Vectra")),
            uri: String::from_str(uri),
            chain_id,
            nonce: String::from_str(nonce),
            issued_at,
        }
    }

    /// Writes the message as the text that a wallet signs, or `None` where the
    /// message has no canonical text.
    pub fn serialize(&self) -> (text: Option<String>)
        ensures
            match text {
                Some(t) => canonical_text(self@) == Some(t@),
                None => canonical_text(self@) is None,
            },
            is_message_time(self.issued_at as int) ==> (text is Some) == (authority_rejection(
                self.domain@,
            ) is None && uri_rejection(self.uri@) is None),
    {
        if self.issued_at < 0 || self.issued_at > MAX_MESSAGE_TIME {
            return None;
        }
        siwe_serialize(self)
    }

    /// Reads a signed text back into the fields of a message.
    pub fn parse(text: &str) -> (parsed: Result<SignInMessage, MalformedMessage>)
        ensures
            match parsed {
                Ok(m) => siwe_parsed(text@) == Ok::<MessageFields, Seq<char>>(m@),
                Err(e) => siwe_parsed(text@) == Err::<MessageFields, Seq<char>>(e.reason@),
            },
    {
        match siwe_parse(text) {
            Ok(message) => Ok(message),
            Err(reason) => Err(MalformedMessage { reason }),
        }
    }
}

} // verus!
