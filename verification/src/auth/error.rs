//! The failures of the sign-in protocol and what a caller is told of each.

use vstd::prelude::*;

verus! {

/// A failure of the sign-in protocol.
#[derive(Clone, Debug, PartialEq, Eq)]
pub enum AuthError {
    /// The request is malformed: the client has to correct it. Nothing was changed.
    BadRequest(String),
    /// The request is well formed and is refused: the nonce is absent,
    /// expired or not the one signed, the signature or the signer is wrong, or
    /// a refresh token is not valid.
    Unauthorized(String),
    /// The store failed. The text is for the server's log only.
    Storage(String),
    /// An access token could not be signed. The text is for the server's log only.
    Signing(String),
    /// Anything else that went wrong on the server's side. The text is for the
    /// server's log only.
    Internal(String),
}

/// A failure with its text as a mathematical value.
pub enum Failure {
    BadRequest(Seq<char>),
    Unauthorized(Seq<char>),
    Storage(Seq<char>),
    Signing(Seq<char>),
    Internal(Seq<char>),
}

impl View for AuthError {
    type V = Failure;

    open spec fn view(&self) -> Failure {
        match self {
            AuthError::BadRequest(m) => Failure::BadRequest(m@),
            AuthError::Unauthorized(m) => Failure::Unauthorized(m@),
            AuthError::Storage(m) => Failure::Storage(m@),
            AuthError::Signing(m) => Failure::Signing(m@),
            AuthError::Internal(m) => Failure::Internal(m@),
        }
    }
}

impl Failure {
    /// The HTTP status that stands for the failure.
    pub open spec fn status(self) -> u16 {
        match self {
            Failure::BadRequest(_) => 400,
            Failure::Unauthorized(_) => 401,
            Failure::Storage(_) => 500,
            Failure::Signing(_) => 500,
            Failure::Internal(_) => 500,
        }
    }

    /// What the caller is told: the reason of a refusal as it is, and of a
    /// failure on the server's side a fixed sentence only.
    pub open spec fn public_message(self) -> Seq<char> {
        match self {
            Failure::BadRequest(m) => m,
            Failure::Unauthorized(m) => m,
            Failure::Storage(_) => "Database error"@,
            Failure::Signing(_) => "Internal server error"@,
            Failure::Internal(_) => "Internal server error"@,
        }
    }

    /// Whether the failure is the server's own, whose text stays on the server.
    pub open spec fn is_internal(self) -> bool {
        self is Storage || self is Signing || self is Internal
    }
}

/// Whether a text or a failure that a function hands back is the expected one.
pub open spec fn text_outcome(
    result: Result<String, AuthError>,
    expected: Result<Seq<char>, Failure>,
) -> bool {
    match result {
        Ok(text) => expected == Ok::<Seq<char>, Failure>(text@),
        Err(error) => expected == Err::<Seq<char>, Failure>(error@),
    }
}

/// The body of an error response.
#[derive(Clone, Debug, PartialEq, Eq)]
pub struct ErrorBody {
    /// What the caller is told.
    pub error: String,
}

impl AuthError {
    /// The HTTP status that stands for the failure.
    pub fn status_code(&self) -> (status: u16)
        ensures
            status == self@.status(),
    {
        match self {
            AuthError::BadRequest(_) => 400,
            AuthError::Unauthorized(_) => 401,
            AuthError::Storage(_) => 500,
            AuthError::Signing(_) => 500,
            AuthError::Internal(_) => 500,
        }
    }

    /// Turns the failure into the status and body of its response.
    pub fn into_response(self) -> (response: (u16, ErrorBody))
        ensures
            response.0 == self@.status(),
            response.1.error@ == self@.public_message(),
    {
        match self {
            AuthError::BadRequest(message) => (400, ErrorBody { error: message }),
            AuthError::Unauthorized(message) => (401, ErrorBody { error: message }),
            AuthError::Storage(_) => (500, ErrorBody { error: String::from_str("Database error") }),
            AuthError::Signing(_) => (
                500,
                ErrorBody { error: String::from_str("Internal server error") },
            ),
            AuthError::Internal(_) => (
                500,
                ErrorBody { error: String::from_str("Internal server error") },
            ),
        }
    }
}

/// The response to a failure of the server's own never carries the failure's text.
pub proof fn lemma_internal_text_stays_private(failure: Failure)
    requires
        failure.is_internal(),
    ensures
        failure.status() == 500,
        failure.public_message() == "Database error"@ || failure.public_message()
            == "Internal server error"@,
{
}

} // verus!
