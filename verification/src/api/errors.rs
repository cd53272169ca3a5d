//! The failures of the API and the response that each is turned into.

use crate::text::join_text;
use vstd::prelude::*;

verus! {

/// Main error type for all API operations.
#[derive(Clone, Debug, PartialEq, Eq)]
pub enum ApiError {
    /// The request does not meet the rules for its fields.
    Validation { message: String },
    /// The caller could not be authenticated.
    Authentication { message: String },
    /// What was asked for does not exist.
    NotFound { resource: String },
    /// Something went wrong on the server's side.
    Internal { message: String },
    /// The request is malformed.
    BadRequest { message: String },
}

/// An API failure with its text as a mathematical value.
pub enum ApiFailure {
    Validation { message: Seq<char> },
    Authentication { message: Seq<char> },
    NotFound { resource: Seq<char> },
    Internal { message: Seq<char> },
    BadRequest { message: Seq<char> },
}

impl View for ApiError {
    type V = ApiFailure;

    open spec fn view(&self) -> ApiFailure {
        match self {
            ApiError::Validation { message } => ApiFailure::Validation { message: message@ },
            ApiError::Authentication { message } => ApiFailure::Authentication {
                message: message@,
            },
            ApiError::NotFound { resource } => ApiFailure::NotFound { resource: resource@ },
            ApiError::Internal { message } => ApiFailure::Internal { message: message@ },
            ApiError::BadRequest { message } => ApiFailure::BadRequest { message: message@ },
        }
    }
}

impl ApiFailure {
    /// The HTTP status that stands for the failure.
    pub open spec fn status(self) -> u16 {
        match self {
            ApiFailure::Validation { .. } => 400,
            ApiFailure::Authentication { .. } => 401,
            ApiFailure::NotFound { .. } => 404,
            ApiFailure::Internal { .. } => 500,
            ApiFailure::BadRequest { .. } => 400,
        }
    }

    /// The code by which a program tells the failures apart.
    pub open spec fn error_code(self) -> Seq<char> {
        match self {
            ApiFailure::Validation { .. } => "VALIDATION_ERROR"@,
            ApiFailure::Authentication { .. } => "AUTH_ERROR"@,
            ApiFailure::NotFound { .. } => "NOT_FOUND"@,
            ApiFailure::Internal { .. } => "INTERNAL_ERROR"@,
            ApiFailure::BadRequest { .. } => "BAD_REQUEST"@,
        }
    }

    /// The message for a person.
    pub open spec fn message(self) -> Seq<char> {
        match self {
            ApiFailure::Validation { message } => message,
            ApiFailure::Authentication { message } => message,
            ApiFailure::NotFound { resource } => resource + " not found"@,
            ApiFailure::Internal { message } => message,
            ApiFailure::BadRequest { message } => message,
        }
    }
}

/// Standardized error response structure.
#[derive(Clone, Debug, PartialEq, Eq)]
pub struct ErrorResponse {
    /// Always false for error responses.
    pub success: bool,
    /// Human-readable error message.
    pub message: String,
    /// Error code for programmatic handling.
    pub error_code: String,
}

impl ApiError {
    /// Turns the failure into the status and body of its response.
    pub fn into_response(self) -> (response: (u16, ErrorResponse))
        ensures
            response.0 == self@.status(),
            !response.1.success,
            response.1.message@ == self@.message(),
            response.1.error_code@ == self@.error_code(),
    {
        let (status, error_code, message): (u16, &str, String) = match self {
            ApiError::Validation { message } => (400, "VALIDATION_ERROR", message),
            ApiError::Authentication { message } => (401, "AUTH_ERROR", message),
            ApiError::NotFound { resource } => (
                404,
                "NOT_FOUND",
                join_text(resource.as_str(), " not found"),
            ),
            ApiError::Internal { message } => (500, "INTERNAL_ERROR", message),
            ApiError::BadRequest { message } => (400, "BAD_REQUEST", message),
        };
        (status, ErrorResponse { success: false, message, error_code: String::from_str(error_code) })
    }
}

} // verus!
