//! The errors of the library.

use crate::text::{decimal_string, decimal_text, joined};
use vstd::prelude::*;
use vstd::string::StringExecFns;

verus! {

/// What can go wrong while reaching the game client and its backend.
#[derive(Debug)]
pub enum ValorantError {
    /// No secrets file was found: the client is not running.
    LockfileNotFound,
    /// The secrets file does not hold the fields it should.
    LockfileMalformed,
    /// The handshake or the decoding of the token failed, for the reason
    /// given.
    AuthFailed(String),
    /// The player is in no match.
    NotInMatch,
    /// A request failed in transport; the text says how.
    Http(String),
    /// A body could not be read as the data expected; the text says why.
    Json(String),
    /// The service answered with a status that is not a success.
    ApiError { status: u16, message: String },
}

/// The mathematical value of a `ValorantError`.
pub enum ErrorView {
    LockfileNotFound,
    LockfileMalformed,
    AuthFailed(Seq<char>),
    NotInMatch,
    Http(Seq<char>),
    Json(Seq<char>),
    ApiError { status: u16, message: Seq<char> },
}

impl View for ValorantError {
    type V = ErrorView;

    open spec fn view(&self) -> ErrorView {
        match *self {
            ValorantError::LockfileNotFound => ErrorView::LockfileNotFound,
            ValorantError::LockfileMalformed => ErrorView::LockfileMalformed,
            ValorantError::AuthFailed(reason) => ErrorView::AuthFailed(reason@),
            ValorantError::NotInMatch => ErrorView::NotInMatch,
            ValorantError::Http(text) => ErrorView::Http(text@),
            ValorantError::Json(text) => ErrorView::Json(text@),
            ValorantError::ApiError { status, message } => ErrorView::ApiError {
                status,
                message: message@,
            },
        }
    }
}

/// The sentence that describes an error to a reader.
pub open spec fn error_text(e: ErrorView) -> Seq<char> {
    match e {
        ErrorView::LockfileNotFound => "Valorant lockfile not found — is Valorant running?"@,
        ErrorView::LockfileMalformed => "Lockfile malformed"@,
        ErrorView::AuthFailed(reason) => "Auth failed: "@ + reason,
        ErrorView::NotInMatch => "Not in a match"@,
        ErrorView::Http(text) => "HTTP error: "@ + text,
        ErrorView::Json(text) => "JSON error: "@ + text,
        ErrorView::ApiError { status, message } => "API error "@ + decimal_text(status as nat)
            + ": "@ + message,
    }
}

impl ValorantError {
    /// The sentence that describes the error.
    pub fn message(&self) -> (r: String)
        ensures
            r@ == error_text(self@),
    {
        match self {
            ValorantError::LockfileNotFound => String::from_str(
                "Valorant lockfile not found — is Valorant running?",
            ),
            ValorantError::LockfileMalformed => String::from_str("Lockfile malformed"),
            ValorantError::AuthFailed(reason) => joined("Auth failed: ", reason.as_str()),
            ValorantError::NotInMatch => String::from_str("Not in a match"),
            ValorantError::Http(text) => joined("HTTP error: ", text.as_str()),
            ValorantError::Json(text) => joined("JSON error: ", text.as_str()),
            ValorantError::ApiError { status, message } => {
                let number = decimal_string(*status as u64);
                joined("API error ", number.as_str()).concat(": ").concat(message.as_str())
            },
        }
    }
}

} // verus!
