//! The error taxonomy of the core and the status each kind answers with.

use vstd::prelude::*;
use vstd::string::StringExecFns;

verus! {

/// What went wrong, as the caller has to see it.
#[derive(Debug, Clone, Copy, PartialEq, Eq, Structural)]
pub enum ErrorKind {
    /// Unknown email or wrong password at login.
    InvalidCredentials,
    /// Missing, malformed, mis-signed or expired token, or a token for a
    /// user that does not exist.
    Unauthorized,
    /// A verified identity that may not do what it asked for.
    Forbidden,
    /// Storage, hashing or signing failed.
    InternalError,
}

impl ErrorKind {
    /// The response status of this kind.
    pub open spec fn status_of(self) -> u16 {
        match self {
            ErrorKind::InvalidCredentials => 401,
            ErrorKind::Unauthorized => 401,
            ErrorKind::Forbidden => 403,
            ErrorKind::InternalError => 500,
        }
    }

    /// The response status of this kind: 401, 403 or 500.
    pub fn status(&self) -> (r: u16)
        ensures
            r == self.status_of(),
    {
        match self {
            ErrorKind::InvalidCredentials => 401,
            ErrorKind::Unauthorized => 401,
            ErrorKind::Forbidden => 403,
            ErrorKind::InternalError => 500,
        }
    }
}

/// A refusal: its kind and a short diagnostic message. For an internal
/// error the message holds the cause and is meant for operators.
#[derive(Debug, Clone, PartialEq, Eq)]
pub struct AuthError {
    pub kind: ErrorKind,
    pub message: String,
}

pub ghost struct AuthErrorModel {
    pub kind: ErrorKind,
    pub message: Seq<char>,
}

impl View for AuthError {
    type V = AuthErrorModel;

    open spec fn view(&self) -> AuthErrorModel {
        AuthErrorModel { kind: self.kind, message: self.message@ }
    }
}

impl DeepView for AuthError {
    type V = AuthErrorModel;

    open spec fn deep_view(&self) -> AuthErrorModel {
        self@
    }
}

/// The message that every internal error shows to a client.
pub open spec fn generic_internal_message() -> Seq<char> {
    "Internal server error"@
}

impl AuthErrorModel {
    /// A refusal of kind `kind` with message `message`.
    pub open spec fn new(kind: ErrorKind, message: Seq<char>) -> AuthErrorModel {
        AuthErrorModel { kind, message }
    }

    /// What a client is shown: the message, but for an internal error only
    /// a generic text.
    pub open spec fn client_message(self) -> Seq<char> {
        if self.kind == ErrorKind::InternalError {
            generic_internal_message()
        } else {
            self.message
        }
    }
}

impl AuthError {
    /// A refusal of kind `kind` with message `message`.
    pub fn new(kind: ErrorKind, message: &str) -> (r: AuthError)
        ensures
            r@ == AuthErrorModel::new(kind, message@),
    {
        AuthError { kind, message: message.to_owned() }
    }

    /// The response status: 401, 403 or 500.
    pub fn status(&self) -> (r: u16)
        ensures
            r == self.kind.status_of(),
    {
        self.kind.status()
    }

    /// The message for the client. An internal error never shows its cause.
    pub fn client_message(&self) -> (r: String)
        ensures
            r@ == self@.client_message(),
    {
        match self.kind {
            ErrorKind::InternalError => "Internal server error".to_owned(),
            _ => self.message.clone(),
        }
    }
}

/// The message of an internal error: the context, a colon and a space, and
/// the cause.
pub open spec fn internal_message(context: Seq<char>, cause: Seq<char>) -> Seq<char> {
    context + ": "@ + cause
}

/// An internal error that happened while doing `msg`, caused by `cause`.
pub fn internal_error(msg: &str, cause: &str) -> (r: AuthError)
    ensures
        r@ == AuthErrorModel::new(ErrorKind::InternalError, internal_message(msg@, cause@)),
{
    let mut message = msg.to_owned();
    message.append(": ");
    message.append(cause);
    AuthError { kind: ErrorKind::InternalError, message }
}

} // verus!
