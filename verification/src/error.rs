//! What can go wrong between building a request and reading its reply.

use crate::json::{field, read_field, FromJson, Json, JsonValue};
use crate::request::{Error, ErrorKind};
use crate::uri::text_of;
use vstd::prelude::*;

verus! {

/// One complaint of the service.
#[derive(Debug)]
pub struct ErrorMessage {
    /// Which kind of complaint it is.
    pub id: String,
    /// The complaint in words.
    pub message: String,
}

/// What an [`ErrorMessage`] holds.
pub struct ErrorMessageView {
    pub id: Seq<char>,
    pub message: Seq<char>,
}

impl DeepView for ErrorMessage {
    type V = ErrorMessageView;

    open spec fn deep_view(&self) -> ErrorMessageView {
        ErrorMessageView { id: self.id.deep_view(), message: self.message.deep_view() }
    }
}

impl FromJson for ErrorMessage {
    open spec fn decoded(value: JsonValue) -> Option<ErrorMessageView> {
        if value is Object && field::<String>(value, "id"@) is Some && field::<String>(
            value,
            "message"@,
        ) is Some {
            Some(
                ErrorMessageView {
                    id: field::<String>(value, "id"@)->0,
                    message: field::<String>(value, "message"@)->0,
                },
            )
        } else {
            None
        }
    }

    fn from_json(tree: &Json) -> (r: Option<ErrorMessage>) {
        if !tree.is_object() {
            return None;
        }
        let id = match read_field::<String>(tree, "id") {
            Some(x) => x,
            None => {
                return None;
            },
        };
        let message = match read_field::<String>(tree, "message") {
            Some(x) => x,
            None => {
                return None;
            },
        };
        Some(ErrorMessage { id, message })
    }
}

/// The body with which the service refuses a request: its complaints, under `errors`.
#[derive(Debug)]
pub struct ErrorResponse {
    pub errors: Vec<ErrorMessage>,
}

/// What an [`ErrorResponse`] holds.
pub struct ErrorResponseView {
    pub errors: Seq<ErrorMessageView>,
}

impl DeepView for ErrorResponse {
    type V = ErrorResponseView;

    open spec fn deep_view(&self) -> ErrorResponseView {
        ErrorResponseView { errors: self.errors.deep_view() }
    }
}

impl FromJson for ErrorResponse {
    open spec fn decoded(value: JsonValue) -> Option<ErrorResponseView> {
        if value is Object && field::<Vec<ErrorMessage>>(value, "errors"@) is Some {
            Some(ErrorResponseView { errors: field::<Vec<ErrorMessage>>(value, "errors"@)->0 })
        } else {
            None
        }
    }

    fn from_json(tree: &Json) -> (r: Option<ErrorResponse>) {
        if !tree.is_object() {
            return None;
        }
        let errors = match read_field::<Vec<ErrorMessage>>(tree, "errors") {
            Some(x) => x,
            None => {
                return None;
            },
        };
        Some(ErrorResponse { errors })
    }
}

/// Why a body could not be decoded.
#[derive(Debug)]
pub enum DecodeError {
    /// The body is not JSON; with the parser's complaint.
    Syntax(String),
    /// The body is JSON of another shape than the one expected.
    Shape,
}

/// What a [`DecodeError`] holds.
pub enum DecodeErrorView {
    Syntax(Seq<char>),
    Shape,
}

impl DeepView for DecodeError {
    type V = DecodeErrorView;

    open spec fn deep_view(&self) -> DecodeErrorView {
        match self {
            DecodeError::Syntax(complaint) => DecodeErrorView::Syntax(complaint@),
            DecodeError::Shape => DecodeErrorView::Shape,
        }
    }
}

/// A failure of a call to the service.
#[derive(Debug)]
pub enum CBError {
    /// The private key could not be loaded.
    KeyLoad,
    /// Signing the token failed; with the cause in words.
    SigningFailed(String),
    /// The URI of the request has no host or no path to bind the token to.
    MissingAuthority,
    /// The request did not get through, or no reply came back; with the cause in words.
    Transport(String),
    /// The service refused the request.
    RemoteError(ErrorResponse),
    /// The reply is neither what was asked for nor a refusal.
    MalformedResponse(DecodeError),
}

/// What a [`CBError`] holds.
pub enum CBErrorView {
    KeyLoad,
    SigningFailed(Seq<char>),
    MissingAuthority,
    Transport(Seq<char>),
    RemoteError(ErrorResponseView),
    MalformedResponse(DecodeErrorView),
}

impl DeepView for CBError {
    type V = CBErrorView;

    open spec fn deep_view(&self) -> CBErrorView {
        match self {
            CBError::KeyLoad => CBErrorView::KeyLoad,
            CBError::SigningFailed(cause) => CBErrorView::SigningFailed(cause@),
            CBError::MissingAuthority => CBErrorView::MissingAuthority,
            CBError::Transport(cause) => CBErrorView::Transport(cause@),
            CBError::RemoteError(refusal) => CBErrorView::RemoteError(refusal.deep_view()),
            CBError::MalformedResponse(error) => CBErrorView::MalformedResponse(
                error.deep_view(),
            ),
        }
    }
}

impl CBErrorView {
    /// The failure of a call that a failure to build its request amounts to.
    pub open spec fn of_request(kind: ErrorKind, cause: Option<Seq<char>>) -> CBErrorView {
        match kind {
            ErrorKind::MissingAuthority => CBErrorView::MissingAuthority,
            ErrorKind::KeyLoad => CBErrorView::KeyLoad,
            ErrorKind::SigningFailed => CBErrorView::SigningFailed(
                match cause {
                    Some(text) => text,
                    None => Seq::empty(),
                },
            ),
        }
    }
}

impl CBError {
    /// The failure of a call that a failure to build its request amounts to.
    pub fn from_request(error: Error) -> (r: CBError)
        ensures
            r.deep_view() == CBErrorView::of_request(error.kind, text_of(error.cause)),
    {
        match error.kind {
            ErrorKind::MissingAuthority => CBError::MissingAuthority,
            ErrorKind::KeyLoad => CBError::KeyLoad,
            ErrorKind::SigningFailed => match error.cause {
                Some(text) => CBError::SigningFailed(text),
                None => CBError::SigningFailed(String::new()),
            },
        }
    }
}

} // verus!
