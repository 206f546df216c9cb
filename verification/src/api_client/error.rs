//! What can go wrong with a request.

use crate::text::{i64_to_decimal, int_text};
use vstd::prelude::*;
use vstd::string::*;

verus! {

/// An error that might happen when communicating with the Neos API
#[derive(Debug, Clone, PartialEq, Eq)]
pub enum RequestError {
    /// The response code of the request indicated a failure.
    ResponseCode(i32, String),
    /// The response data could not be de-serialized.
    Deserialization(String),
    /// An unexpected/unknown/other error happened.
    Other(String),
}

/// The mathematical value of a [`RequestError`].
pub enum RequestErrorView {
    ResponseCode(i32, Seq<char>),
    Deserialization(Seq<char>),
    Other(Seq<char>),
}

impl View for RequestError {
    type V = RequestErrorView;

    open spec fn view(&self) -> RequestErrorView {
        match self {
            RequestError::ResponseCode(code, body) => RequestErrorView::ResponseCode(*code, body@),
            RequestError::Deserialization(message) => RequestErrorView::Deserialization(message@),
            RequestError::Other(message) => RequestErrorView::Other(message@),
        }
    }
}

/// The kinds of failure that a transport or a decoder reports.
#[derive(Debug, Clone, Copy, PartialEq, Eq, Structural)]
pub enum FailureKind {
    /// The response held invalid UTF-8 where text was due, such as in its
    /// headers.
    InvalidUtf8InResponse,
    /// The body of the response is not valid UTF-8.
    InvalidUtf8InBody,
    /// A document could not be read as, or written as, JSON.
    SerdeJson,
    /// Any other failure: of the network, of TLS, a timeout, a redirect
    /// that leads nowhere, a request that could not be built.
    Other,
}

impl FailureKind {
    /// Whether the failure is one of data that could not be decoded.
    pub open spec fn is_decoding(self) -> bool {
        self is InvalidUtf8InResponse || self is InvalidUtf8InBody || self is SerdeJson
    }
}

impl RequestError {
    /// The error for a failure of a given kind: a de-serialization error
    /// where data could not be decoded, another error otherwise. Either
    /// carries the message.
    pub fn from_kind(kind: FailureKind, message: String) -> (r: RequestError)
        ensures
            r@ == (match kind {
                FailureKind::InvalidUtf8InResponse => RequestErrorView::Deserialization(message@),
                FailureKind::InvalidUtf8InBody => RequestErrorView::Deserialization(message@),
                FailureKind::SerdeJson => RequestErrorView::Deserialization(message@),
                FailureKind::Other => RequestErrorView::Other(message@),
            }),
            r is Deserialization <==> kind.is_decoding(),
    {
        match kind {
            FailureKind::InvalidUtf8InResponse => RequestError::Deserialization(message),
            FailureKind::InvalidUtf8InBody => RequestError::Deserialization(message),
            FailureKind::SerdeJson => RequestError::Deserialization(message),
            FailureKind::Other => RequestError::Other(message),
        }
    }

    /// The status code that the server answered with, where the error is one
    /// of a response code.
    pub fn status_code(&self) -> (r: Option<i32>)
        ensures
            r == (match self@ {
                RequestErrorView::ResponseCode(code, _) => Some(code),
                _ => None,
            }),
    {
        match self {
            RequestError::ResponseCode(code, _) => Some(*code),
            _ => None,
        }
    }

    /// What the error reads as: `RequestError: `, then for a response code
    /// `Status code `, the code, ` - ` and the body, and for the others
    /// their message.
    pub open spec fn message_of(self) -> Seq<char> {
        match self@ {
            RequestErrorView::ResponseCode(code, body) => "RequestError: Status code "@
                + int_text(code as int) + " - "@ + body,
            RequestErrorView::Deserialization(message) => "RequestError: "@ + message,
            RequestErrorView::Other(message) => "RequestError: "@ + message,
        }
    }

    /// The error as a line of text.
    pub fn message(&self) -> (r: String)
        ensures
            r@ == self.message_of(),
    {
        match self {
            RequestError::ResponseCode(code, body) => {
                let digits = i64_to_decimal(*code as i64);
                let mut r = String::from_str("RequestError: Status code ");
                r.append(digits.as_str());
                r.append(" - ");
                r.append(body.as_str());
                r
            },
            RequestError::Deserialization(message) => {
                let mut r = String::from_str("RequestError: ");
                r.append(message.as_str());
                r
            },
            RequestError::Other(message) => {
                let mut r = String::from_str("RequestError: ");
                r.append(message.as_str());
                r
            },
        }
    }
}

} // verus!
