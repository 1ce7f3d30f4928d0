//! The errors of the client.
use crate::utils::helper::{decimal, decimal_spec};
use vstd::prelude::*;
use vstd::std_specs::convert::FromSpecImpl;
use vstd::string::*;

verus! {

/// `reqwest::Error`, carried through as it is.
#[verifier::external_type_specification]
#[verifier::external_body]
pub struct ExTransportError(reqwest::Error);

/// What can go wrong in a call of the client.
///
/// A caller can tell a failure of the transport from a rejection by the
/// server and from a reply that could not be understood. Elements of an
/// output that do not decode are no error: they are left out.
#[derive(Debug)]
pub enum TrustonError {
    /// The request could not be completed at the transport level.
    Http(reqwest::Error),
    /// The readiness endpoint answered with a status outside 2xx.
    ServerError { status: u16, message: String },
    /// The inference endpoint answered with a status outside 2xx; the body
    /// of the reply is carried as it came.
    InferenceError(String),
    /// The body of a 2xx reply did not have the expected shape.
    ParseError(String),
}

impl From<reqwest::Error> for TrustonError {
    fn from(e: reqwest::Error) -> (r: Self) {
        TrustonError::Http(e)
    }
}

impl FromSpecImpl<reqwest::Error> for TrustonError {
    open spec fn obeys_from_spec() -> bool {
        true
    }

    open spec fn from_spec(e: reqwest::Error) -> Self {
        TrustonError::Http(e)
    }
}

/// The text that a `reqwest::Error` displays as.
pub uninterp spec fn transport_text(e: reqwest::Error) -> Seq<char>;

/// `to_string` on a `reqwest::Error`: the text of its `Display`. Nothing is
/// claimed of the text but that it is that of this error.
#[verifier::external_body]
fn display_transport(e: &reqwest::Error) -> (r: String)
    ensures
        r@ == transport_text(*e),
{
    e.to_string()
}

impl TrustonError {
    /// The message of the error: what kind it is, then what it carries.
    pub open spec fn message_spec(&self) -> Seq<char> {
        match *self {
            TrustonError::Http(e) => "HTTP error: "@ + transport_text(e),
            TrustonError::ServerError { status, message } => "Server error "@ + decimal_spec(
                status as nat,
            ) + ": "@ + message@,
            TrustonError::InferenceError(msg) => "Inference error: "@ + msg@,
            TrustonError::ParseError(msg) => "Parse error: "@ + msg@,
        }
    }

    /// The message of the error, for display.
    pub fn message(&self) -> (r: String)
        ensures
            r@ == self.message_spec(),
    {
        match self {
            TrustonError::Http(e) => {
                let text = display_transport(e);
                String::from_str("HTTP error: ").concat(text.as_str())
            },
            TrustonError::ServerError { status, message } => {
                let code = decimal(*status);
                String::from_str("Server error ").concat(code.as_str()).concat(": ").concat(
                    message.as_str(),
                )
            },
            TrustonError::InferenceError(msg) => String::from_str("Inference error: ").concat(
                msg.as_str(),
            ),
            TrustonError::ParseError(msg) => String::from_str("Parse error: ").concat(msg.as_str()),
        }
    }
}

} // verus!
