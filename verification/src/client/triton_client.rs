//! The REST client: where requests go, and what a reply means.
//!
//! The client holds the base URL and nothing that changes, so it can be
//! shared freely between callers. It makes no request itself: it says which
//! URL a request goes to and what body it carries, and decides from the
//! status and body of a reply what the caller gets. Each call is one
//! request; nothing is tried twice.
use crate::client::codec::{convert_outputs, output_decodings};
use crate::client::io::{InferResponse, InferResults};
use crate::client::narrow::kept;
use crate::utils::errors::TrustonError;
use crate::utils::helper::{decimal, decimal_spec};
use vstd::prelude::*;
use vstd::string::*;

verus! {

/// The bound on the time of one request, in seconds.
pub const REQUEST_TIMEOUT_SECS: u64 = 5;

/// Whether a status is one of success: 200 to 299.
pub open spec fn is_success_spec(status: u16) -> bool {
    200 <= status < 300
}

/// Whether a status is one of success.
pub fn is_success(status: u16) -> (r: bool)
    ensures
        r == is_success_spec(status),
{
    200 <= status && status < 300
}

/// The text of a body, or the placeholder where it could not be read.
pub open spec fn body_or(body: Option<String>, placeholder: Seq<char>) -> Seq<char> {
    match body {
        Some(text) => text@,
        None => placeholder,
    }
}

/// The message of a failed readiness check.
pub open spec fn unhealthy_message(status: u16, body: Option<String>) -> Seq<char> {
    "Server is dead or unhealthy. Status: "@ + decimal_spec(status as nat)
        + ". Response body: "@ + body_or(body, "No response body"@)
}

/// A client of one server.
pub struct TritonRestClient {
    base_url: String,
}

impl TritonRestClient {
    /// A client of the server at `base_url`.
    pub fn new(base_url: &str) -> (r: Self)
        ensures
            r.base_url_spec() == base_url@,
    {
        TritonRestClient { base_url: String::from_str(base_url) }
    }

    /// The base URL that the client was made with.
    pub closed spec fn base_url_spec(&self) -> Seq<char> {
        self.base_url@
    }

    /// The base URL that the client was made with.
    pub fn base_url(&self) -> (r: &str)
        ensures
            r@ == self.base_url_spec(),
    {
        self.base_url.as_str()
    }

    /// The URL of the readiness check.
    pub fn health_url(&self) -> (url: String)
        ensures
            url@ == self.base_url_spec() + "/v2/health/ready"@,
    {
        self.base_url.clone().concat("/v2/health/ready")
    }

    /// The URL of the inference endpoint of a model.
    pub fn infer_url(&self, model_name: &str) -> (url: String)
        ensures
            url@ == self.base_url_spec() + "/v2/models/"@ + model_name@ + "/infer"@,
    {
        self.base_url.clone().concat("/v2/models/").concat(model_name).concat("/infer")
    }

    /// What a reply to the readiness check means.
    ///
    /// A status of success means that the server is live. Any other status
    /// is an error that carries the status and a message with the status and
    /// the body of the reply, or a placeholder where the body could not be
    /// read. A server that answers is never reported as `Ok(false)`.
    pub fn live_reply(status: u16, body: Option<String>) -> (r: Result<bool, TrustonError>)
        ensures
            is_success_spec(status) ==> r == Ok::<bool, TrustonError>(true),
            !is_success_spec(status) ==> (r matches Err(
                TrustonError::ServerError { status: s, message: m },
            ) && s == status && m@ == unhealthy_message(status, body)),
    {
        if is_success(status) {
            Ok(true)
        } else {
            let code = decimal(status);
            let head = String::from_str("Server is dead or unhealthy. Status: ").concat(
                code.as_str(),
            ).concat(". Response body: ");
            let message = match &body {
                Some(text) => head.concat(text.as_str()),
                None => head.concat("No response body"),
            };
            Err(TrustonError::ServerError { status, message })
        }
    }

    /// The error for an inference request that the server answered with a
    /// status outside 2xx: it carries the body of the reply as it came, or
    /// a placeholder where the body could not be read.
    pub fn infer_rejection(body: Option<String>) -> (r: TrustonError)
        ensures
            r matches TrustonError::InferenceError(m) && m@ == body_or(
                body,
                "Unknown error body"@,
            ),
    {
        match body {
            Some(text) => TrustonError::InferenceError(text),
            None => TrustonError::InferenceError(String::from_str("Unknown error body")),
        }
    }

    /// What the body of an accepted inference request means: where it did
    /// not parse, the error with the parser's message; else the outputs
    /// that decode, in the server's order.
    pub fn infer_completion(parsed: Result<InferResponse, String>) -> (r: Result<
        InferResults,
        TrustonError,
    >)
        ensures
            match parsed {
                Ok(response) => r matches Ok(results) && results@ == kept(
                    output_decodings(response.outputs@),
                ) && results@.len() <= response.outputs@.len(),
                Err(why) => r matches Err(TrustonError::ParseError(m)) && m@ == why@,
            },
    {
        match parsed {
            Ok(response) => Ok(convert_outputs(&response)),
            Err(why) => Err(TrustonError::ParseError(why)),
        }
    }
}

} // verus!
