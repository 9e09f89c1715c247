//! The error taxonomy: every failure a request can meet is classified
//! into exactly one variant, and each classifying constructor states
//! precisely which message and status code the caller receives.

use vstd::prelude::*;
use vstd::string::StringExecFns;
use crate::text::dec_rep;
use crate::text::push_decimal;

verus! {

/// The classes of failure a request outcome can carry.
///
/// `Unclassified` covers status codes outside the set the remote
/// service documents; its message is fixed and the body is not read.
#[derive(Clone, Copy, Debug, PartialEq, Eq, Structural)]
pub enum ErrorKind {
    /// Network, DNS or TLS failure before any status line was received.
    Transport,
    /// A documented non-2xx status, with the message the service sent.
    Remote,
    /// A 2xx body that did not match the expected schema.
    Decode,
    /// Missing or invalid credential, found before any network call.
    Configuration,
    /// A query parameter that cannot be made into a URL.
    InvalidInput,
    /// A status code outside the documented set.
    Unclassified,
}

/// A raw remote failure: the extracted (or substituted) error message
/// of a non-2xx response body, with the numeric status code.
pub struct RequestError {
    pub message: String,
    pub status: u16,
}

/// The classified failure every public operation returns on the error
/// path: a kind, a human-readable message, and the status code where
/// one was received.
#[derive(Debug)]
pub struct ResponseError {
    pub kind: ErrorKind,
    pub message: String,
    pub code: Option<u16>,
}

/// The string that stands at JSON pointer `path` inside `text`, when
/// `text` parses as JSON and a string sits there; what it is on given
/// values only the codec knows.
pub uninterp spec fn json_string_at(text: Seq<char>, path: Seq<char>) -> Option<Seq<char>>;

/// Relies on serde_json::from_str, serde_json::Value::pointer and
/// serde_json::Value::as_str: whether `text` parses and which string
/// stands at `path` is a function of the two arguments alone.
#[verifier::external_body]
fn lookup_json_string(text: &str, path: &str) -> (r: Option<String>)
    ensures
        match r {
            Some(s) => json_string_at(text@, path@) == Some(s@),
            None => json_string_at(text@, path@) is None,
        },
{
    match serde_json::from_str::<serde_json::Value>(text) {
        Ok(value) => value.pointer(path).and_then(|v| v.as_str()).map(|s| s.to_string()),
        Err(_) => None,
    }
}

/// The message substituted when an error body carries no readable
/// `error.message` field.
pub open spec fn spec_placeholder() -> Seq<char> {
    "Unknown error: Could not process request"@
}

/// The message a `Remote` error carries for the error body `body`:
/// the service's own `error.message` string when the body parses as
/// JSON and holds one, the fixed placeholder otherwise.
pub open spec fn spec_remote_message(body: Seq<char>) -> Seq<char> {
    match json_string_at(body, "/error/message"@) {
        Some(m) => m,
        None => spec_placeholder(),
    }
}

/// The fixed diagnostic of an `Unclassified` error.
pub open spec fn spec_unclassified_message() -> Seq<char> {
    "Unclassified error: unexpected status code"@
}

impl RequestError {
    /// Classifies one non-2xx response: reads `error.message` out of
    /// the body when it is there, substitutes the placeholder when it
    /// is not, and keeps the status code.
    pub fn new(message: String, status: u16) -> (r: Self)
        ensures
            r.status == status,
            r.message@ == spec_remote_message(message@),
    {
        let extracted = lookup_json_string(message.as_str(), "/error/message");
        let msg = match extracted {
            Some(m) => m,
            None => "Unknown error: Could not process request".to_owned(),
        };
        RequestError { message: msg, status }
    }
}

impl ResponseError {
    /// A transport-level failure: no status line was received, so the
    /// error carries the transport's own description and no code.
    pub fn transport(description: String) -> (r: Self)
        ensures
            r.kind == ErrorKind::Transport,
            r.message@ == description@,
            r.code is None,
    {
        ResponseError { kind: ErrorKind::Transport, message: description, code: None }
    }

    /// A 2xx response whose body did not decode into the expected
    /// shape; carries the codec's failure description.
    pub fn decode(description: String) -> (r: Self)
        ensures
            r.kind == ErrorKind::Decode,
            r.message@ == description@,
            r.code is None,
    {
        ResponseError { kind: ErrorKind::Decode, message: description, code: None }
    }

    /// A missing or invalid credential, established before any network
    /// call was issued.
    pub fn configuration(description: String) -> (r: Self)
        ensures
            r.kind == ErrorKind::Configuration,
            r.message@ == description@,
            r.code is None,
    {
        ResponseError { kind: ErrorKind::Configuration, message: description, code: None }
    }

    /// A query parameter that cannot be serialized into a URL.
    pub fn invalid_input(description: String) -> (r: Self)
        ensures
            r.kind == ErrorKind::InvalidInput,
            r.message@ == description@,
            r.code is None,
    {
        ResponseError { kind: ErrorKind::InvalidInput, message: description, code: None }
    }

    /// A status code outside the documented set: the body is not read
    /// and a fixed diagnostic is carried instead.
    pub fn unclassified(status: u16) -> (r: Self)
        ensures
            r.kind == ErrorKind::Unclassified,
            r.message@ == spec_unclassified_message(),
            r.code == Some(status),
    {
        ResponseError {
            kind: ErrorKind::Unclassified,
            message: "Unclassified error: unexpected status code".to_owned(),
            code: Some(status),
        }
    }

    /// The rendering `describe` returns.
    pub open spec fn spec_describe(&self) -> Seq<char> {
        "Error: "@ + self.message@ + ", Code: "@ + match self.code {
            Some(c) => dec_rep(c as nat),
            None => "none"@,
        }
    }

    /// One line naming the message and, when one was received, the
    /// status code.
    pub fn describe(&self) -> (r: String)
        ensures
            r@ == self.spec_describe(),
    {
        let mut out = "Error: ".to_owned();
        out.append(self.message.as_str());
        out.append(", Code: ");
        match self.code {
            Some(c) => push_decimal(&mut out, c),
            None => out.append("none"),
        }
        proof {
            assert(out@ =~= self.spec_describe());
        }
        out
    }
}

impl From<RequestError> for ResponseError {
    /// A raw remote failure becomes a `Remote` error with the same
    /// message and its status code.
    fn from(error: RequestError) -> (r: Self) {
        ResponseError { kind: ErrorKind::Remote, message: error.message, code: Some(error.status) }
    }
}

impl vstd::std_specs::convert::FromSpecImpl<RequestError> for ResponseError {
    open spec fn obeys_from_spec() -> bool {
        true
    }

    open spec fn from_spec(error: RequestError) -> Self {
        ResponseError { kind: ErrorKind::Remote, message: error.message, code: Some(error.status) }
    }
}

} // verus!
