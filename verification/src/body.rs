//! Error bodies and the typed request errors.  The body of an error response
//! is captured once: re-serialized with indentation when the response
//! declared a JSON content type, kept raw otherwise, dropped when empty.

use vstd::prelude::*;

use crate::method::Method;
use crate::text::str_eq;

verus! {

/// The type, subtype, and optional suffix of a media type, when the text
/// parses as one; the mime parser stores them lowercased
pub uninterp spec fn mime_parts_of(s: Seq<char>) -> Option<
    (Seq<char>, Seq<char>, Option<Seq<char>>),
>;

/// Relies on mime's `FromStr for Mime`, `Mime::type_`, `Mime::subtype` and
/// `Mime::suffix`: parses a media type and takes it apart; parsing
/// lowercases the names, and the result depends on the text alone.
#[verifier::external_body]
fn parse_mime_parts(s: &str) -> (r: Option<(String, String, Option<String>)>)
    ensures
        r is Some <==> mime_parts_of(s@) is Some,
        r matches Some(p) ==> (mime_parts_of(s@) matches Some(q) && q.0 == p.0@ && q.1 == p.1@
            && q.2 == p.2.deep_view()),
{
    let ct = s.parse::<mime::Mime>().ok()?;
    Some(
        (
            ct.type_().as_str().to_owned(),
            ct.subtype().as_str().to_owned(),
            ct.suffix().map(|n| n.as_str().to_owned()),
        ),
    )
}

/// Whether a `Content-Type` value denotes a JSON payload: its type is
/// `application` and its subtype is `json` or carries a `+json` suffix
pub open spec fn spec_is_json_content_type(s: Seq<char>) -> bool {
    match mime_parts_of(s) {
        Some(p) => p.0 == "application"@ && (p.1 == "json"@ || p.2 == Some("json"@)),
        None => false,
    }
}

/// Given the value of a `Content-Type` header, returns `true` if the value
/// is for a JSON payload
pub fn is_json_content_type(ct_value: &str) -> (r: bool)
    ensures
        r == spec_is_json_content_type(ct_value@),
{
    match parse_mime_parts(ct_value) {
        Some((t, sub, suffix)) => str_eq(t.as_str(), "application") && (str_eq(
            sub.as_str(),
            "json",
        ) || (match &suffix {
            Some(x) => str_eq(x.as_str(), "json"),
            None => false,
        })),
        None => false,
    }
}

/// The indented re-serialization of `s`, when `s` is a valid JSON document
pub uninterp spec fn pretty_json_of(s: Seq<char>) -> Option<Seq<char>>;

/// Relies on `serde_json::from_str` and `serde_json::to_string_pretty`:
/// when `s` is a valid JSON document, re-serializes it with human-readable
/// indentation, preserving its structure.  The result depends on the text
/// alone.
#[verifier::external_body]
fn pretty_print_json(s: &str) -> (r: Option<String>)
    ensures
        r is Some <==> pretty_json_of(s@) is Some,
        r matches Some(p) ==> pretty_json_of(s@) == Some(p@),
{
    let value = serde_json::from_str::<serde_json::Value>(s).ok()?;
    serde_json::to_string_pretty(&value).ok()
}

/// The body text kept on a status error.  A body whose response declared a
/// JSON content type is re-serialized with indentation, falling back to the
/// raw text when it does not parse; any other body is kept as it is; an
/// empty or unread body yields nothing.
pub open spec fn spec_capture_body(
    content_type: Option<Seq<char>>,
    body: Option<Seq<char>>,
) -> Option<Seq<char>> {
    match body {
        None => None,
        Some(text) => {
            let json = content_type matches Some(ct) && spec_is_json_content_type(ct);
            if json && pretty_json_of(text) is Some {
                pretty_json_of(text)
            } else if text.len() == 0 {
                None
            } else {
                Some(text)
            }
        },
    }
}

/// Capture the body of an error response, pretty-printing it when the
/// response declared a JSON content type
pub fn capture_body(content_type: Option<&str>, body: Option<String>) -> (r: Option<String>)
    ensures
        r.deep_view() == spec_capture_body(content_type.deep_view(), body.deep_view()),
{
    match body {
        None => None,
        Some(text) => {
            let json: bool = match content_type {
                Some(ct) => is_json_content_type(ct),
                None => false,
            };
            if json {
                match pretty_print_json(text.as_str()) {
                    Some(pretty) => {
                        return Some(pretty);
                    },
                    None => {},
                }
            }
            if text.unicode_len() == 0 {
                None
            } else {
                Some(text)
            }
        },
    }
}

/// Error for a response that came back with a 4xx or 5xx status code
#[derive(Clone, Debug, PartialEq, Eq)]
pub struct StatusError {
    /// The HTTP method of the attempted request
    pub method: Method,
    /// The URL to which the request was sent
    pub url: String,
    /// The response's status code
    pub status: u16,
    /// The response body, if read successfully and nonempty.  If the
    /// response's headers indicated the body was JSON, it is pretty-printed.
    pub body: Option<String>,
}

impl StatusError {
    /// Build the error for an error response, capturing its body as
    /// `spec_capture_body` states
    pub fn from_response(
        method: Method,
        url: String,
        status: u16,
        content_type: Option<&str>,
        body: Option<String>,
    ) -> (r: StatusError)
        ensures
            r.method == method,
            r.url == url,
            r.status == status,
            r.body.deep_view() == spec_capture_body(content_type.deep_view(), body.deep_view()),
    {
        let captured = capture_body(content_type, body);
        StatusError { method, url, status, body: captured }
    }

    /// If a nonempty response body was read, return the body
    pub fn body(&self) -> (r: Option<&str>)
        ensures
            r.deep_view() == self.body.deep_view(),
    {
        match &self.body {
            Some(s) => Some(s.as_str()),
            None => None,
        }
    }
}

/// Error returned when an HTTP request fails
#[derive(Clone, Debug, PartialEq, Eq)]
pub enum RequestError {
    /// Failed to construct a valid URL from a given path
    Path {
        /// The supplied path value
        path: String,
    },
    /// Failed to perform the HTTP request: the transport kept failing until
    /// the retry budget ran out
    Send {
        /// The HTTP method of the attempted request
        method: Method,
        /// The URL to which the request was sent
        url: String,
    },
    /// The server returned a 4xx or 5xx status code
    Status(StatusError),
    /// Failed to deserialize the response body as JSON
    Deserialize {
        /// The HTTP method of the attempted request
        method: Method,
        /// The URL to which the request was sent
        url: String,
    },
}

impl RequestError {
    /// If the request failed due to a 4xx or 5xx response, and a nonempty
    /// response body was read, return the body
    pub fn body(&self) -> (r: Option<&str>)
        ensures
            r.deep_view() == (match self {
                RequestError::Status(stat) => stat.body.deep_view(),
                _ => None::<Seq<char>>,
            }),
    {
        if let RequestError::Status(stat) = self {
            stat.body()
        } else {
            None
        }
    }
}

} // verus!
