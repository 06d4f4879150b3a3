//! The relay's decisions: configuration checking, outbound request
//! preparation, interpretation of the upstream reply, and the mapping of
//! every outcome to the inbound HTTP reply.
//!
//! The network itself stays outside: callers make the one outbound POST and
//! hand its status and body back to [`interpret_response`].

use vstd::prelude::*;

use crate::json::{extract_text, json_of, parse_json, text_at_path, JsonValue};
use crate::payload::{build_payload, build_request_url, payload_of, request_url_of};
use crate::spec_status_is_success;
use crate::status_is_success;
use crate::text::{json_string, json_string_of};

verus! {

/// Every way a relayed request can fail. All of them reach the caller as an
/// HTTP 500 with the message of [`RelayError::message`].
#[derive(Debug, PartialEq, Eq)]
pub enum RelayError {
    /// The upstream URL or the API key is not configured.
    ConfigMissing,
    /// The outbound call failed at the transport, with the transport's own
    /// description.
    NetworkFailure(String),
    /// The upstream answered with a non-success status; carries that status
    /// and the upstream's raw body text.
    UpstreamError(u16, String),
    /// The upstream's success body was not valid JSON.
    ParseError,
    /// The upstream's success body was JSON without a text at
    /// `candidates[0].content.parts[0].text`.
    InvalidResponseShape,
}

impl RelayError {
    /// The human-readable message each failure reaches the caller with.
    pub open spec fn spec_message(self) -> Seq<char> {
        match self {
            RelayError::ConfigMissing => "upstream URL or API key is not configured"@,
            RelayError::NetworkFailure(m) => "request to upstream failed: "@ + m@,
            RelayError::UpstreamError(_, body) => "API call failed with error: "@ + body@,
            RelayError::ParseError => "upstream response was not valid JSON"@,
            RelayError::InvalidResponseShape => "Invalid response format"@,
        }
    }

    /// Renders the failure as its message.
    pub fn message(&self) -> (r: String)
        ensures
            r@ == self.spec_message(),
    {
        match self {
            RelayError::ConfigMissing => String::from_str(
                "upstream URL or API key is not configured",
            ),
            RelayError::NetworkFailure(m) => {
                let mut out = String::from_str("request to upstream failed: ");
                out.append(m.as_str());
                out
            },
            RelayError::UpstreamError(_, body) => {
                let mut out = String::from_str("API call failed with error: ");
                out.append(body.as_str());
                out
            },
            RelayError::ParseError => String::from_str("upstream response was not valid JSON"),
            RelayError::InvalidResponseShape => String::from_str("Invalid response format"),
        }
    }
}

/// The two values the relay is configured with.
pub struct Config {
    /// The upstream endpoint the prompt is forwarded to.
    pub url: String,
    /// The API key passed to the upstream as a query parameter.
    pub key: String,
}

/// Checks the configuration once, before anything else happens: both values
/// must be present, else the request fails with [`RelayError::ConfigMissing`]
/// and no outbound call is to be made.
pub fn load_config(url: Option<String>, key: Option<String>) -> (r: Result<Config, RelayError>)
    ensures
        match r {
            Ok(c) => url == Some(c.url) && key == Some(c.key),
            Err(e) => e == RelayError::ConfigMissing && (url is None || key is None),
        },
{
    match (url, key) {
        (Some(u), Some(k)) => Ok(Config { url: u, key: k }),
        _ => Err(RelayError::ConfigMissing),
    }
}

/// The one outbound call a relayed request makes: its target URL and its
/// JSON body.
pub struct OutboundRequest {
    /// The configured URL with the API key as its one query parameter.
    pub url: String,
    /// The JSON payload embedding the instruction-wrapped prompt.
    pub body: String,
}

/// Prepares the single outbound request for a prompt.
pub fn prepare_request(config: &Config, prompt: &str) -> (r: OutboundRequest)
    ensures
        r.url@ == request_url_of(config.url@, config.key@),
        r.body@ == payload_of(prompt@),
{
    OutboundRequest {
        url: build_request_url(config.url.as_str(), config.key.as_str()),
        body: build_payload(prompt),
    }
}

/// The extracted text with its last two characters removed, clamped to the
/// empty text when fewer than two are there.
pub open spec fn trim_last_two_spec(t: Seq<char>) -> Seq<char> {
    if t.len() >= 2 {
        t.subrange(0, t.len() - 2)
    } else {
        Seq::empty()
    }
}

/// Removes the last two characters of a text, clamping to empty.
pub fn trim_last_two(t: &str) -> (r: String)
    ensures
        r@ == trim_last_two_spec(t@),
{
    let n = t.unicode_len();
    if n >= 2 {
        String::from_str(t.substring_char(0, n - 2))
    } else {
        let r = String::new();
        proof {
            assert(r@ =~= trim_last_two_spec(t@));
        }
        r
    }
}

/// Parses an upstream success body, mapping the parser's failure to
/// [`RelayError::ParseError`].
pub fn parse_response_body(body: &str) -> (r: Result<JsonValue, RelayError>)
    ensures
        match r {
            Ok(v) => json_of(body@) == Some(v),
            Err(e) => json_of(body@) is None && e == RelayError::ParseError,
        },
{
    match parse_json(body) {
        Ok(v) => Ok(v),
        Err(_) => Err(RelayError::ParseError),
    }
}

/// What [`interpret_response`] returns for an upstream status and body:
/// a non-success status carries the upstream body out as
/// [`RelayError::UpstreamError`]; a success body that the parser rejects is
/// [`RelayError::ParseError`]; parsed JSON without the expected text path is
/// [`RelayError::InvalidResponseShape`]; and a present text comes back with
/// its last two characters trimmed off.
pub open spec fn response_outcome_matches(
    status: u16,
    body: Seq<char>,
    r: Result<String, RelayError>,
) -> bool {
    if !spec_status_is_success(status) {
        r matches Err(RelayError::UpstreamError(s, b)) && s == status && b@ == body
    } else {
        match json_of(body) {
            None => r == Err::<String, RelayError>(RelayError::ParseError),
            Some(doc) => match text_at_path(doc) {
                None => r == Err::<String, RelayError>(RelayError::InvalidResponseShape),
                Some(t) => r matches Ok(out) && out@ == trim_last_two_spec(t),
            },
        }
    }
}

/// Turns the upstream's status and raw body into the relay's result, as
/// [`response_outcome_matches`] describes.
pub fn interpret_response(status: u16, body: String) -> (r: Result<String, RelayError>)
    ensures
        response_outcome_matches(status, body@, r),
{
    if !status_is_success(status) {
        return Err(RelayError::UpstreamError(status, body));
    }
    match parse_response_body(body.as_str()) {
        Err(e) => Err(e),
        Ok(doc) => match extract_text(&doc) {
            None => Err(RelayError::InvalidResponseShape),
            Some(t) => Ok(trim_last_two(t.as_str())),
        },
    }
}

/// Maps the relay's result to the inbound HTTP reply: a success is a 200
/// whose body is the text as a JSON string literal, and every failure is a
/// 500 carrying the failure's message.
pub fn http_reply(outcome: &Result<String, RelayError>) -> (r: (u16, String))
    ensures
        match outcome {
            Ok(t) => r.0 == 200 && r.1@ == json_string_of(t@),
            Err(e) => r.0 == 500 && r.1@ == e.spec_message(),
        },
{
    match outcome {
        Ok(t) => (200, json_string(t.as_str())),
        Err(e) => (500, e.message()),
    }
}

} // verus!
