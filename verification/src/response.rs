//! Interpreting the outcome of the network step and rendering the one
//! report line a run prints.

use vstd::prelude::*;
use vstd::string::StringExecFns;
use crate::json::{
    CurrentData, ErrorPayload, check_json, parse_error_payload, parse_weather_payload,
    spec_error_payload, spec_json_check, spec_weather_payload,
};

verus! {

/// The stream a report line belongs on.
#[derive(Clone, Copy, Debug, PartialEq, Eq, Structural)]
pub enum Channel {
    Stdout,
    Stderr,
}

/// The single terminal outcome of a run: one line, and the stream it goes
/// to.
#[derive(Debug)]
pub struct Report {
    pub channel: Channel,
    pub line: String,
}

/// What the network step handed back: a transport failure before any
/// response, a failure reading the body after the headers, or a full
/// response.
pub enum FetchOutcome {
    RequestFailed { detail: String },
    BodyReadFailed { detail: String },
    Received { status: u16, body: String },
}

/// The client-error status class: 4xx.
pub open spec fn spec_is_client_error(status: u16) -> bool {
    400 <= status < 500
}

/// Classifies an HTTP status code: client error (4xx) or anything else.
/// Statuses outside 2xx and 4xx deliberately fall on the success side, as
/// the upstream behaviour this client follows does.
pub fn is_client_error(status: u16) -> (r: bool)
    ensures
        r == spec_is_client_error(status),
{
    400 <= status && status < 500
}

/// The rendering of a boolean flag.
pub open spec fn spec_bool_chars(b: bool) -> Seq<char> {
    if b {
        "true"@
    } else {
        "false"@
    }
}

/// The report line for a deserialized error payload.
pub open spec fn spec_error_line(error: bool, reason: Seq<char>) -> Seq<char> {
    "Error 400++: error = "@ + spec_bool_chars(error) + ", reason = "@ + reason
}

/// The report line for a deserialized weather payload.
pub open spec fn spec_success_line(time: Seq<char>, temperature: Seq<char>) -> Seq<char> {
    "Success 200++: time = "@ + time + ", temperature = "@ + temperature
}

/// The detail appended when a non-client-error body does not deserialize as
/// weather: the syntax fault where the body is not JSON at all, a fixed
/// schema complaint otherwise.
pub open spec fn spec_weather_detail(body: Seq<char>) -> Seq<char> {
    match spec_json_check(body) {
        Ok(_) => "body does not match the weather schema"@,
        Err(d) => d,
    }
}

/// The interpretation of a received response, at the specification level:
/// the stream and the line printed for a given status and body.
///
/// A 4xx status is read against the error schema; the payload is reported,
/// or a generic complaint where the body does not match (the underlying
/// fault is deliberately swallowed on this branch). Every other status is
/// read against the success schema; the current record is reported, or a
/// complaint carrying the fault's detail.
pub open spec fn spec_interpret(status: u16, body: Seq<char>) -> (Channel, Seq<char>) {
    if spec_is_client_error(status) {
        match spec_error_payload(body) {
            Some(p) => (Channel::Stderr, spec_error_line(p.0, p.1)),
            None => (Channel::Stderr, "Failed to parse API error response"@),
        }
    } else {
        match spec_weather_payload(body) {
            Some(c) => (Channel::Stdout, spec_success_line(c.0, c.1)),
            None => (Channel::Stderr, "Failed to parse weather response: "@ + spec_weather_detail(body)),
        }
    }
}

/// The interpretation of a fetch outcome, at the specification level. A
/// transport failure and a body-read failure each map to their own
/// diagnostic; a received response is interpreted against the schemas.
pub open spec fn spec_report_of_fetch(f: FetchOutcome) -> (Channel, Seq<char>) {
    match f {
        FetchOutcome::RequestFailed { detail } => (
            Channel::Stderr,
            "Error occurred while requesting API: "@ + detail@,
        ),
        FetchOutcome::BodyReadFailed { detail } => (
            Channel::Stderr,
            "Failed to read response text: "@ + detail@,
        ),
        FetchOutcome::Received { status, body } => spec_interpret(status, body@),
    }
}

/// Joins a fixed prefix and a detail into one line.
fn prefixed(prefix: &str, rest: &str) -> (r: String)
    ensures
        r@ == prefix@ + rest@,
{
    let mut r = prefix.to_owned();
    r.append(rest);
    r
}

/// Renders the rendering of a boolean flag.
fn bool_str(b: bool) -> (r: &'static str)
    ensures
        r@ == spec_bool_chars(b),
{
    if b {
        "true"
    } else {
        "false"
    }
}

/// Renders the report line for a deserialized error payload.
fn render_error_line(p: &ErrorPayload) -> (r: String)
    ensures
        r@ == spec_error_line(p.error, p.reason@),
{
    let mut r = "Error 400++: error = ".to_owned();
    r.append(bool_str(p.error));
    r.append(", reason = ");
    r.append(p.reason.as_str());
    r
}

/// Renders the report line for a deserialized weather payload.
fn render_success_line(c: &CurrentData) -> (r: String)
    ensures
        r@ == spec_success_line(c.time@, c.temperature@),
{
    let mut r = "Success 200++: time = ".to_owned();
    r.append(c.time.as_str());
    r.append(", temperature = ");
    r.append(c.temperature.as_str());
    r
}

/// Interprets a received response: dispatches on the status class, reads
/// the body against the matching schema, and renders the one report line.
pub fn interpret_response(status: u16, body: &str) -> (r: Report)
    ensures
        r.channel == spec_interpret(status, body@).0,
        r.line@ == spec_interpret(status, body@).1,
{
    if is_client_error(status) {
        match parse_error_payload(body) {
            Some(p) => Report { channel: Channel::Stderr, line: render_error_line(&p) },
            None => Report {
                channel: Channel::Stderr,
                line: "Failed to parse API error response".to_owned(),
            },
        }
    } else {
        match parse_weather_payload(body) {
            Some(c) => Report { channel: Channel::Stdout, line: render_success_line(&c) },
            None => {
                let detail = match check_json(body) {
                    Ok(_) => "body does not match the weather schema".to_owned(),
                    Err(d) => d,
                };
                Report {
                    channel: Channel::Stderr,
                    line: prefixed("Failed to parse weather response: ", detail.as_str()),
                }
            },
        }
    }
}

/// Interprets the outcome of the network step. A transport failure is
/// reported as such and no body is ever read against a schema (a failed
/// request carries none); a received response is interpreted against the
/// schemas.
pub fn interpret_fetch(f: &FetchOutcome) -> (r: Report)
    ensures
        r.channel == spec_report_of_fetch(*f).0,
        r.line@ == spec_report_of_fetch(*f).1,
{
    match f {
        FetchOutcome::RequestFailed { detail } => Report {
            channel: Channel::Stderr,
            line: prefixed("Error occurred while requesting API: ", detail.as_str()),
        },
        FetchOutcome::BodyReadFailed { detail } => Report {
            channel: Channel::Stderr,
            line: prefixed("Failed to read response text: ", detail.as_str()),
        },
        FetchOutcome::Received { status, body } => interpret_response(*status, body.as_str()),
    }
}

/// The diagnostic for a built URL that fails validation, reported before
/// any network activity.
pub fn url_error_report(detail: &str) -> (r: Report)
    ensures
        r.channel == Channel::Stderr,
        r.line@ == "Error parsing URL: "@ + detail@,
{
    Report { channel: Channel::Stderr, line: prefixed("Error parsing URL: ", detail) }
}

/// The interpretation of a response is a function of the status and the
/// body text alone: two runs that receive the same status and the same
/// body print the same line on the same stream. With a stable upstream
/// response, repeated runs over the same coordinates therefore print
/// identically.
pub proof fn lemma_interpret_deterministic(
    status1: u16,
    body1: Seq<char>,
    status2: u16,
    body2: Seq<char>,
)
    requires
        status1 == status2,
        body1 == body2,
    ensures
        spec_interpret(status1, body1) == spec_interpret(status2, body2),
{
}

} // verus!
