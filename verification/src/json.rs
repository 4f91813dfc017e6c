//! Deserializing the two response body schemas.
//!
//! The upstream API answers either with a success payload
//! `{"current":{"time":...,"temperature_2m":...}}` or, on a client error,
//! with `{"error":...,"reason":...}`. Both readings are tolerant: fields
//! beyond the schema are ignored. The JSON reading itself is done by
//! serde_json behind trusted wrappers; everything downstream of the
//! extracted plain values is verified.

use vstd::prelude::*;

verus! {

/// The error payload of a client-error response.
pub struct ErrorPayload {
    pub error: bool,
    pub reason: String,
}

/// The current-conditions record of a success response. The temperature is
/// carried as the decimal rendering of the JSON number.
pub struct CurrentData {
    pub time: String,
    pub temperature: String,
}

/// What tolerant deserialization of the error schema `{error, reason}`
/// yields from a body: the flag and the reason, or `None` where the body is
/// not a JSON object carrying both fields with those types. A function of
/// the characters alone.
pub uninterp spec fn spec_error_payload(body: Seq<char>) -> Option<(bool, Seq<char>)>;

/// What tolerant deserialization of the success schema
/// `{current: {time, temperature_2m}}` yields from a body: the time string
/// and the decimal rendering of the temperature number, or `None` where the
/// body does not match that shape. A function of the characters alone.
pub uninterp spec fn spec_weather_payload(body: Seq<char>) -> Option<(Seq<char>, Seq<char>)>;

/// Whether the body is well-formed JSON at all and, where it is not,
/// serde_json's rendering of the syntax fault. A function of the characters
/// alone.
pub uninterp spec fn spec_json_check(body: Seq<char>) -> Result<(), Seq<char>>;

/// Relies on serde_json (`from_str` for `Value`, `Value::get`,
/// `Value::as_bool`, `Value::as_str`): reads the `error` and `reason`
/// fields as tolerant deserialization of the error schema would, ignoring
/// fields beyond the schema.
#[verifier::external_body]
pub(crate) fn parse_error_payload(body: &str) -> (r: Option<ErrorPayload>)
    ensures
        match r {
            Some(p) => spec_error_payload(body@) == Some((p.error, p.reason@)),
            None => spec_error_payload(body@) is None,
        },
{
    let v: serde_json::Value = serde_json::from_str(body).ok()?;
    let error = v.get("error")?.as_bool()?;
    let reason = v.get("reason")?.as_str()?.to_owned();
    Some(ErrorPayload { error, reason })
}

/// Relies on serde_json (`from_str` for `Value`, `Value::get`,
/// `Value::as_str`, `Value::as_number` and `Number`'s decimal rendering):
/// reads the `time` and `temperature_2m` fields of the `current` object as
/// tolerant deserialization of the success schema would, ignoring fields
/// beyond the schema.
#[verifier::external_body]
pub(crate) fn parse_weather_payload(body: &str) -> (r: Option<CurrentData>)
    ensures
        match r {
            Some(c) => spec_weather_payload(body@) == Some((c.time@, c.temperature@)),
            None => spec_weather_payload(body@) is None,
        },
{
    let v: serde_json::Value = serde_json::from_str(body).ok()?;
    let current = v.get("current")?;
    let time = current.get("time")?.as_str()?.to_owned();
    let temperature = current.get("temperature_2m")?.as_number()?.to_string();
    Some(CurrentData { time, temperature })
}

/// Relies on serde_json (`from_str` for `Value`): whether the body parses
/// as JSON at all, with serde_json's own rendering of the syntax fault
/// where it does not.
#[verifier::external_body]
pub(crate) fn check_json(body: &str) -> (r: Result<(), String>)
    ensures
        match r {
            Ok(_) => spec_json_check(body@) == Ok::<(), Seq<char>>(()),
            Err(e) => spec_json_check(body@) == Err::<(), Seq<char>>(e@),
        },
{
    match serde_json::from_str::<serde_json::Value>(body) {
        Ok(_) => Ok(()),
        Err(e) => Err(format!("{}", e)),
    }
}

} // verus!
