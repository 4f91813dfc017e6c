//! Building and validating the query URL.

use vstd::prelude::*;
use vstd::string::StringExecFns;
use crate::params::Parameters;

verus! {

/// The query URL for a coordinate pair: the fixed endpoint, the two rendered
/// coordinates, and the fixed field selection `current=temperature_2m`.
pub open spec fn spec_url(lat: Seq<char>, lon: Seq<char>) -> Seq<char> {
    "https://api.open-meteo.com/v1/jma?latitude="@ + lat + "&longitude="@ + lon
        + "&current=temperature_2m"@
}

/// For every coordinate pair, the query URL carries exactly the two rendered
/// values between the fixed pieces of the template: the latitude right after
/// the fixed prefix, the longitude right after the fixed separator, and the
/// literal field selection `&current=temperature_2m` at the end.
pub proof fn lemma_url_carries_coordinates(lat: Seq<char>, lon: Seq<char>)
    ensures
        ({
            let prefix = "https://api.open-meteo.com/v1/jma?latitude="@;
            let sep = "&longitude="@;
            let suffix = "&current=temperature_2m"@;
            let u = spec_url(lat, lon);
            u.len() == prefix.len() + lat.len() + sep.len() + lon.len() + suffix.len()
                && u.subrange(prefix.len() as int, (prefix.len() + lat.len()) as int) == lat
                && u.subrange(
                (prefix.len() + lat.len() + sep.len()) as int,
                (prefix.len() + lat.len() + sep.len() + lon.len()) as int,
            ) == lon
                && u.subrange(u.len() - suffix.len(), u.len() as int) == suffix
        }),
{
    let prefix = "https://api.open-meteo.com/v1/jma?latitude="@;
    let sep = "&longitude="@;
    let suffix = "&current=temperature_2m"@;
    let u = spec_url(lat, lon);
    assert(u.subrange(prefix.len() as int, (prefix.len() + lat.len()) as int) =~= lat);
    assert(u.subrange(
        (prefix.len() + lat.len() + sep.len()) as int,
        (prefix.len() + lat.len() + sep.len() + lon.len()) as int,
    ) =~= lon);
    assert(u.subrange(u.len() - suffix.len(), u.len() as int) =~= suffix);
}

/// Whether `url::Url::parse` accepts the string. URL syntax is a function of
/// the characters alone.
pub uninterp spec fn url_well_formed(s: Seq<char>) -> bool;

/// Relies on url::Url::parse for URL syntax validation. Only whether the
/// string parses is kept; the parsed value is dropped and a rejection is
/// rendered to text.
#[verifier::external_body]
fn parse_url_check(s: &str) -> (r: Result<(), String>)
    ensures
        r is Ok <==> url_well_formed(s@),
{
    match url::Url::parse(s) {
        Ok(_) => Ok(()),
        Err(e) => Err(format!("{}", e)),
    }
}

/// Builds the query URL for a coordinate pair.
///
/// The URL carries exactly the two rendered coordinate values between the
/// fixed pieces of the template.
pub fn build_url(p: &Parameters) -> (u: String)
    ensures
        u@ == spec_url(p.latitude@, p.longitude@),
{
    let mut u = "https://api.open-meteo.com/v1/jma?latitude=".to_owned();
    u.append(p.latitude.as_str());
    u.append("&longitude=");
    u.append(p.longitude.as_str());
    u.append("&current=temperature_2m");
    u
}

/// Builds the query URL and holds it against URL syntax rules before any
/// network step may use it. A rejection (not expected under the fixed
/// template, but handled defensively) hands back the parser's rendering of
/// the fault instead of a URL.
pub fn build_checked_url(p: &Parameters) -> (r: Result<String, String>)
    ensures
        match r {
            Ok(u) => u@ == spec_url(p.latitude@, p.longitude@) && url_well_formed(u@),
            Err(_) => !url_well_formed(spec_url(p.latitude@, p.longitude@)),
        },
{
    let u = build_url(p);
    match parse_url_check(u.as_str()) {
        Ok(_) => Ok(u),
        Err(e) => Err(e),
    }
}

} // verus!
