use weather_client::params::Parameters;
use weather_client::request::{build_checked_url, build_url};
use weather_client::response::{
    interpret_fetch, interpret_response, is_client_error, url_error_report, Channel, FetchOutcome,
};

#[test]
fn url_holds_both_coordinates_and_suffix() {
    let p = Parameters::new(String::from("35.6895"), String::from("139.6917"));
    let u = build_url(&p);
    assert_eq!(
        u,
        "https://api.open-meteo.com/v1/jma?latitude=35.6895&longitude=139.6917&current=temperature_2m"
    );
}

#[test]
fn url_holds_negative_and_integer_renderings() {
    let p = Parameters::new(String::from("-0.5"), String::from("0"));
    let u = build_url(&p);
    assert_eq!(
        u,
        "https://api.open-meteo.com/v1/jma?latitude=-0.5&longitude=0&current=temperature_2m"
    );
}

#[test]
fn built_url_passes_validation() {
    let p = Parameters::new(String::from("35.6895"), String::from("139.6917"));
    match build_checked_url(&p) {
        Ok(u) => assert_eq!(
            u,
            "https://api.open-meteo.com/v1/jma?latitude=35.6895&longitude=139.6917&current=temperature_2m"
        ),
        Err(e) => panic!("validation rejected the fixed template: {}", e),
    }
}

#[test]
fn success_body_yields_time_and_temperature() {
    let body = "{\"current\":{\"time\":\"2025-03-11T05:45\",\"interval\":900,\"temperature_2m\":2.2}}";
    let r = interpret_response(200, body);
    assert!(matches!(r.channel, Channel::Stdout));
    assert_eq!(r.line, "Success 200++: time = 2025-03-11T05:45, temperature = 2.2");
}

#[test]
fn success_body_tolerates_fields_beyond_schema() {
    let body = "{\"extra\":[1,2],\"current\":{\"when\":\"noon\",\"time\":\"2025-03-11T05:45\",\"interval\":900,\"temperature_2m\":2.2},\"more\":null}";
    let r = interpret_response(200, body);
    assert!(matches!(r.channel, Channel::Stdout));
    assert_eq!(r.line, "Success 200++: time = 2025-03-11T05:45, temperature = 2.2");
}

#[test]
fn error_body_yields_reason() {
    let body = "{\"error\":true,\"reason\":\"Invalid input parameters\"}";
    let r = interpret_response(400, body);
    assert!(matches!(r.channel, Channel::Stderr));
    assert_eq!(r.line, "Error 400++: error = true, reason = Invalid input parameters");
}

#[test]
fn error_body_tolerates_fields_beyond_schema() {
    let body = "{\"error\":false,\"reason\":\"soft failure\",\"code\":17}";
    let r = interpret_response(404, body);
    assert!(matches!(r.channel, Channel::Stderr));
    assert_eq!(r.line, "Error 400++: error = false, reason = soft failure");
}

#[test]
fn invalid_json_on_client_error_gives_generic_diagnostic() {
    let r = interpret_response(400, "");
    assert!(matches!(r.channel, Channel::Stderr));
    assert_eq!(r.line, "Failed to parse API error response");
}

#[test]
fn wrong_shape_on_client_error_gives_generic_diagnostic() {
    let r = interpret_response(422, "{\"error\":\"yes\",\"reason\":\"x\"}");
    assert!(matches!(r.channel, Channel::Stderr));
    assert_eq!(r.line, "Failed to parse API error response");
}

#[test]
fn missing_current_gives_diagnostic_with_detail() {
    let r = interpret_response(200, "{\"foo\":1}");
    assert!(matches!(r.channel, Channel::Stderr));
    assert_eq!(
        r.line,
        "Failed to parse weather response: body does not match the weather schema"
    );
}

#[test]
fn invalid_json_on_success_gives_diagnostic_with_syntax_detail() {
    let prefix = "Failed to parse weather response: ";
    let r = interpret_response(200, "");
    assert!(matches!(r.channel, Channel::Stderr));
    assert!(r.line.starts_with(prefix));
    assert!(r.line.len() > prefix.len());
    assert_ne!(
        r.line,
        "Failed to parse weather response: body does not match the weather schema"
    );
}

#[test]
fn non_client_error_statuses_take_the_success_path() {
    let body = "{\"current\":{\"time\":\"2025-03-11T05:45\",\"temperature_2m\":2.2}}";
    let r = interpret_response(500, body);
    assert!(matches!(r.channel, Channel::Stdout));
    assert_eq!(r.line, "Success 200++: time = 2025-03-11T05:45, temperature = 2.2");
    let r = interpret_response(301, "{\"error\":true,\"reason\":\"moved\"}");
    assert!(matches!(r.channel, Channel::Stderr));
    assert!(r.line.starts_with("Failed to parse weather response: "));
}

#[test]
fn integer_temperature_token_is_kept_as_rendered() {
    let body = "{\"current\":{\"time\":\"2025-03-11T06:00\",\"temperature_2m\":900}}";
    let r = interpret_response(200, body);
    assert!(matches!(r.channel, Channel::Stdout));
    assert_eq!(r.line, "Success 200++: time = 2025-03-11T06:00, temperature = 900");
}

#[test]
fn status_class_boundaries() {
    assert!(!is_client_error(399));
    assert!(is_client_error(400));
    assert!(is_client_error(499));
    assert!(!is_client_error(500));
    assert!(!is_client_error(200));
}

#[test]
fn request_failure_reports_network_diagnostic_without_parsing() {
    let f = FetchOutcome::RequestFailed { detail: String::from("connection refused") };
    let r = interpret_fetch(&f);
    assert!(matches!(r.channel, Channel::Stderr));
    assert_eq!(r.line, "Error occurred while requesting API: connection refused");
}

#[test]
fn body_read_failure_reports_its_own_diagnostic() {
    let f = FetchOutcome::BodyReadFailed { detail: String::from("stream truncated") };
    let r = interpret_fetch(&f);
    assert!(matches!(r.channel, Channel::Stderr));
    assert_eq!(r.line, "Failed to read response text: stream truncated");
}

#[test]
fn received_response_is_interpreted_through_fetch_outcome() {
    let body = String::from("{\"current\":{\"time\":\"2025-03-11T05:45\",\"temperature_2m\":2.2}}");
    let f = FetchOutcome::Received { status: 200, body };
    let r = interpret_fetch(&f);
    assert!(matches!(r.channel, Channel::Stdout));
    assert_eq!(r.line, "Success 200++: time = 2025-03-11T05:45, temperature = 2.2");
}

#[test]
fn url_failure_report_carries_the_detail() {
    let r = url_error_report("relative URL without a base");
    assert!(matches!(r.channel, Channel::Stderr));
    assert_eq!(r.line, "Error parsing URL: relative URL without a base");
}

#[test]
fn same_inputs_print_identically() {
    let p = Parameters::new(String::from("35.6895"), String::from("139.6917"));
    let u1 = build_url(&p);
    let u2 = build_url(&p);
    assert_eq!(u1, u2);
    let body = "{\"current\":{\"time\":\"2025-03-11T05:45\",\"interval\":900,\"temperature_2m\":2.2}}";
    let r1 = interpret_response(200, body);
    let r2 = interpret_response(200, body);
    assert_eq!(r1.line, r2.line);
    assert!(matches!(r1.channel, Channel::Stdout));
    assert!(matches!(r2.channel, Channel::Stdout));
    let e1 = interpret_response(400, "{\"error\":true,\"reason\":\"bad\"}");
    let e2 = interpret_response(400, "{\"error\":true,\"reason\":\"bad\"}");
    assert_eq!(e1.line, e2.line);
}
