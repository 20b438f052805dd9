//! Tests of the scrape reply: every request is answered, and an encoding
//! failure turns into a server error with a non-empty body.

use dsmr_exporter::exporter::{scrape_reply, STATUS_OK, STATUS_SERVER_ERROR};

#[test]
fn successful_encoding_is_served_with_openmetrics_content_type() {
    let reply = scrape_reply(Ok(String::from("p1_power_consumed_kw 1.234\n")));
    assert_eq!(reply.status, STATUS_OK);
    assert_eq!(reply.body, "p1_power_consumed_kw 1.234\n");
    assert_eq!(
        reply.content_type.as_deref(),
        Some("application/openmetrics-text; version=1.0.0; charset=utf-8")
    );
}

#[test]
fn encoding_failure_is_a_server_error_with_the_description() {
    let reply = scrape_reply(Err(String::from("an error occurred when formatting an argument")));
    assert_eq!(reply.status, STATUS_SERVER_ERROR);
    assert_eq!(reply.content_type, None);
    assert_eq!(reply.body, "an error occurred when formatting an argument");
    assert!(!reply.body.is_empty());
}

#[test]
fn encoding_failure_with_empty_description_still_has_a_body() {
    let reply = scrape_reply(Err(String::new()));
    assert_eq!(reply.status, STATUS_SERVER_ERROR);
    assert!(!reply.body.is_empty());
}

#[test]
fn status_codes_are_the_http_codes() {
    assert_eq!(STATUS_OK, 200);
    assert_eq!(STATUS_SERVER_ERROR, 500);
}
