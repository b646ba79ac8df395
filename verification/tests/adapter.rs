use aegis_gateway::adapter::adapt_request;
use aegis_gateway::handler;
use aegis_gateway::model::{AdaptationError, NativePayload};

fn envelope(
    fields: &[(&str, &str)],
    headers: &[(&str, &str)],
    body: Option<&[u8]>,
) -> NativePayload {
    NativePayload::Envelope {
        fields: fields.iter().map(|(k, v)| (k.to_string(), v.to_string())).collect(),
        headers: headers.iter().map(|(k, v)| (k.to_string(), v.to_string())).collect(),
        body: body.map(|b| b.to_vec()),
    }
}

fn preparsed_with_headers(
    method: &str,
    path: &str,
    headers: &[(&str, &str)],
    body: Option<&[u8]>,
) -> NativePayload {
    NativePayload::Preparsed {
        method: method.to_string(),
        path: path.to_string(),
        headers: headers.iter().map(|(k, v)| (k.to_string(), v.to_string())).collect(),
        body: body.map(|b| b.to_vec()),
    }
}

#[test]
fn envelope_reaches_same_route_as_preparsed() {
    let reply = handler(envelope(&[("method", "GET"), ("path", "/")], &[], None));
    assert_eq!(reply.status, 200);
    assert_eq!(
        reply.body,
        "{\"status\":\"Aegis Logistics Backend is online via vercel-rust.\"}"
    );
}

#[test]
fn envelope_first_field_wins() {
    let reply = handler(envelope(
        &[("method", "GET"), ("method", "POST"), ("path", "/")],
        &[],
        None,
    ));
    assert_eq!(reply.status, 200);
    assert_eq!(
        reply.body,
        "{\"status\":\"Aegis Logistics Backend is online via vercel-rust.\"}"
    );
}

#[test]
fn envelope_missing_method_is_rejected() {
    let r = adapt_request(envelope(&[("path", "/")], &[], None));
    assert!(matches!(r, Err(AdaptationError::MissingMethod)));
    let reply = handler(envelope(&[("path", "/")], &[], None));
    assert_eq!(reply.status, 400);
}

#[test]
fn envelope_missing_path_is_rejected() {
    let r = adapt_request(envelope(&[("method", "GET")], &[], None));
    assert!(matches!(r, Err(AdaptationError::MissingPath)));
}

#[test]
fn unknown_method_token_is_rejected() {
    let r = adapt_request(preparsed_with_headers("FETCH", "/", &[], None));
    assert!(matches!(r, Err(AdaptationError::UnknownMethod)));
    let reply = handler(preparsed_with_headers("FETCH", "/", &[], None));
    assert_eq!(reply.status, 400);
    let v: serde_json::Value = serde_json::from_str(&reply.body).unwrap();
    assert_eq!(v.get("error").and_then(|e| e.as_str()), Some("adaptation_error"));
}

#[test]
fn matching_content_length_is_accepted() {
    let r = adapt_request(preparsed_with_headers(
        "POST",
        "/",
        &[("Content-Length", "2")],
        Some(b"{}"),
    ));
    assert!(r.is_ok());
}

#[test]
fn content_length_header_name_is_case_insensitive() {
    let r = adapt_request(preparsed_with_headers(
        "POST",
        "/",
        &[("CONTENT-LENGTH", "5")],
        Some(b"{}"),
    ));
    assert!(matches!(r, Err(AdaptationError::BodyLengthMismatch)));
}

#[test]
fn mismatched_content_length_is_rejected() {
    let reply = handler(preparsed_with_headers(
        "POST",
        "/api/invoke/scraper",
        &[("content-length", "1000")],
        Some(b"{}"),
    ));
    assert_eq!(reply.status, 400);
}

#[test]
fn non_numeric_content_length_is_rejected() {
    let r = adapt_request(preparsed_with_headers(
        "POST",
        "/",
        &[("content-length", "2 bytes")],
        Some(b"{}"),
    ));
    assert!(matches!(r, Err(AdaptationError::BadContentLength)));
}

#[test]
fn repeated_content_length_is_rejected() {
    let r = adapt_request(preparsed_with_headers(
        "POST",
        "/",
        &[("content-length", "2"), ("Content-Length", "2")],
        Some(b"{}"),
    ));
    assert!(matches!(r, Err(AdaptationError::BadContentLength)));
}

#[test]
fn overlong_content_length_is_rejected() {
    let r = adapt_request(preparsed_with_headers(
        "POST",
        "/",
        &[("content-length", "99999999999999999999999999")],
        Some(b"{}"),
    ));
    assert!(matches!(r, Err(AdaptationError::BadContentLength)));
}

#[test]
fn declared_length_of_absent_body_must_be_zero() {
    let ok = adapt_request(preparsed_with_headers("GET", "/", &[("content-length", "0")], None));
    assert!(ok.is_ok());
    let bad = adapt_request(preparsed_with_headers("GET", "/", &[("content-length", "1")], None));
    assert!(matches!(bad, Err(AdaptationError::BodyLengthMismatch)));
}
