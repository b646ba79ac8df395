use aegis_gateway::collab::{QueryOutcome, ScrapeOutcome, SearchHit};
use aegis_gateway::handler;
use aegis_gateway::model::{NativePayload, NativeReply};
use aegis_gateway::process;

fn preparsed(method: &str, path: &str, body: Option<&[u8]>) -> NativePayload {
    NativePayload::Preparsed {
        method: method.to_string(),
        path: path.to_string(),
        headers: Vec::new(),
        body: body.map(|b| b.to_vec()),
    }
}

fn content_type_of(reply: &NativeReply) -> Option<String> {
    reply
        .headers
        .iter()
        .find(|(k, _)| k.eq_ignore_ascii_case("content-type"))
        .map(|(_, v)| v.clone())
}

#[test]
fn liveness_exact_body() {
    let reply = handler(preparsed("GET", "/", None));
    assert_eq!(reply.status, 200);
    assert_eq!(
        reply.body,
        "{\"status\":\"Aegis Logistics Backend is online via vercel-rust.\"}"
    );
    assert_eq!(content_type_of(&reply).as_deref(), Some("application/json"));
}

#[test]
fn liveness_idempotent() {
    let first = handler(preparsed("GET", "/", None));
    let second = handler(preparsed("GET", "/", None));
    assert_eq!(first.status, second.status);
    assert_eq!(first.headers, second.headers);
    assert_eq!(first.body.as_bytes(), second.body.as_bytes());
}

#[test]
fn unknown_path_is_404() {
    let reply = handler(preparsed("GET", "/nope", None));
    assert_eq!(reply.status, 404);
    let v: serde_json::Value = serde_json::from_str(&reply.body).unwrap();
    assert!(v.get("error").is_some());
}

#[test]
fn unknown_method_on_known_path_is_404() {
    let reply = handler(preparsed("DELETE", "/", None));
    assert_eq!(reply.status, 404);
}

#[test]
fn malformed_json_body_is_400_not_500() {
    let reply = handler(preparsed("POST", "/api/invoke/scraper", Some(b"{invalid")));
    assert_eq!(reply.status, 400);
    let v: serde_json::Value = serde_json::from_str(&reply.body).unwrap();
    assert!(v.get("error").is_some());
}

#[test]
fn missing_body_on_tool_route_is_400() {
    let reply = handler(preparsed("POST", "/api/query-datavault", None));
    assert_eq!(reply.status, 400);
}

#[test]
fn scraper_placeholder_success() {
    let reply = handler(preparsed(
        "POST",
        "/api/invoke/scraper",
        Some(b"{\"url\":\"https://example.com\"}"),
    ));
    assert_eq!(reply.status, 200);
    let v: serde_json::Value = serde_json::from_str(&reply.body).unwrap();
    assert_eq!(
        v.get("enhanced_content").and_then(|c| c.as_str()),
        Some("This is the beautifully rewritten content from the scraper.")
    );
}

#[test]
fn scraper_network_failure_is_502() {
    let reply = process(
        preparsed("POST", "/api/invoke/scraper", Some(b"{\"url\":\"https://example.com\"}")),
        &ScrapeOutcome::NetworkFailure,
        &QueryOutcome::Results { hits: Vec::new() },
    );
    assert_eq!(reply.status, 502);
    let v: serde_json::Value = serde_json::from_str(&reply.body).unwrap();
    assert_eq!(v.get("error").and_then(|e| e.as_str()), Some("network_failure"));
}

#[test]
fn scraper_parse_failure_is_502() {
    let reply = process(
        preparsed("POST", "/api/invoke/scraper", Some(b"{}")),
        &ScrapeOutcome::ParseFailure,
        &QueryOutcome::Results { hits: Vec::new() },
    );
    assert_eq!(reply.status, 502);
}

#[test]
fn query_datavault_fixture() {
    let reply = handler(preparsed(
        "POST",
        "/api/query-datavault",
        Some(b"{\"query\":\"Tennyson Trail\"}"),
    ));
    assert_eq!(reply.status, 200);
    assert_eq!(
        reply.body,
        "{\"status\":\"success\",\"results\":[{\"id\":\"tennyson-trail\",\"score\":0.95,\
         \"metadata\":{\"title\":\"Along the Tennyson Trail\",\
         \"summary\":\"A sublime ribbon of nature...\"}}]}"
    );
    let v: serde_json::Value = serde_json::from_str(&reply.body).unwrap();
    assert_eq!(v.get("status").and_then(|s| s.as_str()), Some("success"));
    let results = v.get("results").and_then(|r| r.as_array()).unwrap();
    assert_eq!(results.len(), 1);
    assert_eq!(results[0].get("id").and_then(|i| i.as_str()), Some("tennyson-trail"));
    assert_eq!(results[0].get("score").and_then(|s| s.as_f64()), Some(0.95));
    let meta = results[0].get("metadata").unwrap();
    assert_eq!(
        meta.get("title").and_then(|t| t.as_str()),
        Some("Along the Tennyson Trail")
    );
}

#[test]
fn query_service_unavailable_is_503() {
    let reply = process(
        preparsed("POST", "/api/query-datavault", Some(b"{\"query\":\"x\"}")),
        &ScrapeOutcome::NetworkFailure,
        &QueryOutcome::ServiceUnavailable,
    );
    assert_eq!(reply.status, 503);
}

#[test]
fn query_invalid_query_is_502() {
    let reply = process(
        preparsed("POST", "/api/query-datavault", Some(b"{\"query\":\"x\"}")),
        &ScrapeOutcome::NetworkFailure,
        &QueryOutcome::InvalidQuery,
    );
    assert_eq!(reply.status, 502);
}

#[test]
fn scraper_content_round_trips_through_escaping() {
    let tricky = "a \"quoted\" back\\slash\nand tab\t end";
    let reply = process(
        preparsed("POST", "/api/invoke/scraper", Some(b"{}")),
        &ScrapeOutcome::Success { enhanced_content: tricky.to_string() },
        &QueryOutcome::Results { hits: Vec::new() },
    );
    assert_eq!(reply.status, 200);
    let v: serde_json::Value = serde_json::from_str(&reply.body).unwrap();
    assert_eq!(v.get("enhanced_content").and_then(|c| c.as_str()), Some(tricky));
}

#[test]
fn empty_result_list_renders_exactly() {
    let reply = process(
        preparsed("POST", "/api/query-datavault", Some(b"{\"query\":\"x\"}")),
        &ScrapeOutcome::NetworkFailure,
        &QueryOutcome::Results { hits: Vec::new() },
    );
    assert_eq!(reply.status, 200);
    assert_eq!(reply.body, "{\"status\":\"success\",\"results\":[]}");
}

#[test]
fn score_rendering_bounds() {
    let hits = vec![
        SearchHit { id: "full".to_string(), score_centi: 100, metadata: Vec::new() },
        SearchHit { id: "low".to_string(), score_centi: 5, metadata: Vec::new() },
    ];
    let reply = process(
        preparsed("POST", "/api/query-datavault", Some(b"{\"query\":\"x\"}")),
        &ScrapeOutcome::NetworkFailure,
        &QueryOutcome::Results { hits },
    );
    assert_eq!(reply.status, 200);
    let v: serde_json::Value = serde_json::from_str(&reply.body).unwrap();
    let results = v.get("results").and_then(|r| r.as_array()).unwrap();
    assert_eq!(results[0].get("score").and_then(|s| s.as_f64()), Some(1.0));
    assert_eq!(results[1].get("score").and_then(|s| s.as_f64()), Some(0.05));
}
