use aegis_gateway::handler;
use aegis_gateway::model::{Method, NativePayload};
use aegis_gateway::routes::route_table;

fn discover() -> serde_json::Value {
    let reply = handler(NativePayload::Preparsed {
        method: "POST".to_string(),
        path: "/".to_string(),
        headers: Vec::new(),
        body: None,
    });
    assert_eq!(reply.status, 200);
    serde_json::from_str(&reply.body).unwrap()
}

#[test]
fn manifest_lists_exactly_the_tool_paths() {
    let manifest = discover();
    assert_eq!(manifest.get("openapi").and_then(|v| v.as_str()), Some("3.1.0"));
    let info = manifest.get("info").unwrap();
    assert_eq!(info.get("title").and_then(|v| v.as_str()), Some("Aegis Logistics Tools"));
    let paths = manifest.get("paths").and_then(|p| p.as_object()).unwrap();
    assert_eq!(paths.len(), 2);
    assert!(paths.contains_key("/api/invoke/scraper"));
    assert!(paths.contains_key("/api/query-datavault"));
    for (_, entry) in paths {
        assert!(entry.get("post").and_then(|p| p.get("summary")).is_some());
    }
}

fn post_of<'a>(manifest: &'a serde_json::Value, path: &str) -> &'a serde_json::Value {
    manifest
        .get("paths")
        .and_then(|p| p.get(path))
        .and_then(|e| e.get("post"))
        .unwrap()
}

fn schema_field_of(post: &serde_json::Value) -> (&serde_json::Value, &serde_json::Value) {
    let body = post.get("requestBody").unwrap();
    assert_eq!(body.get("required").and_then(|r| r.as_bool()), Some(true));
    let schema = body
        .get("content")
        .and_then(|c| c.get("application/json"))
        .and_then(|c| c.get("schema"))
        .unwrap();
    assert_eq!(schema.get("type").and_then(|t| t.as_str()), Some("object"));
    let properties = schema.get("properties").unwrap();
    let required = schema.get("required").unwrap();
    (properties, required)
}

#[test]
fn every_manifest_entry_carries_full_operation_fields() {
    let manifest = discover();
    let paths = manifest.get("paths").and_then(|p| p.as_object()).unwrap();
    for (path, entry) in paths {
        let post = entry.get("post").unwrap();
        assert!(post.get("summary").and_then(|s| s.as_str()).is_some_and(|s| !s.is_empty()));
        assert!(
            post.get("description").and_then(|d| d.as_str()).is_some_and(|d| !d.is_empty()),
            "no description for {path}"
        );
        assert!(
            post.get("operationId").and_then(|o| o.as_str()).is_some_and(|o| !o.is_empty()),
            "no operationId for {path}"
        );
        let (_, required) = schema_field_of(post);
        assert!(!required.as_array().unwrap().is_empty());
    }
}

#[test]
fn scraper_entry_schema_requires_url() {
    let manifest = discover();
    let post = post_of(&manifest, "/api/invoke/scraper");
    assert_eq!(post.get("summary").and_then(|s| s.as_str()), Some("Isabella Web Scraper"));
    assert_eq!(
        post.get("operationId").and_then(|o| o.as_str()),
        Some("invoke_isabella_scraper")
    );
    let (properties, required) = schema_field_of(post);
    assert_eq!(
        properties.get("url").and_then(|u| u.get("type")).and_then(|t| t.as_str()),
        Some("string")
    );
    assert_eq!(required.as_array().unwrap().len(), 1);
    assert_eq!(required[0].as_str(), Some("url"));
}

#[test]
fn datavault_entry_schema_requires_query() {
    let manifest = discover();
    let post = post_of(&manifest, "/api/query-datavault");
    assert_eq!(
        post.get("summary").and_then(|s| s.as_str()),
        Some("Query Sovereign DataVault")
    );
    assert_eq!(post.get("operationId").and_then(|o| o.as_str()), Some("query_datavault"));
    let (properties, required) = schema_field_of(post);
    assert_eq!(
        properties.get("query").and_then(|q| q.get("type")).and_then(|t| t.as_str()),
        Some("string")
    );
    assert_eq!(required.as_array().unwrap().len(), 1);
    assert_eq!(required[0].as_str(), Some("query"));
}

#[test]
fn every_manifest_path_has_exactly_one_post_binding() {
    let manifest = discover();
    let paths = manifest.get("paths").and_then(|p| p.as_object()).unwrap();
    let table = route_table();
    for (path, _) in paths {
        let matching = table
            .iter()
            .filter(|b| b.method == Method::Post && &b.path == path)
            .count();
        assert_eq!(matching, 1);
    }
}

#[test]
fn every_invocation_route_is_advertised() {
    let manifest = discover();
    let paths = manifest.get("paths").and_then(|p| p.as_object()).unwrap();
    for binding in route_table() {
        if binding.path.starts_with("/api/invoke/") || binding.path.starts_with("/api/query-") {
            assert_eq!(binding.method, Method::Post);
            assert!(paths.contains_key(binding.path.as_str()));
        }
    }
}

#[test]
fn each_tool_path_dispatches() {
    let manifest = discover();
    let paths = manifest.get("paths").and_then(|p| p.as_object()).unwrap();
    for (path, _) in paths {
        let reply = handler(NativePayload::Preparsed {
            method: "POST".to_string(),
            path: path.clone(),
            headers: Vec::new(),
            body: Some(b"{}".to_vec()),
        });
        assert_ne!(reply.status, 404);
    }
}
