use db_endpoint::GatewayError;
use db_endpoint::envelope::GatewayResponse;
use db_endpoint::front_door::{
    LookupOutcome, data_query_name, health_check, mock_query_id, respond_embed_search,
    respond_lookup, respond_proxy,
};
use db_endpoint::headers::{filter_headers, should_forward_header};
use db_endpoint::proxy::{HttpMethod, UpstreamOutcome, interpret_upstream, plan_request};
use db_endpoint::registry::{Registry, ServiceConfig};
use db_endpoint::routes::{Route, match_route};

fn pair(a: &str, b: &str) -> (String, String) {
    (a.to_string(), b.to_string())
}

#[test]
fn header_filter_allows_the_four_names_case_insensitively() {
    assert!(should_forward_header("authorization"));
    assert!(should_forward_header("Authorization"));
    assert!(should_forward_header("AUTHORIZATION"));
    assert!(should_forward_header("content-type"));
    assert!(should_forward_header("Content-Type"));
    assert!(should_forward_header("accept"));
    assert!(should_forward_header("ACCEPT"));
    assert!(should_forward_header("user-agent"));
    assert!(should_forward_header("User-Agent"));
}

#[test]
fn header_filter_allows_x_prefixed_names() {
    assert!(should_forward_header("x-request-id"));
    assert!(should_forward_header("X-Custom"));
    assert!(should_forward_header("x-"));
}

#[test]
fn header_filter_rejects_everything_else() {
    assert!(!should_forward_header("host"));
    assert!(!should_forward_header("connection"));
    assert!(!should_forward_header("cookie"));
    assert!(!should_forward_header("x"));
    assert!(!should_forward_header(""));
    assert!(!should_forward_header("authorization-extra"));
    assert!(!should_forward_header("accept2"));
}

#[test]
fn filter_headers_keeps_allowed_in_order_with_values() {
    let headers = vec![
        pair("Host", "example.com"),
        pair("Authorization", "Bearer token"),
        pair("Cookie", "session=1"),
        pair("X-Trace", "abc"),
        pair("Content-Type", "application/json"),
    ];
    let kept = filter_headers(headers);
    assert_eq!(
        kept,
        vec![
            pair("Authorization", "Bearer token"),
            pair("X-Trace", "abc"),
            pair("Content-Type", "application/json"),
        ]
    );
}

fn sample_registry() -> Registry {
    let mut reg = Registry::new();
    reg.register(ServiceConfig {
        name: "auth".to_string(),
        base_url: "http://localhost:8001".to_string(),
        timeout_ms: 5000,
    });
    reg.register(ServiceConfig {
        name: "users".to_string(),
        base_url: "http://localhost:8002".to_string(),
        timeout_ms: 3000,
    });
    reg.register(ServiceConfig {
        name: "default".to_string(),
        base_url: "http://localhost:9000".to_string(),
        timeout_ms: 2000,
    });
    reg
}

#[test]
fn registry_resolves_registered_names_exactly() {
    let reg = sample_registry();
    let auth = reg.resolve("auth").unwrap();
    assert_eq!(auth.base_url, "http://localhost:8001");
    assert_eq!(auth.timeout_ms, 5000);
    let users = reg.resolve("users").unwrap();
    assert_eq!(users.base_url, "http://localhost:8002");
    assert_eq!(users.timeout_ms, 3000);
}

#[test]
fn registry_returns_the_last_registered_config() {
    let mut reg = sample_registry();
    reg.register(ServiceConfig {
        name: "auth".to_string(),
        base_url: "http://localhost:8101".to_string(),
        timeout_ms: 750,
    });
    let auth = reg.resolve("auth").unwrap();
    assert_eq!(auth.base_url, "http://localhost:8101");
    assert_eq!(auth.timeout_ms, 750);
    // Other names are untouched by the re-registration.
    assert_eq!(reg.resolve("users").unwrap().base_url, "http://localhost:8002");
}

#[test]
fn registry_rejects_unknown_names() {
    let reg = sample_registry();
    assert_eq!(reg.resolve("billing").unwrap_err(), GatewayError::UnknownService);
    // Name matching is exact and case-sensitive.
    assert_eq!(reg.resolve("Auth").unwrap_err(), GatewayError::UnknownService);
    let empty = Registry::new();
    assert_eq!(empty.resolve("auth").unwrap_err(), GatewayError::UnknownService);
}

#[test]
fn plan_request_round_trips_body_and_filters_headers() {
    let reg = sample_registry();
    let headers = vec![
        pair("Authorization", "Bearer token"),
        pair("Host", "gateway.local"),
        pair("X-Request-Id", "42"),
        pair("Connection", "keep-alive"),
    ];
    let body = "payload bytes".to_string();
    let plan = plan_request(
        &reg,
        HttpMethod::Post,
        Some("users".to_string()),
        "profile/7",
        headers,
        Some(body.clone()),
    )
    .unwrap();
    assert_eq!(plan.method, HttpMethod::Post);
    assert_eq!(plan.url, "http://localhost:8002/profile/7");
    assert_eq!(plan.timeout_ms, 3000);
    assert_eq!(plan.body.as_deref(), Some("payload bytes"));
    assert_eq!(
        plan.headers,
        vec![pair("Authorization", "Bearer token"), pair("X-Request-Id", "42")]
    );
}

#[test]
fn plan_request_defaults_to_the_default_service() {
    let reg = sample_registry();
    let plan = plan_request(&reg, HttpMethod::Get, None, "ping", Vec::new(), None).unwrap();
    assert_eq!(plan.url, "http://localhost:9000/ping");
    assert_eq!(plan.timeout_ms, 2000);
    assert_eq!(plan.body, None);
    assert!(plan.headers.is_empty());
}

#[test]
fn plan_request_fails_on_unknown_service() {
    let reg = sample_registry();
    let err = plan_request(
        &reg,
        HttpMethod::Get,
        Some("billing".to_string()),
        "x",
        Vec::new(),
        None,
    )
    .unwrap_err();
    assert_eq!(err, GatewayError::UnknownService);
}

#[test]
fn upstream_transport_failure_maps_to_unavailable() {
    let r = interpret_upstream(&UpstreamOutcome::TransportFailed);
    assert_eq!(r.unwrap_err(), GatewayError::UpstreamUnavailable);
}

#[test]
fn upstream_unparseable_body_maps_to_bad_response() {
    let r = interpret_upstream(&UpstreamOutcome::Received("not json at all".to_string()));
    assert_eq!(r.unwrap_err(), GatewayError::UpstreamBadResponse);
}

#[test]
fn upstream_json_body_is_relayed_parsed_and_unaltered() {
    let body = "{\"answer\": 41, \"ok\": true}".to_string();
    let v = interpret_upstream(&UpstreamOutcome::Received(body.clone())).unwrap();
    let expected: serde_json::Value = serde_json::from_str(&body).unwrap();
    assert_eq!(v, expected);
}

#[test]
fn error_kinds_map_to_their_fixed_status_codes() {
    assert_eq!(GatewayError::UnknownService.status_code(), 400);
    assert_eq!(GatewayError::EmptyInput.status_code(), 400);
    assert_eq!(GatewayError::UpstreamUnavailable.status_code(), 503);
    assert_eq!(GatewayError::UpstreamBadResponse.status_code(), 502);
    assert_eq!(GatewayError::EmbeddingUnavailable.status_code(), 500);
    assert_eq!(GatewayError::StoreError.status_code(), 500);
    assert_eq!(GatewayError::NotFound.status_code(), 404);
}

#[test]
fn every_response_carries_a_nonempty_unique_request_id() {
    let first = db_endpoint::envelope::new_request_id();
    let second = db_endpoint::envelope::new_request_id();
    assert!(!first.is_empty());
    assert!(!second.is_empty());
    assert_eq!(first.len(), 36);
    assert_ne!(first, second);

    let ok: GatewayResponse<i64> =
        GatewayResponse::success(Some(7), None, db_endpoint::envelope::new_request_id());
    assert!(!ok.request_id.is_empty());
    let err: GatewayResponse<i64> = GatewayResponse::failure(
        GatewayError::NotFound,
        db_endpoint::envelope::new_request_id(),
    );
    assert!(!err.request_id.is_empty());
    assert_ne!(ok.request_id, err.request_id);
}

#[test]
fn envelope_success_and_failure_shapes() {
    let ok: GatewayResponse<i64> = GatewayResponse::success(Some(3), None, "rid-1".to_string());
    assert!(ok.success);
    assert_eq!(ok.data, Some(3));
    assert!(ok.error.is_none());
    assert_eq!(ok.request_id, "rid-1");

    let err: GatewayResponse<i64> =
        GatewayResponse::failure(GatewayError::EmptyInput, "rid-2".to_string());
    assert!(!err.success);
    assert!(err.data.is_none());
    assert_eq!(err.error.as_deref(), Some("empty input"));
    assert_eq!(err.request_id, "rid-2");
}

#[test]
fn health_check_reports_healthy_with_timestamp_and_version() {
    let r = health_check("1.2.3".to_string(), "rid-health".to_string());
    assert!(r.success);
    let h = r.data.unwrap();
    assert_eq!(h.status, "healthy");
    assert_eq!(h.version, "1.2.3");
    assert!(!h.timestamp.is_empty());
    assert_eq!(r.request_id, "rid-health");
}

#[test]
fn lookup_responses_follow_the_envelope_rules() {
    let rec = sample_record();
    let (found, status) = respond_lookup(LookupOutcome::Found(rec), "rid-a".to_string());
    assert!(found.success);
    assert_eq!(status, 200);
    assert_eq!(found.data.unwrap().name, "Record A");

    let (missing, status) = respond_lookup(LookupOutcome::Missing, "rid-b".to_string());
    assert!(missing.success);
    assert!(missing.data.is_none());
    assert_eq!(status, 200);

    let (failed, status) = respond_lookup(LookupOutcome::Failed, "rid-c".to_string());
    assert!(!failed.success);
    assert_eq!(failed.error.as_deref(), Some("store error"));
    assert_eq!(status, 500);
}

fn sample_record() -> db_endpoint::records::StoredRecord {
    db_endpoint::records::StoredRecord {
        id: 10084023,
        name: "Record A".to_string(),
        summary: Some("A nice and cozy place".to_string()),
        description: None,
        beds: Some(2),
        bedrooms: Some(1),
        bathrooms_tenths: Some(15),
        amenities: vec!["Wifi".to_string()],
        price_cents: Some(12000),
    }
}

#[test]
fn embed_search_responses_follow_the_envelope_rules() {
    let p = db_endpoint::records::project(&sample_record());
    let (ok, status) = respond_embed_search(Ok(Some(p)), "rid-d".to_string());
    assert!(ok.success);
    assert_eq!(status, 200);
    assert_eq!(ok.data.unwrap().name, "Record A");

    let (none, status) = respond_embed_search(Ok(None), "rid-e".to_string());
    assert!(!none.success);
    assert_eq!(none.error.as_deref(), Some("not found"));
    assert_eq!(status, 404);

    let (err, status) =
        respond_embed_search(Err(GatewayError::EmbeddingUnavailable), "rid-f".to_string());
    assert!(!err.success);
    assert_eq!(err.error.as_deref(), Some("embedding unavailable"));
    assert_eq!(status, 500);
}

#[test]
fn proxy_responses_follow_the_envelope_rules() {
    let v: serde_json::Value = serde_json::from_str("{\"echo\": \"ok\"}").unwrap();
    let (ok, status) = respond_proxy(Ok(v.clone()), "rid-g".to_string());
    assert!(ok.success);
    assert_eq!(status, 200);
    assert_eq!(ok.data.unwrap(), v);

    let (err, status) =
        respond_proxy(Err(GatewayError::UpstreamUnavailable), "rid-h".to_string());
    assert!(!err.success);
    assert_eq!(err.error.as_deref(), Some("upstream unavailable"));
    assert_eq!(status, 503);
}

#[test]
fn fixed_lookup_keys_are_the_served_ones() {
    assert_eq!(data_query_name(), "Private Room in Bushwick");
    assert_eq!(mock_query_id(), 10084023);
}

#[test]
fn routing_table_binds_the_served_routes() {
    assert!(matches!(match_route(HttpMethod::Get, "/health"), Some(Route::Health)));
    assert!(matches!(match_route(HttpMethod::Get, "/data"), Some(Route::Data)));
    assert!(matches!(match_route(HttpMethod::Get, "/mock"), Some(Route::Mock)));
    match match_route(HttpMethod::Post, "/embed/query") {
        Some(Route::Embed(rest)) => assert_eq!(rest, "query"),
        other => panic!("unexpected route: {:?}", route_name(&other)),
    }
    match match_route(HttpMethod::Get, "/api/users/7") {
        Some(Route::Api(rest)) => assert_eq!(rest, "users/7"),
        other => panic!("unexpected route: {:?}", route_name(&other)),
    }
    match match_route(HttpMethod::Post, "/api/users/7") {
        Some(Route::Api(rest)) => assert_eq!(rest, "users/7"),
        other => panic!("unexpected route: {:?}", route_name(&other)),
    }
}

fn route_name(r: &Option<Route>) -> &'static str {
    match r {
        None => "none",
        Some(Route::Health) => "health",
        Some(Route::Data) => "data",
        Some(Route::Mock) => "mock",
        Some(Route::Embed(_)) => "embed",
        Some(Route::Api(_)) => "api",
    }
}

#[test]
fn routing_table_leaves_everything_else_unrouted() {
    assert!(match_route(HttpMethod::Post, "/health").is_none());
    assert!(match_route(HttpMethod::Post, "/data").is_none());
    assert!(match_route(HttpMethod::Get, "/embed/query").is_none());
    assert!(match_route(HttpMethod::Post, "/embed/").is_none());
    assert!(match_route(HttpMethod::Get, "/api/").is_none());
    assert!(match_route(HttpMethod::Get, "/").is_none());
    assert!(match_route(HttpMethod::Get, "/unknown").is_none());
}
