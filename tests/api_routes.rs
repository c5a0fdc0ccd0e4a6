use bitsacco_server::{api_info, api_routes, health_report, ApiResource, ApiRoute, RouteMethod};

#[test]
fn health_report_keeps_timestamp() {
    let r = health_report("2024-05-01T12:00:00+00:00".to_string());
    assert_eq!(r.timestamp, "2024-05-01T12:00:00+00:00");
    assert_eq!(r.status, "ok");
    assert_eq!(r.service, "bitsacco-server-api");
}

#[test]
fn api_info_lists_exactly_seven_endpoints() {
    let info = api_info("1.2.3");
    let keys: Vec<&str> = info.endpoints.iter().map(|e| e.key).collect();
    assert_eq!(
        keys,
        vec!["analytics", "auth", "groups", "members", "share_offers", "shares", "validation"]
    );
    assert_eq!(info.name, "Bitsacco Server API");
    assert_eq!(info.version, "1.2.3");
    assert_eq!(info.description, "REST API for SACCO management system");
    assert_eq!(info.database, "connected");
    assert_eq!(info.environment, "development");
}

#[test]
fn api_info_endpoint_urls() {
    let info = api_info("0.1.0");
    let urls: Vec<&str> = info.endpoints.iter().map(|e| e.url.as_str()).collect();
    assert_eq!(
        urls,
        vec![
            "/api/analytics",
            "/api/auth",
            "/api/groups",
            "/api/members",
            "/api/share-offers",
            "/api/shares",
            "/api/validation"
        ]
    );
}

#[test]
fn route_table_order_and_paths() {
    let routes = api_routes();
    assert_eq!(routes.len(), 9);
    assert_eq!(routes[0], ApiRoute::Health);
    assert_eq!(routes[1], ApiRoute::Info);
    assert_eq!(routes[6], ApiRoute::Nested(ApiResource::ShareOffers));
    let paths: Vec<&str> = routes.iter().map(|r| r.path()).collect();
    assert_eq!(
        paths,
        vec![
            "/health",
            "/info",
            "/analytics",
            "/auth",
            "/groups",
            "/members",
            "/share-offers",
            "/shares",
            "/validation"
        ]
    );
}

#[test]
fn share_offers_key_and_mount_differ() {
    assert_eq!(ApiResource::ShareOffers.info_key(), "share_offers");
    assert_eq!(ApiResource::ShareOffers.mount_path(), "/share-offers");
    assert_eq!(ApiResource::ShareOffers.endpoint_url(), "/api/share-offers");
    assert_eq!(ApiResource::all().len(), 7);
}

#[test]
fn fixed_endpoints_are_routed_once() {
    let routes = api_routes();
    assert_eq!(routes.iter().filter(|r| r.path() == "/health").count(), 1);
    assert_eq!(routes.iter().filter(|r| r.path() == "/info").count(), 1);
}

#[test]
fn health_report_reports_ok_and_service() {
    let r = health_report("1999-12-31T23:59:59.5+00:00".to_string());
    assert_eq!(r.status, "ok");
    assert_eq!(r.service, "bitsacco-server-api");
    assert_eq!(r.timestamp, "1999-12-31T23:59:59.5+00:00");
}

#[test]
fn fixed_endpoints_answer_get_only() {
    assert_eq!(ApiRoute::Health.method(), RouteMethod::Get);
    assert_eq!(ApiRoute::Info.method(), RouteMethod::Get);
    assert_eq!(ApiRoute::Nested(ApiResource::Auth).method(), RouteMethod::Any);
    for r in api_routes() {
        let fixed = matches!(r, ApiRoute::Health | ApiRoute::Info);
        assert_eq!(r.method() == RouteMethod::Get, fixed);
    }
}
