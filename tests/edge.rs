use mesh::edge::{
    build_proxy_request, classify_control_request, classify_edge_request, classify_internal_request, edge_health_response,
    instance_health_response, is_websocket_upgrade, metrics_response, resolve_target_host, ws_proxy_enabled, ControlRoute,
    EdgeRoute, InternalRoute,
};
use mesh::text::{split_commas_trimmed, trim_blanks};

#[test]
fn forwarded_headers_are_whitelisted() {
    let headers = vec![
        ("host".to_string(), "api.local".to_string()),
        ("x-secret".to_string(), "no".to_string()),
        ("cookie".to_string(), "a=1".to_string()),
        ("cookie".to_string(), "b=2".to_string()),
        ("x-forwarded-proto".to_string(), "http".to_string()),
    ];
    let r = build_proxy_request(1, "POST".to_string(), None, &headers, b"payload".to_vec(), "api.local".to_string());
    assert_eq!(r.path, "/");
    assert_eq!(r.body, Some(b"payload".to_vec()));
    assert_eq!(
        r.headers,
        vec![
            ("host".to_string(), "api.local".to_string()),
            ("cookie".to_string(), "b=2".to_string()),
            ("x-forwarded-proto".to_string(), "https".to_string()),
        ]
    );
    let r = build_proxy_request(2, "GET".to_string(), Some("/a?b=c".to_string()), &[], Vec::new(), "h".to_string());
    assert_eq!(r.body, None);
    assert_eq!(r.headers, vec![("x-forwarded-proto".to_string(), "https".to_string())]);
}

#[test]
fn target_host_resolution() {
    let h = |pairs: &[(&str, &str)]| pairs.iter().map(|(a, b)| (a.to_string(), b.to_string())).collect::<Vec<_>>();
    assert_eq!(resolve_target_host(&h(&[("host", "a.local:8080"), ("x-forwarded-host", "b.local")]), None), "b.local");
    assert_eq!(resolve_target_host(&h(&[("host", "a.local:8080")]), None), "a.local");
    assert_eq!(resolve_target_host(&[], Some("c.local".to_string())), "c.local");
    assert_eq!(resolve_target_host(&[], None), "unknown");
}

#[test]
fn health_and_metrics_bodies() {
    let r = edge_health_response(2, 1);
    assert_eq!(String::from_utf8(r.body).unwrap(), "{\"status\":\"healthy\",\"connections\":2,\"registrations\":1,\"port\":\"8080\"}");
    let r = instance_health_response(10, 0, true, "abc", 1700000000);
    assert_eq!(
        String::from_utf8(r.body).unwrap(),
        "{\"status\":\"healthy\",\"connections\":10,\"registrations\":0,\"port\":\"8082\",\"instance_id\":\"abc\",\"started_at\":1700000000}"
    );
    let r = instance_health_response(0, 0, false, "id", 0);
    assert_eq!(
        String::from_utf8(r.body).unwrap(),
        "{\"status\":\"healthy\",\"connections\":0,\"registrations\":0,\"instance_id\":\"id\",\"started_at\":0}"
    );
    let m = String::from_utf8(metrics_response(3, 4).body).unwrap();
    assert!(m.contains("\nconnections_total 3\n"));
    assert!(m.ends_with("registrations_total 4\n"));
}

#[test]
fn listener_classification() {
    assert!(matches!(classify_edge_request(true, "/health", false), EdgeRoute::Health));
    assert!(matches!(classify_edge_request(true, "/health", true), EdgeRoute::Tunnel));
    assert!(matches!(classify_edge_request(true, "/x", true), EdgeRoute::Tunnel));
    assert!(matches!(classify_edge_request(false, "/x", false), EdgeRoute::Proxy));
    assert!(matches!(classify_internal_request(true, "/metrics"), InternalRoute::Metrics));
    assert!(matches!(classify_internal_request(false, "/health"), InternalRoute::NotFound));
    assert!(matches!(classify_control_request(false, "/", true), ControlRoute::MethodNotAllowed));
    assert!(matches!(classify_control_request(true, "/", false), ControlRoute::UpgradeRequired));
    assert!(matches!(classify_control_request(true, "/", true), ControlRoute::Accept));
    assert!(is_websocket_upgrade(Some("WebSocket")));
    assert!(!is_websocket_upgrade(Some("h2c")));
    assert!(ws_proxy_enabled(None));
    assert!(!ws_proxy_enabled(Some("FALSE")));
    assert!(!ws_proxy_enabled(Some("0")));
    assert!(ws_proxy_enabled(Some("yes")));
}

#[test]
fn split_and_trim() {
    assert_eq!(trim_blanks("  a b\t"), "a b");
    assert_eq!(trim_blanks("   "), "");
    assert_eq!(split_commas_trimmed("x"), vec!["x".to_string()]);
    assert_eq!(split_commas_trimmed(""), vec![String::new()]);
    assert_eq!(split_commas_trimmed("a, b,,c "), vec!["a".to_string(), "b".to_string(), String::new(), "c".to_string()]);
}
