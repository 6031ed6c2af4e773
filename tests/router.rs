use mesh::registry::DefaultRegistry;
use mesh::router::{DefaultRouter, RoutePlan, WaitOutcome};
use mesh::types::{ProxyResponse, ServiceRegistration};
use std::collections::HashMap;
use tokio::sync::oneshot;

fn registration(id: u128, host: &str) -> ServiceRegistration {
    ServiceRegistration {
        id,
        service_name: "test-service".to_string(),
        host: host.to_string(),
        port: 8080,
        cluster_name: "test-cluster".to_string(),
        task_arn: "arn:aws:ecs:us-east-1:123456789012:task/test-cluster/test-task".to_string(),
        health_check_path: Some("/health".to_string()),
        attributes: HashMap::new(),
    }
}

fn response(id: u128) -> ProxyResponse {
    ProxyResponse {
        id,
        status_code: 200,
        headers: Vec::new(),
        body: Some(b"test response".to_vec()),
    }
}

#[test]
fn test_route_request_no_services() {
    let mut router: DefaultRouter<oneshot::Sender<ProxyResponse>> = DefaultRouter::new(1_000);
    let registry: DefaultRegistry<()> = DefaultRegistry::new();

    match router.plan_route(42, "nonexistent.example.com", &registry, 5_000) {
        RoutePlan::Respond(response) => assert_eq!(response.status_code, 404),
        RoutePlan::Forward(_) => panic!("nothing is registered"),
    }
}

#[test]
fn test_route_request_no_healthy_services() {
    let mut router: DefaultRouter<oneshot::Sender<ProxyResponse>> = DefaultRouter::new(1_000);
    let mut registry: DefaultRegistry<()> = DefaultRegistry::new();
    let connection_id: u128 = 9;

    // Register a service but no connection sender.
    registry
        .register_service(connection_id, registration(connection_id, "test.example.com"), 5_000)
        .unwrap();

    let request_id: u128 = 43;
    let response = match router.plan_route(request_id, "test.example.com", &registry, 5_000) {
        RoutePlan::Respond(r) => r,
        RoutePlan::Forward(conn) => {
            let (tx, _rx) = oneshot::channel();
            match router.begin_forward_on(request_id, tx, conn, &registry, 5_000) {
                Some(_) => panic!("no sender is registered"),
                None => router.forward_failed(request_id),
            }
        }
    };
    assert_eq!(response.status_code, 503);
    assert!(!router.is_pending(request_id));
}

#[test]
fn route_request_stale_heartbeat_is_unhealthy() {
    let mut router: DefaultRouter<oneshot::Sender<ProxyResponse>> = DefaultRouter::new(1_000);
    let mut registry: DefaultRegistry<()> = DefaultRegistry::new();
    let connection_id: u128 = 9;

    // Registered two minutes before the request: the heartbeat is stale.
    registry
        .register_service(connection_id, registration(connection_id, "test.example.com"), 0)
        .unwrap();

    match router.plan_route(43, "test.example.com", &registry, 120_000) {
        RoutePlan::Respond(response) => assert_eq!(response.status_code, 503),
        RoutePlan::Forward(_) => panic!("the only candidate is unhealthy"),
    }
}

#[test]
fn test_handle_response() {
    let mut router = DefaultRouter::new(1_000);
    let request_id: u128 = 0xabc;

    let (tx, _rx) = oneshot::channel::<ProxyResponse>();
    router.begin_forward(request_id, tx, 0);

    let result = router.handle_response(response(request_id), 10);
    assert!(result.is_some());

    assert!(!router.is_pending(request_id));
}

#[test]
fn test_handle_response_unknown_request() {
    let mut router: DefaultRouter<oneshot::Sender<ProxyResponse>> = DefaultRouter::new(1_000);
    let request_id: u128 = 0xdef;

    let result = router.handle_response(response(request_id), 10);
    assert!(result.is_none());
}

#[test]
fn delivered_slot_carries_the_response() {
    let mut router = DefaultRouter::new(1_000);
    let (tx, mut rx) = oneshot::channel::<ProxyResponse>();
    router.begin_forward(7, tx, 100);
    let (slot, resp) = router.handle_response(response(7), 500).unwrap();
    slot.send(resp).unwrap();
    let got = rx.try_recv().unwrap();
    assert_eq!(got.body, Some(b"test response".to_vec()));
}

#[test]
fn response_at_deadline_is_dropped() {
    let mut router = DefaultRouter::new(30_000);
    let (tx, _rx) = oneshot::channel::<ProxyResponse>();
    router.begin_forward(8, tx, 1_000);
    assert!(router.handle_response(response(8), 31_000).is_none());
    assert!(!router.is_pending(8));
}

#[test]
fn finish_wait_maps_outcomes() {
    let mut router: DefaultRouter<()> = DefaultRouter::new(30_000);
    router.begin_forward(1, (), 0);
    let r = router.finish_wait(1, WaitOutcome::TimedOut);
    assert_eq!(r.status_code, 504);
    assert_eq!(r.body, Some(b"Gateway Timeout".to_vec()));
    assert!(!router.is_pending(1));
    router.begin_forward(2, (), 0);
    let r = router.finish_wait(2, WaitOutcome::ChannelClosed);
    assert_eq!(r.status_code, 503);
    router.begin_forward(3, (), 0);
    let r = router.forward_failed(3);
    assert_eq!(r.status_code, 503);
    assert_eq!(r.body, Some(b"Service Unavailable".to_vec()));
    assert!(!router.is_pending(3));
}

#[test]
fn exact_host_is_preferred_and_cache_expires() {
    let mut router: DefaultRouter<()> = DefaultRouter::new(30_000);
    let mut registry: DefaultRegistry<()> = DefaultRegistry::new();
    registry.register_service(1, registration(1, "*.local"), 0).unwrap();
    registry.register_service(2, registration(2, "api.local"), 0).unwrap();
    assert_eq!(router.find_matching_services("api.local", &registry, 0), vec![2, 1]);
    registry.deregister_service(2).unwrap();
    // Within the lifetime the cached list is returned.
    assert_eq!(router.find_matching_services("api.local", &registry, 29_999), vec![2, 1]);
    // After it the list is computed again.
    assert_eq!(router.find_matching_services("api.local", &registry, 30_000), vec![1]);
    assert_eq!(router.host_service_cache[0].timestamp, 30_000);
    match router.plan_route(5, "api.local", &registry, 30_000) {
        RoutePlan::Forward(c) => assert_eq!(c, 1),
        RoutePlan::Respond(_) => panic!("the wildcard registration is healthy"),
    }
}

#[test]
fn forward_installs_entry_when_a_sender_exists() {
    let mut router: DefaultRouter<u8> = DefaultRouter::new(30_000);
    let mut registry: DefaultRegistry<u16> = DefaultRegistry::new();
    registry.register_connection(2, 99).unwrap();
    assert_eq!(router.begin_forward_on(10, 1, 2, &registry, 100), Some(&99));
    assert!(router.is_pending(10));
    assert_eq!(router.pending_requests[&10].deadline, 30_100);
    assert_eq!(router.begin_forward_on(11, 1, 3, &registry, 100), None);
    assert!(!router.is_pending(11));
}
