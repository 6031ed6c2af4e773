use mesh::routing::{candidate_services, is_wildcard_match, match_host_to_service, select_healthy_id};
use mesh::types::{ConnectionInfo, ServiceRegistration};
use std::collections::HashMap;

fn registration(id: u128, host: &str) -> ServiceRegistration {
    ServiceRegistration {
        id,
        service_name: format!("svc-{}", id),
        host: host.to_string(),
        port: 80,
        cluster_name: "c".to_string(),
        task_arn: String::new(),
        health_check_path: None,
        attributes: HashMap::new(),
    }
}

fn connection(id: u128, last_heartbeat: u64) -> ConnectionInfo {
    ConnectionInfo {
        id,
        service_name: "s".to_string(),
        host: "h".to_string(),
        port: 80,
        last_heartbeat,
        attributes: HashMap::new(),
    }
}

#[test]
fn wildcard_matches_subdomain_but_not_apex() {
    assert!(is_wildcard_match("*.example.com", "a.example.com"));
    assert!(!is_wildcard_match("*.example.com", "example.com"));
    assert!(!is_wildcard_match("api.example.com", "api.example.com"));
}

#[test]
fn exact_match_beats_earlier_wildcard() {
    let regs = vec![registration(1, "*.local"), registration(2, "api.local")];
    assert_eq!(match_host_to_service("api.local", &regs).unwrap().id, 2);
    assert_eq!(match_host_to_service("web.local", &regs).unwrap().id, 1);
    assert!(match_host_to_service("local", &regs).is_none());
    assert_eq!(candidate_services("api.local", &regs), vec![2, 1]);
}

#[test]
fn stale_heartbeat_disqualifies() {
    let mut conns = HashMap::new();
    conns.insert(1u128, connection(1, 0));
    conns.insert(2u128, connection(2, 50_000));
    assert_eq!(select_healthy_id(&[1, 2], &conns, 59_999), Some(1));
    assert_eq!(select_healthy_id(&[1, 2], &conns, 60_000), Some(2));
    assert_eq!(select_healthy_id(&[1, 2], &conns, 110_000), None);
    assert_eq!(select_healthy_id(&[3], &conns, 0), None);
}
