use mesh::registry::DefaultRegistry;
use mesh::types::{IngressMessage, ServiceRegistration};
use std::collections::HashMap;
use tokio::sync::mpsc;

fn registration(id: u128, host: &str) -> ServiceRegistration {
    ServiceRegistration {
        id,
        service_name: "test-service".to_string(),
        host: host.to_string(),
        port: 8080,
        cluster_name: "test-cluster".to_string(),
        task_arn: "arn:aws:ecs:us-east-1:123456789012:task/test-cluster/test-task".to_string(),
        health_check_path: Some("/health".to_string()),
        attributes: HashMap::new(),
    }
}

#[test]
fn test_connection_lifecycle() {
    let mut registry = DefaultRegistry::new();
    let connection_id: u128 = 0x1234;
    let (sender, _receiver) = mpsc::unbounded_channel::<IngressMessage>();

    registry.register_connection(connection_id, sender).unwrap();

    let sender = registry.get_connection_sender(connection_id);
    assert!(sender.is_some());

    registry.remove_connection(connection_id).unwrap();

    let sender = registry.get_connection_sender(connection_id);
    assert!(sender.is_none());
}

#[test]
fn test_service_registration() {
    let mut registry: DefaultRegistry<()> = DefaultRegistry::new();
    let connection_id: u128 = 77;

    registry
        .register_service(connection_id, registration(connection_id, "localhost"), 1_000)
        .unwrap();

    let all_registrations = registry.get_all_registrations();
    assert_eq!(all_registrations.len(), 1);
    assert_eq!(all_registrations[0].service_name, "test-service");

    registry.deregister_service(connection_id).unwrap();

    let all_registrations = registry.get_all_registrations();
    assert_eq!(all_registrations.len(), 0);
}

#[test]
fn registration_id_is_normalized_and_overwritten() {
    let mut registry: DefaultRegistry<()> = DefaultRegistry::new();
    registry.register_service(5, registration(999, "a.local"), 10).unwrap();
    registry.register_service(5, registration(1000, "b.local"), 20).unwrap();
    let regs = registry.get_all_registrations();
    assert_eq!(regs.len(), 1);
    assert_eq!(regs[0].id, 5);
    assert_eq!(regs[0].host, "b.local");
    assert_eq!(registry.get_all_connections()[&5].last_heartbeat, 20);
    let mut reg = registration(5, "c.local");
    reg.attributes.insert("zone".to_string(), "a".to_string());
    registry.register_service(5, reg, 30).unwrap();
    assert_eq!(registry.get_all_connections()[&5].attributes.get("zone").map(|s| s.as_str()), Some("a"));
}

#[test]
fn remove_connection_purges_all_tables() {
    let mut registry: DefaultRegistry<u8> = DefaultRegistry::new();
    registry.register_connection(1, 10).unwrap();
    registry.register_connection(2, 20).unwrap();
    registry.register_service(1, registration(1, "one.local"), 0).unwrap();
    registry.register_service(2, registration(2, "two.local"), 0).unwrap();
    registry.remove_connection(1).unwrap();
    assert!(registry.get_connection_sender(1).is_none());
    assert_eq!(registry.get_connection_sender(2), Some(&20));
    assert!(!registry.get_all_connections().contains_key(&1));
    let regs = registry.get_all_registrations();
    assert_eq!(regs.len(), 1);
    assert_eq!(regs[0].id, 2);
}

#[test]
fn heartbeat_moves_forward_and_unknown_is_error() {
    let mut registry: DefaultRegistry<()> = DefaultRegistry::new();
    registry.register_service(3, registration(3, "h.local"), 100).unwrap();
    registry.update_heartbeat(3, 250).unwrap();
    assert_eq!(registry.get_all_connections()[&3].last_heartbeat, 250);
    let err = registry.update_heartbeat(4, 300).unwrap_err();
    assert!(matches!(err, mesh::error::IngressError::RegistryNotFound { entity_id: 4 }));
}
