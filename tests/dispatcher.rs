use mesh::auth::DefaultAuthService;
use mesh::dispatcher::{DefaultMessageDispatcher, DispatchAction};
use mesh::error::IngressError;
use mesh::registry::DefaultRegistry;
use mesh::router::DefaultRouter;
use mesh::types::{IngressMessage, ServiceRegistration};
use mesh::ws_tunnel::WsSessionTable;
use std::collections::HashMap;
use tokio::sync::mpsc;

fn registration(id: u128) -> ServiceRegistration {
    ServiceRegistration {
        id,
        service_name: "test-service".to_string(),
        host: "localhost".to_string(),
        port: 8080,
        cluster_name: "test-cluster".to_string(),
        task_arn: "arn:aws:ecs:us-east-1:123456789012:task/test-cluster/test-task".to_string(),
        health_check_path: Some("/health".to_string()),
        attributes: HashMap::new(),
    }
}

#[test]
fn test_handle_heartbeat() {
    let dispatcher = DefaultMessageDispatcher::new();
    let mut registry: DefaultRegistry<()> = DefaultRegistry::new();
    let connection_id: u128 = 11;

    registry.register_service(connection_id, registration(connection_id), 0).unwrap();

    let result = dispatcher.handle_heartbeat(connection_id, "test-cluster".to_string(), &mut registry, 1_000);

    assert!(result.is_ok());
}

#[test]
fn test_handle_service_registration() {
    let dispatcher = DefaultMessageDispatcher::new();
    let mut registry = DefaultRegistry::new();
    let connection_id: u128 = 12;
    let (sender, _receiver) = mpsc::unbounded_channel::<IngressMessage>();

    registry.register_connection(connection_id, sender).unwrap();

    let result = dispatcher.handle_service_registration(connection_id, registration(connection_id), &mut registry, 0);

    assert!(result.is_ok());

    let all_registrations = registry.get_all_registrations();
    assert_eq!(all_registrations.len(), 1);
}

#[test]
fn test_handle_service_deregistration() {
    let dispatcher = DefaultMessageDispatcher::new();
    let mut registry: DefaultRegistry<()> = DefaultRegistry::new();
    let connection_id: u128 = 13;

    registry.register_service(connection_id, registration(connection_id), 0).unwrap();

    let result = dispatcher.handle_service_deregistration(connection_id, &mut registry);

    assert!(result.is_ok());

    let all_registrations = registry.get_all_registrations();
    assert_eq!(all_registrations.len(), 0);
}

#[test]
fn test_send_response_no_connection() {
    let dispatcher = DefaultMessageDispatcher::new();
    let registry: DefaultRegistry<()> = DefaultRegistry::new();
    let connection_id: u128 = 14;

    let response = IngressMessage::RegistrationAck {
        id: connection_id,
        success: true,
        message: "test".to_string(),
    };

    let result = dispatcher.send_response(connection_id, response, &registry);

    assert!(result.is_err());
}

#[test]
fn unparsed_and_unexpected_frames_are_bad_requests() {
    let dispatcher = DefaultMessageDispatcher::new();
    let auth = DefaultAuthService::new(vec![], true);
    let mut registry: DefaultRegistry<()> = DefaultRegistry::new();
    let mut router: DefaultRouter<()> = DefaultRouter::new(30_000);
    let mut sessions: WsSessionTable<(), ()> = WsSessionTable::new();
    let r = dispatcher.handle_message(1, Err("expected value".to_string()), &auth, &mut registry, &mut router, &mut sessions, 0);
    match r {
        Err(IngressError::BadRequest { message }) => assert_eq!(message, "Failed to parse message: expected value"),
        _ => panic!("a parse failure is a bad request"),
    }
    let r = dispatcher.handle_message(1, Ok(IngressMessage::ServiceDeregistration { id: 3 }), &auth, &mut registry, &mut router, &mut sessions, 0);
    assert!(matches!(r, Ok(DispatchAction::Done)));
    let r = dispatcher.handle_message(
        1,
        Ok(IngressMessage::RegistrationAck { id: 1, success: true, message: String::new() }),
        &auth,
        &mut registry,
        &mut router,
        &mut sessions,
        0,
    );
    match r {
        Ok(DispatchAction::Refused { error: IngressError::BadRequest { message }, reply }) => {
            assert_eq!(message, "Unexpected message type from Anywhere Mesh service");
            match reply {
                IngressMessage::RegistrationAck { id, success, message } => {
                    assert_eq!(id, 1);
                    assert!(!success);
                    assert_eq!(message, "Bad request: Unexpected message type from Anywhere Mesh service");
                }
                _ => panic!("a failed acknowledgement"),
            }
        }
        _ => panic!("agents do not send acks"),
    }
}

#[test]
fn heartbeat_for_unknown_connection_is_an_error() {
    let dispatcher = DefaultMessageDispatcher::new();
    let auth = DefaultAuthService::new(vec![], false);
    let mut registry: DefaultRegistry<()> = DefaultRegistry::new();
    let mut router: DefaultRouter<()> = DefaultRouter::new(30_000);
    let mut sessions: WsSessionTable<(), ()> = WsSessionTable::new();
    let hb = IngressMessage::HeartBeat { cluster_name: "c".to_string(), client_id: 5 };
    let r = dispatcher.handle_message(5, Ok(hb), &auth, &mut registry, &mut router, &mut sessions, 0);
    assert!(matches!(r, Err(IngressError::RegistryNotFound { entity_id: 5 })));
}
