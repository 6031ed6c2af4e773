use mesh::config::{default_alb_port, default_aws_region, default_local_host, default_request_timeout, LoadBalancingStrategy};
use mesh::dispatcher::DefaultMessageDispatcher;
use mesh::error::IngressError;

#[test]
fn defaults() {
    assert_eq!(default_alb_port(), 8080);
    assert_eq!(default_request_timeout(), 30);
    assert_eq!(default_aws_region(), "us-east-1");
    assert_eq!(default_local_host(), "localhost");
    assert_eq!(LoadBalancingStrategy::default(), LoadBalancingStrategy::RoundRobin);
    let _ = DefaultMessageDispatcher::new();
    assert!(matches!(IngressError::bad_request("x"), IngressError::BadRequest { ref message } if message == "x"));
    assert!(IngressError::timeout(3).is_timeout());
}

#[test]
fn default_router_and_registry() {
    let router: mesh::router::DefaultRouter<()> = Default::default();
    assert_eq!(router.request_timeout, 30_000);
    assert!(!router.is_pending(1));
    let registry: mesh::registry::DefaultRegistry<()> = Default::default();
    assert!(registry.get_all_registrations().is_empty());
}

#[test]
fn error_constructors() {
    assert!(matches!(IngressError::send_failed("s"), IngressError::SendFailed { ref message } if message == "s"));
    assert!(matches!(IngressError::internal("i"), IngressError::Internal { ref message } if message == "i"));
    assert!(matches!(IngressError::registry_not_found(7), IngressError::RegistryNotFound { entity_id: 7 }));
    assert!(!IngressError::registry_not_found(7).is_timeout());
}
