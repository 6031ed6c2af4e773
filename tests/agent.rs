use mesh::agent::{
    auth_message, auth_step, forward_error_response, run_step, websocket_to_http_health_url, AgentConfig, AuthStep,
    InstanceWatch, OutboundToLocal, RunAction, RunEvent, WebSocketReverseProxy,
};
use mesh::types::{IamAuthResponse, IngressMessage};

fn config() -> AgentConfig {
    AgentConfig {
        client_id: 42,
        cluster_name: "test-cluster".to_string(),
        service_name: "test-service".to_string(),
        host: "test.local".to_string(),
        port: 3000,
        health_check_path: "/health".to_string(),
        task_arn: Some("arn:aws:ecs:us-east-1:123456789012:task/my-cluster/placeholder".to_string()),
    }
}

#[test]
fn health_url_from_control_endpoint() {
    assert_eq!(websocket_to_http_health_url("ws://localhost:8082").unwrap(), "http://localhost:8082/health");
    assert_eq!(websocket_to_http_health_url("wss://mesh.example.com/").unwrap(), "https://mesh.example.com/health");
    assert_eq!(websocket_to_http_health_url("wss://mesh.example.com:443/ctl").unwrap(), "https://mesh.example.com:443/ctl/health");
}

#[test]
fn local_ws_url_from_endpoint() {
    let p: WebSocketReverseProxy<()> = WebSocketReverseProxy::new("https://localhost:3000/".to_string());
    assert_eq!(p.to_ws_url("/ws"), "wss://localhost:3000/ws");
    let p: WebSocketReverseProxy<()> = WebSocketReverseProxy::new("http://127.0.0.1:8000".to_string());
    assert_eq!(p.to_ws_url("/echo?x=1"), "ws://127.0.0.1:8000/echo?x=1");
}

#[test]
fn registration_and_heartbeat_frames() {
    let c = config();
    let reg = c.register_service();
    assert_eq!(reg.id, 42);
    assert_eq!(reg.host, "test.local");
    assert_eq!(reg.health_check_path.as_deref(), Some("/health"));
    assert_eq!(reg.attributes.get("environment").map(|s| s.as_str()), Some("production"));
    assert!(matches!(c.heartbeat(), IngressMessage::HeartBeat { client_id: 42, .. }));
    assert!(matches!(auth_message(None), IngressMessage::IamAuth(ref r) if r.region == "us-east-1" && r.presigned_url.is_none()));
}

#[test]
fn handshake_steps() {
    let ok = IngressMessage::IamAuthResponse(IamAuthResponse { success: true, error: None, identity: None });
    assert!(matches!(auth_step(Some(ok)), AuthStep::Authenticated));
    let no = IngressMessage::IamAuthResponse(IamAuthResponse { success: false, error: Some("Role not allowed".to_string()), identity: None });
    assert!(matches!(auth_step(Some(no)), AuthStep::Rejected(Some(ref e)) if e == "Role not allowed"));
    assert!(matches!(auth_step(None), AuthStep::Ignore));
    assert!(matches!(auth_step(Some(config().heartbeat())), AuthStep::Ignore));
}

#[test]
fn run_loop_steps() {
    let c = config();
    assert!(matches!(run_step(&c, RunEvent::HeartbeatDue), RunAction::Send(IngressMessage::HeartBeat { client_id: 42, .. })));
    assert!(matches!(run_step(&c, RunEvent::InstanceChanged), RunAction::Reconnect));
    assert!(matches!(run_step(&c, RunEvent::Inbound(None)), RunAction::Reconnect));
    assert!(matches!(run_step(&c, RunEvent::InboundClosed), RunAction::Reconnect));
    assert!(matches!(run_step(&c, RunEvent::Inbound(Some(c.heartbeat()))), RunAction::Handle(_)));
}

#[test]
fn instance_change_triggers_reconnect() {
    let mut w = InstanceWatch::new();
    assert!(!w.observe("a"));
    assert!(!w.observe("a"));
    assert!(w.observe("b"));
}

#[test]
fn agent_side_frames_and_errors() {
    let mut p: WebSocketReverseProxy<u8> = WebSocketReverseProxy::new("http://x".to_string());
    p.session_opened(1, 7);
    assert!(matches!(p.handle_data_from_server(1, "ping", None), Some((_, OutboundToLocal::Ping))));
    assert!(matches!(p.handle_data_from_server(1, "pong", None), Some((_, OutboundToLocal::Pong))));
    assert!(p.handle_data_from_server(1, "weird", None).is_none());
    assert!(p.handle_data_from_server(2, "ping", None).is_none());
    assert!(matches!(p.handle_close_from_server(1, None, None), Some((7, OutboundToLocal::Close(None, None)))));
    assert!(p.handle_close_from_server(1, None, None).is_none());
    let failed = p.session_failed(3, "refused".to_string());
    assert!(matches!(failed, IngressMessage::WebSocketProxyInitAck { success: false, message: Some(ref m), .. } if m == "refused"));
    let e = forward_error_response(5, "boom");
    assert_eq!(e.status_code, 500);
    assert_eq!(e.body, Some(b"Internal Server Error: boom".to_vec()));
}
