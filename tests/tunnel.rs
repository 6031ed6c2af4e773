use mesh::agent::{OutboundToLocal, WebSocketReverseProxy};
use mesh::registry::DefaultRegistry;
use mesh::types::{IngressMessage, ServiceRegistration};
use mesh::ws_tunnel::{
    agent_data_to_frame, peer_frame_to_message, plan_ws_tunnel, switching_protocols_headers, ws_init_message,
    AlbOutboundFrame, PeerFrame, TunnelPlan, WsSessionTable,
};
use std::collections::HashMap;

fn registration(id: u128, host: &str) -> ServiceRegistration {
    ServiceRegistration {
        id,
        service_name: "ws".to_string(),
        host: host.to_string(),
        port: 3000,
        cluster_name: "c".to_string(),
        task_arn: String::new(),
        health_check_path: None,
        attributes: HashMap::new(),
    }
}

fn reject_status(p: TunnelPlan) -> u16 {
    match p {
        TunnelPlan::Reject { status, .. } => status,
        TunnelPlan::Open { .. } => 0,
    }
}

#[test]
fn binary_frames_round_trip_through_base64() {
    let bytes: Vec<u8> = (0..=255u8).chain([0u8, 255, 1]).collect();
    let msg = peer_frame_to_message(1, PeerFrame::Binary(bytes.clone())).unwrap();
    let payload = match &msg {
        IngressMessage::WebSocketProxyData { frame_type, payload: Some(p), .. } => {
            assert_eq!(frame_type, "binary");
            p.clone()
        }
        _ => panic!("a binary data frame"),
    };
    assert_ne!(payload.as_bytes(), bytes.as_slice());
    match agent_data_to_frame("binary", Some(payload.clone())) {
        Some(AlbOutboundFrame::Binary(b)) => assert_eq!(b, bytes),
        _ => panic!("decodes"),
    }
    let mut agent: WebSocketReverseProxy<()> = WebSocketReverseProxy::new("http://x".to_string());
    agent.session_opened(1, ());
    match agent.handle_data_from_server(1, "binary", Some(payload)) {
        Some((_, OutboundToLocal::Binary(b))) => assert_eq!(b, bytes),
        _ => panic!("decodes on the agent too"),
    }
    assert!(agent_data_to_frame("binary", Some("not base64!".to_string())).is_none());
    let empty = peer_frame_to_message(2, PeerFrame::Binary(Vec::new())).unwrap();
    assert!(matches!(empty, IngressMessage::WebSocketProxyData { payload: Some(ref p), .. } if p.is_empty()));
    let enc = peer_frame_to_message(3, PeerFrame::Binary(b"hi".to_vec())).unwrap();
    assert!(matches!(enc, IngressMessage::WebSocketProxyData { payload: Some(ref p), .. } if p == "aGk="));
}

#[test]
fn control_frames_carry_no_payload() {
    assert!(matches!(
        peer_frame_to_message(1, PeerFrame::Ping),
        Some(IngressMessage::WebSocketProxyData { ref frame_type, payload: None, .. }) if frame_type == "ping"
    ));
    assert!(matches!(
        peer_frame_to_message(1, PeerFrame::Close(Some("bye".to_string()))),
        Some(IngressMessage::WebSocketProxyClose { code: None, reason: Some(ref r), .. }) if r == "bye"
    ));
    assert!(peer_frame_to_message(1, PeerFrame::Other).is_none());
    assert!(agent_data_to_frame("ping", None).is_none());
    assert!(agent_data_to_frame("text", None).is_none());
}

#[test]
fn tunnel_admission_statuses() {
    let mut registry: DefaultRegistry<()> = DefaultRegistry::new();
    assert_eq!(reject_status(plan_ws_tunnel(false, true, "a.local", &registry, 0)), 501);
    assert_eq!(reject_status(plan_ws_tunnel(true, false, "a.local", &registry, 0)), 400);
    assert_eq!(reject_status(plan_ws_tunnel(true, true, "a.local", &registry, 0)), 404);
    registry.register_service(4, registration(4, "a.local"), 0).unwrap();
    assert_eq!(reject_status(plan_ws_tunnel(true, true, "a.local", &registry, 60_000)), 503);
    assert_eq!(reject_status(plan_ws_tunnel(true, true, "a.local", &registry, 1_000)), 502);
    registry.register_connection(4, ()).unwrap();
    assert!(matches!(plan_ws_tunnel(true, true, "a.local", &registry, 1_000), TunnelPlan::Open { connection_id: 4 }));
}

#[test]
fn init_message_carries_headers_and_subprotocols() {
    let downstream = vec![
        ("host".to_string(), "a.local".to_string()),
        ("user-agent".to_string(), "x".to_string()),
        ("sec-websocket-protocol".to_string(), " chat , superchat,".to_string()),
        ("cookie".to_string(), "k=v".to_string()),
    ];
    match ws_init_message(8, "a.local".to_string(), "/ws?x=1".to_string(), &downstream) {
        IngressMessage::WebSocketProxyInit { session_id, target_host, path, headers, subprotocols } => {
            assert_eq!(session_id, 8);
            assert_eq!(target_host, "a.local");
            assert_eq!(path, "/ws?x=1");
            let names: Vec<&str> = headers.iter().map(|(n, _)| n.as_str()).collect();
            assert_eq!(names, vec!["host", "sec-websocket-protocol", "cookie"]);
            assert_eq!(subprotocols, Some(vec!["chat".to_string(), "superchat".to_string(), String::new()]));
        }
        _ => panic!("an init frame"),
    }
}

#[test]
fn accept_key_follows_the_websocket_handshake() {
    let h = switching_protocols_headers("dGhlIHNhbXBsZSBub25jZQ==");
    assert_eq!(h[0], ("upgrade".to_string(), "websocket".to_string()));
    assert_eq!(h[1], ("connection".to_string(), "upgrade".to_string()));
    assert_eq!(h[2], ("sec-websocket-accept".to_string(), "s3pPLMBiTxaQ9kYGzzhZRbK+xOo=".to_string()));
}

#[test]
fn session_lifecycle() {
    let mut t: WsSessionTable<u8, u8> = WsSessionTable::new();
    t.open_session(1, 10, 5, 6);
    assert!(t.init_waiters.contains_key(&1));
    assert!(t.handle_ws_proxy_data_from_agent(1, "text", Some("x".to_string())).is_some());
    let (w, ack) = t.handle_ws_proxy_init_ack(1, true, None, None).unwrap();
    assert_eq!(w, 6);
    assert!(ack.success);
    assert!(t.sessions.contains_key(&1));
    assert!(t.handle_ws_proxy_init_ack(1, true, None, None).is_none());
    let (tx, frame) = t.handle_ws_proxy_close_from_agent(1, Some(1000), Some("done".to_string())).unwrap();
    assert_eq!(tx, 5);
    assert!(matches!(frame, AlbOutboundFrame::Close(Some(1000), Some(ref r)) if r == "done"));
    assert!(!t.sessions.contains_key(&1));
    assert!(t.handle_ws_proxy_close_from_agent(1, None, None).is_none());
    t.open_session(2, 10, 5, 6);
    let _ = t.handle_ws_proxy_init_ack(2, false, Some("dial failed".to_string()), None).unwrap();
    assert!(!t.sessions.contains_key(&2));
    assert!(t.handle_ws_proxy_data_from_agent(2, "text", Some("x".to_string())).is_none());
    t.open_session(3, 10, 5, 6);
    assert!(t.end_session(3, true).is_none());
    assert!(!t.sessions.contains_key(&3));
}
