//! The control-channel vocabulary shared by server and agent.
//!
//! Identifiers (connections, requests, sessions) are 128-bit values.
//! Header maps are lists of name/value pairs: a request's list holds each
//! name once (later values replace earlier ones), while a response's list
//! keeps duplicates in order.
use std::collections::HashMap;
use vstd::prelude::*;

verus! {

/// Identity-handshake request sent by an agent.
#[derive(Debug, Clone)]
pub struct IamAuthRequest {
    pub presigned_url: Option<String>,
    pub region: String,
    pub arn: Option<String>,
    pub account_id: Option<String>,
    pub user_id: Option<String>,
}

/// Validated identity of an agent.
#[derive(Debug, Clone)]
pub struct IamIdentity {
    pub arn: String,
    pub account_id: String,
    pub user_id: String,
    pub principal_type: String,
}

/// Outcome of the identity handshake.
#[derive(Debug, Clone)]
pub struct IamAuthResponse {
    pub success: bool,
    pub error: Option<String>,
    pub identity: Option<IamIdentity>,
}

/// A static route entry.
#[derive(Debug, Clone)]
pub struct RouteConfig {
    pub host: String,
    pub target_service: String,
    pub ecs_cluster: String,
    pub ecs_service: String,
    pub attributes: HashMap<String, String>,
}

/// A service registration; its `id` is the owning connection's id once stored.
#[derive(Debug, Clone)]
pub struct ServiceRegistration {
    pub id: u128,
    pub host: String,
    pub port: u16,
    pub service_name: String,
    pub cluster_name: String,
    pub task_arn: String,
    pub attributes: HashMap<String, String>,
    pub health_check_path: Option<String>,
}

/// An HTTP request envelope.
#[derive(Debug, Clone)]
pub struct ProxyRequest {
    pub id: u128,
    pub method: String,
    pub path: String,
    pub headers: Vec<(String, String)>,
    pub body: Option<Vec<u8>>,
    pub target_host: String,
}

/// An HTTP response envelope.
#[derive(Debug, Clone)]
pub struct ProxyResponse {
    pub id: u128,
    pub status_code: u16,
    pub headers: Vec<(String, String)>,
    pub body: Option<Vec<u8>>,
}

/// What the server knows of an agent connection; times are milliseconds
/// since the Unix epoch.
#[derive(Debug, Clone)]
pub struct ConnectionInfo {
    pub id: u128,
    pub service_name: String,
    pub host: String,
    pub port: u16,
    pub last_heartbeat: u64,
    pub attributes: HashMap<String, String>,
}

/// One frame of the control channel.
#[allow(inconsistent_fields)]
#[derive(Debug, Clone)]
pub enum IngressMessage {
    HeartBeat { cluster_name: String, client_id: u128 },
    ProxyResponse(ProxyResponse),
    ProxyRequest(ProxyRequest),
    ProxyRequestForward(ProxyRequest),
    WebSocketProxyInit {
        session_id: u128,
        target_host: String,
        path: String,
        headers: Vec<(String, String)>,
        subprotocols: Option<Vec<String>>,
    },
    WebSocketProxyInitAck {
        session_id: u128,
        success: bool,
        message: Option<String>,
        response_headers: Option<Vec<(String, String)>>,
    },
    WebSocketProxyData { session_id: u128, frame_type: String, payload: Option<String> },
    WebSocketProxyClose { session_id: u128, code: Option<u16>, reason: Option<String> },
    IamAuth(IamAuthRequest),
    ServiceRegistration(ServiceRegistration),
    ServiceDeregistration { id: u128 },
    IamAuthResponse(IamAuthResponse),
    RegistrationAck { id: u128, success: bool, message: String },
}

/// The view of a header list: each pair as two character sequences.
pub open spec fn headers_view(h: Seq<(String, String)>) -> Seq<(Seq<char>, Seq<char>)> {
    h.map_values(|p: (String, String)| (p.0@, p.1@))
}

/// Each header name occurs at most once.
pub open spec fn names_unique(h: Seq<(Seq<char>, Seq<char>)>) -> bool {
    forall|i: int, j: int| 0 <= i < j < h.len() ==> h[i].0 != h[j].0
}

/// The value under `name` in a list whose names are unique.
pub open spec fn header_lookup(h: Seq<(Seq<char>, Seq<char>)>, name: Seq<char>) -> Option<
    Seq<char>,
> {
    if exists|i: int| 0 <= i < h.len() && h[i].0 == name {
        let i = choose|i: int| 0 <= i < h.len() && h[i].0 == name;
        Some(h[i].1)
    } else {
        None
    }
}

} // verus!
