//! The agent: its identity and registration frames, the decisions of its
//! control loop (authentication, dispatch of inbound frames, reconnect on
//! server turnover), its reverse WebSocket proxy towards the local service,
//! and the envelopes of its HTTP forwarder. Sockets, timers and the local
//! HTTP client are driven by the caller.
use crate::codec::{base64_decode, base64_decoded};
use crate::text::{find_from, has_prefix, occurs_at, owned, push_str, starts_with, str_eq, substring};
use crate::types::{IamAuthRequest, IngressMessage, ProxyRequest, ProxyResponse, ServiceRegistration};
use vstd::utf8::encode_utf8;
use std::collections::HashMap;
use vstd::prelude::*;

verus! {

broadcast use vstd::std_specs::hash::group_hash_axioms;

/// Pause between two dial attempts, in milliseconds.
pub const RECONNECT_DELAY_MS: u64 = 5_000;

/// Period of heartbeats, in milliseconds.
pub const HEARTBEAT_INTERVAL_MS: u64 = 15_000;

/// How long the agent waits for the answer to its identity handshake
/// before closing and dialing again, in milliseconds.
pub const AUTH_TIMEOUT_MS: u64 = 30_000;

/// Period of the server health poll, in milliseconds.
pub const HEALTH_POLL_INTERVAL_MS: u64 = 10_000;

/// `s` without trailing slashes.
pub open spec fn trim_end_slashes(s: Seq<char>) -> Seq<char>
    decreases s.len(),
{
    if s.len() > 0 && s.last() == '/' {
        trim_end_slashes(s.drop_last())
    } else {
        s
    }
}

/// `s` with a leading `from` replaced by `to`; unchanged without it.
pub open spec fn replace_prefix(s: Seq<char>, from: Seq<char>, to: Seq<char>) -> Seq<char> {
    if has_prefix(s, from) {
        to + s.skip(from.len() as int)
    } else {
        s
    }
}

/// The local WebSocket URL for `path`: the local endpoint with `http`
/// turned into `ws` (`https` into `wss`), without trailing slashes, then
/// `path`.
pub open spec fn local_ws_url(endpoint: Seq<char>, path: Seq<char>) -> Seq<char> {
    let base = if has_prefix(endpoint, "https://"@) {
        replace_prefix(endpoint, "https://"@, "wss://"@)
    } else {
        replace_prefix(endpoint, "http://"@, "ws://"@)
    };
    trim_end_slashes(base) + path
}

/// The control endpoint with `ws` turned into `http` (`wss` into `https`).
pub open spec fn http_form(endpoint: Seq<char>) -> Seq<char> {
    if has_prefix(endpoint, "wss://"@) {
        replace_prefix(endpoint, "wss://"@, "https://"@)
    } else {
        replace_prefix(endpoint, "ws://"@, "http://"@)
    }
}

/// The server health URL derived from the control endpoint: `ws` turned
/// into `http` (`wss` into `https`); if the first `/` stands after the
/// eighth character the rest is dropped, else trailing slashes are; then
/// `/health`.
pub open spec fn health_url(endpoint: Seq<char>) -> Seq<char> {
    let url = http_form(endpoint);
    if exists|k: int| 7 < k && occurs_at(url, "/"@, k) && forall|j: int| 0 <= j < k ==> !occurs_at(url, "/"@, j) {
        let k = choose|k: int| 7 < k && occurs_at(url, "/"@, k) && forall|j: int| 0 <= j < k ==> !occurs_at(url, "/"@, j);
        url.subrange(0, k) + "/health"@
    } else {
        trim_end_slashes(url) + "/health"@
    }
}

fn replace_leading(s: &str, from: &str, to: &str) -> (r: String)
    ensures
        r@ == replace_prefix(s@, from@, to@),
{
    if starts_with(s, from) {
        let mut out = owned(to);
        let rest = s.substring_char(from.unicode_len(), s.unicode_len());
        push_str(&mut out, rest);
        out
    } else {
        owned(s)
    }
}

fn without_trailing_slashes(s: &str) -> (r: String)
    ensures
        r@ == trim_end_slashes(s@),
{
    let mut hi: usize = s.unicode_len();
    assert(s@.subrange(0, hi as int) == s@);
    while hi > 0 && s.get_char(hi - 1) == '/'
        invariant
            hi <= s@.len(),
            trim_end_slashes(s@) == trim_end_slashes(s@.subrange(0, hi as int)),
        decreases hi,
    {
        assert(s@.subrange(0, hi as int).drop_last() == s@.subrange(0, hi - 1));
        hi = hi - 1;
    }
    assert(trim_end_slashes(s@.subrange(0, hi as int)) == s@.subrange(0, hi as int));
    substring(s, 0, hi)
}

/// The control endpoint's health URL, which the instance watcher polls.
pub fn websocket_to_http_health_url(ingress_endpoint: &str) -> (r: Option<String>)
    ensures
        r matches Some(u) && u@ == health_url(ingress_endpoint@),
{
    let url = if starts_with(ingress_endpoint, "wss://") {
        replace_leading(ingress_endpoint, "wss://", "https://")
    } else {
        replace_leading(ingress_endpoint, "ws://", "http://")
    };
    let ghost u = url@;
    assert(u == http_form(ingress_endpoint@));
    let ghost expected = health_url(ingress_endpoint@);
    let mut out = match find_from(url.as_str(), "/", 0) {
        Some(idx) if idx > 7 => {
            proof {
                assert(7 < idx && occurs_at(u, "/"@, idx as int) && forall|j: int| 0 <= j < idx ==> !occurs_at(u, "/"@, j));
                let k = choose|k: int| 7 < k && occurs_at(u, "/"@, k) && forall|j: int| 0 <= j < k ==> !occurs_at(u, "/"@, j);
                if k > idx {
                    assert(!occurs_at(u, "/"@, idx as int));
                }
                if k < idx {
                    assert(!occurs_at(u, "/"@, k));
                }
                assert(k == idx);
                assert(health_url(ingress_endpoint@) == u.subrange(0, idx as int) + "/health"@);
            }
            substring(url.as_str(), 0, idx)
        },
        found => {
            proof {
                if exists|k: int| 7 < k && occurs_at(u, "/"@, k) && forall|j: int| 0 <= j < k ==> !occurs_at(u, "/"@, j) {
                    let k = choose|k: int| 7 < k && occurs_at(u, "/"@, k) && forall|j: int| 0 <= j < k ==> !occurs_at(u, "/"@, j);
                    match found {
                        Some(idx) => {
                            if k > idx {
                                assert(!occurs_at(u, "/"@, idx as int));
                            }
                            assert(false);
                        },
                        None => {
                            assert(!occurs_at(u, "/"@, k));
                        },
                    }
                }
                assert(health_url(ingress_endpoint@) == trim_end_slashes(u) + "/health"@);
            }
            without_trailing_slashes(url.as_str())
        },
    };
    let ghost before = out@;
    push_str(&mut out, "/health");
    assert(out@ == before + "/health"@);
    assert(out@ == expected);
    Some(out)
}

/// A frame to write to the local WebSocket.
#[derive(Debug, Clone)]
pub enum OutboundToLocal {
    Text(String),
    Binary(Vec<u8>),
    Ping,
    Pong,
    Close(Option<u16>, Option<String>),
}

/// The agent's tunnel sessions towards its local service. `T` is a
/// session's channel to the local socket's writer.
pub struct WebSocketReverseProxy<T> {
    pub local_endpoint: String,
    pub sessions: HashMap<u128, T>,
}

impl<T> WebSocketReverseProxy<T> {
    pub fn new(local_endpoint: String) -> (r: Self)
        ensures
            r.local_endpoint == local_endpoint,
            r.sessions@ == Map::<u128, T>::empty(),
    {
        WebSocketReverseProxy { local_endpoint, sessions: HashMap::new() }
    }

    /// The local WebSocket URL for `path`.
    pub fn to_ws_url(&self, path: &str) -> (r: String)
        ensures
            r@ == local_ws_url(self.local_endpoint@, path@),
    {
        let e = self.local_endpoint.as_str();
        let base = if starts_with(e, "https://") {
            replace_leading(e, "https://", "wss://")
        } else {
            replace_leading(e, "http://", "ws://")
        };
        let mut out = without_trailing_slashes(base.as_str());
        push_str(&mut out, path);
        out
    }

    /// The local socket of session `session_id` is open: the session joins
    /// the table and the server gets a successful ack.
    pub fn session_opened(&mut self, session_id: u128, to_local: T) -> (r: IngressMessage)
        ensures
            final(self).sessions@ == old(self).sessions@.insert(session_id, to_local),
            final(self).local_endpoint == old(self).local_endpoint,
            r == (IngressMessage::WebSocketProxyInitAck {
                session_id,
                success: true,
                message: None,
                response_headers: None,
            }),
    {
        self.sessions.insert(session_id, to_local);
        IngressMessage::WebSocketProxyInitAck {
            session_id,
            success: true,
            message: None,
            response_headers: None,
        }
    }

    /// Dialing the local socket failed: the server gets a failed ack with the
    /// dial error.
    pub fn session_failed(&self, session_id: u128, error: String) -> (r: IngressMessage)
        ensures
            r == (IngressMessage::WebSocketProxyInitAck {
                session_id,
                success: false,
                message: Some(error),
                response_headers: None,
            }),
    {
        IngressMessage::WebSocketProxyInitAck {
            session_id,
            success: false,
            message: Some(error),
            response_headers: None,
        }
    }

    /// A data frame from the server: the session's local channel and the
    /// frame to write. Unknown sessions, unknown kinds, a missing text or
    /// binary payload and invalid base64 give `None`.
    pub fn handle_data_from_server(&self, session_id: u128, frame_type: &str, payload: Option<String>) -> (r: Option<(&T, OutboundToLocal)>)
        ensures
            match r {
                Some((tx, frame)) => {
                    &&& self.sessions@.contains_key(session_id)
                    &&& *tx == self.sessions@[session_id]
                    &&& if frame_type@ == "text"@ {
                        payload matches Some(p) && frame == OutboundToLocal::Text(p)
                    } else if frame_type@ == "binary"@ {
                        &&& payload matches Some(p)
                        &&& base64_decoded(p@) matches Some(bytes)
                        &&& frame matches OutboundToLocal::Binary(v) && v@ == bytes
                    } else if frame_type@ == "ping"@ {
                        frame == OutboundToLocal::Ping
                    } else {
                        frame_type@ == "pong"@ && frame == OutboundToLocal::Pong
                    }
                },
                None => !self.sessions@.contains_key(session_id) || (frame_type@ != "text"@
                    && frame_type@ != "binary"@ && frame_type@ != "ping"@ && frame_type@ != "pong"@)
                    || ((frame_type@ == "text"@ || frame_type@ == "binary"@) && payload is None)
                    || (frame_type@ == "binary"@ && base64_decoded(payload.unwrap()@) is None),
            },
    {
        match self.sessions.get(&session_id) {
            Some(tx) => {
                if str_eq(frame_type, "text") {
                    match payload {
                        Some(p) => Some((tx, OutboundToLocal::Text(p))),
                        None => None,
                    }
                } else if str_eq(frame_type, "binary") {
                    match payload {
                        Some(p) => match base64_decode(p.as_str()) {
                            Some(bytes) => Some((tx, OutboundToLocal::Binary(bytes))),
                            None => None,
                        },
                        None => None,
                    }
                } else if str_eq(frame_type, "ping") {
                    Some((tx, OutboundToLocal::Ping))
                } else if str_eq(frame_type, "pong") {
                    Some((tx, OutboundToLocal::Pong))
                } else {
                    None
                }
            },
            None => None,
        }
    }

    /// The server closed a session: it leaves the table and its local
    /// channel is handed back with the close frame to write.
    pub fn handle_close_from_server(&mut self, session_id: u128, code: Option<u16>, reason: Option<String>) -> (r: Option<(T, OutboundToLocal)>)
        ensures
            final(self).sessions@ == old(self).sessions@.remove(session_id),
            final(self).local_endpoint == old(self).local_endpoint,
            match r {
                Some((tx, frame)) => old(self).sessions@.contains_key(session_id) && tx
                    == old(self).sessions@[session_id] && frame == OutboundToLocal::Close(code, reason),
                None => !old(self).sessions@.contains_key(session_id),
            },
    {
        match self.sessions.remove(&session_id) {
            Some(tx) => Some((tx, OutboundToLocal::Close(code, reason))),
            None => None,
        }
    }

    /// Both pumps of a session stopped: it leaves the table.
    pub fn session_ended(&mut self, session_id: u128)
        ensures
            final(self).sessions@ == old(self).sessions@.remove(session_id),
            final(self).local_endpoint == old(self).local_endpoint,
    {
        self.sessions.remove(&session_id);
    }
}

/// The agent's identity and the service it registers.
pub struct AgentConfig {
    pub client_id: u128,
    pub cluster_name: String,
    pub service_name: String,
    pub host: String,
    pub port: u16,
    pub health_check_path: String,
    pub task_arn: Option<String>,
}

impl AgentConfig {
    /// Free-form attributes of the registration: environment, version and
    /// task ARN when the task ARN is known, else none.
    pub fn get_service_attributes(&self) -> (r: HashMap<String, String>)
        ensures
            self.task_arn is None ==> r@ == Map::<String, String>::empty(),
    {
        let mut attributes: HashMap<String, String> = HashMap::new();
        match &self.task_arn {
            Some(arn) => {
                attributes.insert(owned("environment"), owned("production"));
                attributes.insert(owned("version"), owned("1.0.0"));
                attributes.insert(owned("task_arn"), arn.clone());
            },
            None => {},
        }
        attributes
    }

    /// The registration the agent announces after authenticating.
    pub fn register_service(&self) -> (r: ServiceRegistration)
        ensures
            r.id == self.client_id,
            r.service_name@ == self.service_name@,
            r.host@ == self.host@,
            r.port == self.port,
            r.cluster_name@ == self.cluster_name@,
            r.task_arn@ == match self.task_arn {
                Some(a) => a@,
                None => Seq::<char>::empty(),
            },
            r.health_check_path matches Some(p) && p@ == self.health_check_path@,
    {
        let task_arn = match &self.task_arn {
            Some(a) => a.clone(),
            None => String::new(),
        };
        ServiceRegistration {
            id: self.client_id,
            host: self.host.clone(),
            port: self.port,
            service_name: self.service_name.clone(),
            cluster_name: self.cluster_name.clone(),
            task_arn,
            attributes: self.get_service_attributes(),
            health_check_path: Some(self.health_check_path.clone()),
        }
    }

    /// A heartbeat frame of this agent.
    pub fn heartbeat(&self) -> (r: IngressMessage)
        ensures
            r matches IngressMessage::HeartBeat { cluster_name, client_id } && cluster_name@
                == self.cluster_name@ && client_id == self.client_id,
    {
        IngressMessage::HeartBeat { cluster_name: self.cluster_name.clone(), client_id: self.client_id }
    }
}

/// The identity-handshake frame carrying a presigned URL, if one could be
/// built.
pub fn auth_message(presigned_url: Option<String>) -> (r: IngressMessage)
    ensures
        r matches IngressMessage::IamAuth(req) && req.presigned_url == presigned_url
            && req.region@ == "us-east-1"@ && req.arn is None && req.account_id is None
            && req.user_id is None,
{
    IngressMessage::IamAuth(
        IamAuthRequest {
            presigned_url,
            region: owned("us-east-1"),
            arn: None,
            account_id: None,
            user_id: None,
        },
    )
}

/// What a frame received while authenticating does.
pub enum AuthStep {
    /// The server accepted the identity: register next.
    Authenticated,
    /// The server refused it: close and dial again.
    Rejected(Option<String>),
    /// Not the handshake's answer: keep waiting.
    Ignore,
}

/// The handshake step for a received text frame, `None` when it did not
/// parse.
pub fn auth_step(frame: Option<IngressMessage>) -> (r: AuthStep)
    ensures
        match frame {
            Some(IngressMessage::IamAuthResponse(resp)) => if resp.success {
                r is Authenticated
            } else {
                r == AuthStep::Rejected(resp.error)
            },
            _ => r is Ignore,
        },
{
    match frame {
        Some(IngressMessage::IamAuthResponse(resp)) => {
            if resp.success {
                AuthStep::Authenticated
            } else {
                AuthStep::Rejected(resp.error)
            }
        },
        _ => AuthStep::Ignore,
    }
}

/// What the agent does with a frame received from the server.
pub enum AgentDirective {
    /// Execute the request against the local service and answer it.
    ForwardHttp(ProxyRequest),
    OpenTunnel {
        session_id: u128,
        target_host: String,
        path: String,
        headers: Vec<(String, String)>,
        subprotocols: Option<Vec<String>>,
    },
    TunnelData { session_id: u128, frame_type: String, payload: Option<String> },
    TunnelClose { session_id: u128, code: Option<u16>, reason: Option<String> },
    /// Log the outcome of the registration.
    RegistrationAcked { success: bool, message: String },
    /// Log and drop.
    Unexpected,
}

/// The directive for a frame received from the server.
pub open spec fn directive_for(message: IngressMessage) -> AgentDirective {
    match message {
        IngressMessage::ProxyRequestForward(req) => AgentDirective::ForwardHttp(req),
        IngressMessage::WebSocketProxyInit { session_id, target_host, path, headers, subprotocols } =>
            AgentDirective::OpenTunnel { session_id, target_host, path, headers, subprotocols },
        IngressMessage::WebSocketProxyData { session_id, frame_type, payload } =>
            AgentDirective::TunnelData { session_id, frame_type, payload },
        IngressMessage::WebSocketProxyClose { session_id, code, reason } =>
            AgentDirective::TunnelClose { session_id, code, reason },
        IngressMessage::RegistrationAck { success, message, .. } =>
            AgentDirective::RegistrationAcked { success, message },
        _ => AgentDirective::Unexpected,
    }
}

/// Dispatches a frame received from the server.
pub fn handle_ingress_message(message: IngressMessage) -> (r: AgentDirective)
    ensures
        r == directive_for(message),
{
    match message {
        IngressMessage::ProxyRequestForward(req) => AgentDirective::ForwardHttp(req),
        IngressMessage::WebSocketProxyInit { session_id, target_host, path, headers, subprotocols } =>
            AgentDirective::OpenTunnel { session_id, target_host, path, headers, subprotocols },
        IngressMessage::WebSocketProxyData { session_id, frame_type, payload } =>
            AgentDirective::TunnelData { session_id, frame_type, payload },
        IngressMessage::WebSocketProxyClose { session_id, code, reason } =>
            AgentDirective::TunnelClose { session_id, code, reason },
        IngressMessage::RegistrationAck { success, message, .. } =>
            AgentDirective::RegistrationAcked { success, message },
        _ => AgentDirective::Unexpected,
    }
}

/// An event of a running control connection.
pub enum RunEvent {
    /// A text frame, parsed or not.
    Inbound(Option<IngressMessage>),
    /// The server closed the socket or the stream ended.
    InboundClosed,
    /// Reading the socket failed.
    InboundError,
    /// The heartbeat period elapsed.
    HeartbeatDue,
    /// Sending a frame on the socket failed.
    SendFailed,
    /// The instance watcher saw the server restart.
    InstanceChanged,
    /// A tunnel pump produced a frame for the server.
    Outbound(IngressMessage),
}

/// What a running control connection does next.
pub enum RunAction {
    Handle(AgentDirective),
    Send(IngressMessage),
    /// Tear down the connection and its sessions, then dial again.
    Reconnect,
}

/// The next action of a running control connection of `config`.
pub fn run_step(config: &AgentConfig, event: RunEvent) -> (r: RunAction)
    ensures
        match event {
            RunEvent::Inbound(Some(m)) => r == RunAction::Handle(directive_for(m)),
            RunEvent::HeartbeatDue => r matches RunAction::Send(IngressMessage::HeartBeat { cluster_name, client_id })
                && cluster_name@ == config.cluster_name@ && client_id == config.client_id,
            RunEvent::Outbound(m) => r == RunAction::Send(m),
            _ => r is Reconnect,
        },
{
    match event {
        RunEvent::Inbound(Some(m)) => RunAction::Handle(handle_ingress_message(m)),
        RunEvent::HeartbeatDue => RunAction::Send(config.heartbeat()),
        RunEvent::Outbound(m) => RunAction::Send(m),
        _ => RunAction::Reconnect,
    }
}

/// Remembers the server instance id seen first.
pub struct InstanceWatch {
    pub last_instance: Option<String>,
}

impl InstanceWatch {
    pub fn new() -> (r: Self)
        ensures
            r.last_instance is None,
    {
        InstanceWatch { last_instance: None }
    }

    /// Records a polled instance id; true when it differs from the one seen
    /// first, which means the server restarted and the agent must reconnect.
    pub fn observe(&mut self, instance_id: &str) -> (r: bool)
        ensures
            match old(self).last_instance {
                None => !r && (final(self).last_instance matches Some(s) && s@ == instance_id@),
                Some(prev) => r == (prev@ != instance_id@) && final(self).last_instance
                    == old(self).last_instance,
            },
    {
        match &self.last_instance {
            None => {
                self.last_instance = Some(owned(instance_id));
                false
            },
            Some(prev) => !str_eq(prev.as_str(), instance_id),
        }
    }
}

/// The local URL a forwarded request is sent to.
pub fn local_request_url(local_endpoint: &str, path: &str) -> (r: String)
    ensures
        r@ == local_endpoint@ + path@,
{
    let mut url = owned(local_endpoint);
    push_str(&mut url, path);
    url
}

/// The body handed to the local HTTP client for a forwarded request.
pub open spec fn local_body(body: Option<Vec<u8>>) -> Seq<u8> {
    match body {
        Some(b) => b@,
        None => Seq::<u8>::empty(),
    }
}

/// The request the agent executes against its local service.
pub struct LocalRequest {
    pub url: String,
    pub method: String,
    pub headers: Vec<(String, String)>,
    pub body: Vec<u8>,
}

/// The local request for a forwarded envelope: same method, headers and
/// body bytes, sent to the local endpoint followed by the path.
pub fn local_request(local_endpoint: &str, request: ProxyRequest) -> (r: LocalRequest)
    ensures
        r.url@ == local_endpoint@ + request.path@,
        r.method == request.method,
        r.headers == request.headers,
        r.body@ == local_body(request.body),
{
    let url = local_request_url(local_endpoint, request.path.as_str());
    let body = match request.body {
        Some(b) => b,
        None => Vec::new(),
    };
    LocalRequest { url, method: request.method, headers: request.headers, body }
}

/// The response envelope for what the local service answered: headers in
/// their order, duplicates kept; an empty body is absent.
pub fn response_envelope(id: u128, status_code: u16, headers: Vec<(String, String)>, body: Vec<u8>) -> (r: ProxyResponse)
    ensures
        r.id == id,
        r.status_code == status_code,
        r.headers == headers,
        if body@.len() == 0 {
            r.body is None
        } else {
            r.body == Some(body)
        },
{
    let b = if body.len() == 0 {
        None
    } else {
        Some(body)
    };
    ProxyResponse { id, status_code, headers, body: b }
}

/// The 500 envelope for a request the agent could not execute.
pub fn forward_error_response(id: u128, error: &str) -> (r: ProxyResponse)
    ensures
        r.id == id,
        r.status_code == 500,
        r.headers@.len() == 0,
        r.body matches Some(b) && b@ == encode_utf8("Internal Server Error: "@ + error@),
{
    let mut text = owned("Internal Server Error: ");
    push_str(&mut text, error);
    let body = text.as_str().as_bytes_vec();
    ProxyResponse { id, status_code: 500, headers: Vec::new(), body: Some(body) }
}

} // verus!
