//! The server side of the WebSocket tunnel: admission of a downstream
//! upgrade, the table of sessions with their init waiters, and the
//! conversion of frames in both directions. `T` is a session's channel
//! towards the downstream socket, `W` its one-shot init waiter.
use crate::codec::{base64_decode, base64_decoded, base64_encode, base64_encoded};
use crate::registry::DefaultRegistry;
use crate::routing::{is_connection_healthy, is_healthy, match_host_to_service, preferred_match};
use crate::headers::{first_value, header_get};
use crate::text::{owned, split_commas_trimmed, split_on, str_eq, trim};
use crate::types::headers_view;
use crate::types::IngressMessage;
use std::collections::HashMap;
use vstd::utf8::encode_utf8;
use vstd::prelude::*;

verus! {

broadcast use vstd::std_specs::hash::group_hash_axioms;

/// The agent's answer to a tunnel init.
#[derive(Debug, Clone)]
pub struct WsInitAck {
    pub success: bool,
    pub message: Option<String>,
    pub response_headers: Option<Vec<(String, String)>>,
}

/// A frame to write to the downstream socket.
#[derive(Debug, Clone)]
pub enum AlbOutboundFrame {
    Text(String),
    Binary(Vec<u8>),
    Close(Option<u16>, Option<String>),
}

/// A frame read from a WebSocket peer (downstream client or local service).
#[derive(Debug, Clone)]
pub enum PeerFrame {
    Text(String),
    Binary(Vec<u8>),
    Ping,
    Pong,
    /// A close, with the reason of its close frame if it had one.
    Close(Option<String>),
    Other,
}

/// An open or init-pending tunnel session.
pub struct WsSession<T> {
    pub agent_connection_id: u128,
    pub alb_out_tx: T,
}

/// The outcome of admitting a downstream upgrade.
pub enum TunnelPlan {
    Reject { status: u16, message: String },
    /// Tunnel through the agent on this connection.
    Open { connection_id: u128 },
}

/// The lifecycle state of a session id in the server's table.
pub enum WsState {
    InitPending,
    Open,
    Closed,
}

pub open spec fn is_reject(p: TunnelPlan, status: u16, message: Seq<char>) -> bool {
    p matches TunnelPlan::Reject { status: s, message: m } && s == status && m@ == message
}

/// The data frame that carries a peer frame of kind `kind` with `payload`.
pub open spec fn is_data(m: IngressMessage, sid: u128, kind: Seq<char>, payload: Option<Seq<char>>) -> bool {
    m matches IngressMessage::WebSocketProxyData { session_id, frame_type, payload: p } && session_id
        == sid && frame_type@ == kind && match (p, payload) {
        (Some(a), Some(b)) => a@ == b,
        (None, None) => true,
        _ => false,
    }
}

/// The downstream headers passed to the agent with a tunnel init, in order.
pub open spec fn tunnel_header_names() -> Seq<Seq<char>> {
    seq![
        "host"@,
        "x-forwarded-for"@,
        "x-forwarded-proto"@,
        "x-forwarded-host"@,
        "sec-websocket-protocol"@,
        "cookie"@,
        "authorization"@,
    ]
}

/// The first value of each name of `names` present in `d`, in order.
pub open spec fn picked_headers(names: Seq<Seq<char>>, d: Seq<(String, String)>) -> Seq<
    (Seq<char>, Seq<char>),
>
    decreases names.len(),
{
    if names.len() == 0 {
        seq![]
    } else {
        let prev = picked_headers(names.drop_last(), d);
        match first_value(d, names.last()) {
            Some(v) => prev.push((names.last(), v)),
            None => prev,
        }
    }
}

/// The subprotocols a downstream client offered: the comma-separated,
/// trimmed pieces of its `sec-websocket-protocol` header.
pub open spec fn offered_subprotocols(d: Seq<(String, String)>) -> Option<Seq<Seq<char>>> {
    match first_value(d, "sec-websocket-protocol"@) {
        Some(v) => Some(split_on(v, ',').map_values(|p: Seq<char>| trim(p))),
        None => None,
    }
}

/// Relies on tungstenite's `derive_accept_key`: the `Sec-WebSocket-Accept`
/// value for a client key.
pub uninterp spec fn ws_accept_key(key: Seq<u8>) -> Seq<char>;

/// Relies on tungstenite's `handshake::derive_accept_key`, which depends on
/// the key bytes alone.
#[verifier::external_body]
fn derive_accept_key(key: &[u8]) -> (r: String)
    ensures
        r@ == ws_accept_key(key@),
{
    tokio_tungstenite::tungstenite::handshake::derive_accept_key(key)
}

/// The headers of the `101 Switching Protocols` answer to a downstream
/// upgrade carrying `sec-websocket-key: key`.
pub fn switching_protocols_headers(key: &str) -> (r: Vec<(String, String)>)
    ensures
        headers_view(r@) == seq![
            ("upgrade"@, "websocket"@),
            ("connection"@, "upgrade"@),
            ("sec-websocket-accept"@, ws_accept_key(encode_utf8(key@))),
        ],
{
    let accept = derive_accept_key(key.as_bytes());
    let r = vec![
        (owned("upgrade"), owned("websocket")),
        (owned("connection"), owned("upgrade")),
        (owned("sec-websocket-accept"), accept),
    ];
    assert(headers_view(r@) =~= seq![
        ("upgrade"@, "websocket"@),
        ("connection"@, "upgrade"@),
        ("sec-websocket-accept"@, ws_accept_key(encode_utf8(key@))),
    ]);
    r
}

/// The init frame that asks the agent to open session `session_id` towards
/// `path`, with the tunnelled downstream headers and offered subprotocols.
pub fn ws_init_message(session_id: u128, target_host: String, path: String, downstream: &[(String, String)]) -> (r: IngressMessage)
    ensures
        r matches IngressMessage::WebSocketProxyInit {
            session_id: s,
            target_host: t,
            path: p,
            headers: h,
            subprotocols: sp,
        } && s == session_id && t == target_host && p == path && headers_view(h@)
            == picked_headers(tunnel_header_names(), downstream@) && match (
            sp,
            offered_subprotocols(downstream@),
        ) {
            (Some(a), Some(b)) => a@.len() == b.len() && forall|i: int|
                0 <= i < b.len() ==> #[trigger] a@[i]@ == b[i],
            (None, None) => true,
            _ => false,
        },
{
    let names = vec![
        "host",
        "x-forwarded-for",
        "x-forwarded-proto",
        "x-forwarded-host",
        "sec-websocket-protocol",
        "cookie",
        "authorization",
    ];
    let ghost all = tunnel_header_names();
    assert(names@.map_values(|n: &str| n@) =~= all);
    let mut headers: Vec<(String, String)> = Vec::new();
    let mut k: usize = 0;
    while k < names.len()
        invariant
            names@.map_values(|n: &str| n@) == all,
            k <= names@.len(),
            headers_view(headers@) == picked_headers(all.subrange(0, k as int), downstream@),
        decreases names@.len() - k,
    {
        let name = names[k];
        proof {
            let sub = all.subrange(0, k + 1);
            assert(sub.drop_last() == all.subrange(0, k as int));
            assert(sub.last() == name@);
        }
        match header_get(downstream, name) {
            Some(v) => {
                let ghost before = headers@;
                headers.push((owned(name), v.clone()));
                assert(headers_view(headers@) =~= headers_view(before).push((name@, v@)));
            },
            None => {},
        }
        k = k + 1;
    }
    assert(all.subrange(0, 7) == all);
    let subprotocols = match header_get(downstream, "sec-websocket-protocol") {
        Some(v) => Some(split_commas_trimmed(v.as_str())),
        None => None,
    };
    IngressMessage::WebSocketProxyInit { session_id, target_host, path, headers, subprotocols }
}

/// Decides whether a downstream upgrade is tunnelled: 501 when tunnelling
/// is disabled, 400 without a WebSocket upgrade, 404 when no registration
/// matches `host`, 503 when the matched registration's connection is not
/// healthy at `now`, 502 when that connection has no sender; else the
/// connection to tunnel through.
pub fn plan_ws_tunnel<S>(
    enabled: bool,
    upgrade_is_ws: bool,
    host: &str,
    registry: &DefaultRegistry<S>,
    now: u64,
) -> (r: TunnelPlan)
    ensures
        if !enabled {
            is_reject(r, 501, "WebSocket proxying is disabled"@)
        } else if !upgrade_is_ws {
            is_reject(r, 400, "WebSocket upgrade required"@)
        } else {
            match preferred_match(registry.registrations@, host@) {
                None => is_reject(r, 404, "Service Not Found"@),
                Some(i) => {
                    let id = registry.registrations@[i].id;
                    if !is_healthy(registry.connections@, id, now) {
                        is_reject(r, 503, "No healthy service available"@)
                    } else if !registry.connection_senders@.contains_key(id) {
                        is_reject(r, 502, "No upstream connection"@)
                    } else {
                        r == (TunnelPlan::Open { connection_id: id })
                    }
                },
            }
        },
{
    if !enabled {
        return TunnelPlan::Reject { status: 501, message: owned("WebSocket proxying is disabled") };
    }
    if !upgrade_is_ws {
        return TunnelPlan::Reject { status: 400, message: owned("WebSocket upgrade required") };
    }
    let matched = match_host_to_service(host, registry.registrations.as_slice());
    match matched {
        None => TunnelPlan::Reject { status: 404, message: owned("Service Not Found") },
        Some(reg) => {
            let id = reg.id;
            if !is_connection_healthy(&registry.connections, id, now) {
                TunnelPlan::Reject { status: 503, message: owned("No healthy service available") }
            } else if registry.connection_senders.get(&id).is_none() {
                TunnelPlan::Reject { status: 502, message: owned("No upstream connection") }
            } else {
                TunnelPlan::Open { connection_id: id }
            }
        },
    }
}

/// The control frame that carries a frame read from a peer of session
/// `session_id`; binary payloads are base64 text that decodes back to the
/// same bytes. Frames of other kinds carry nothing.
pub fn peer_frame_to_message(session_id: u128, frame: PeerFrame) -> (r: Option<IngressMessage>)
    requires
        frame matches PeerFrame::Binary(b) ==> b@.len() <= isize::MAX,
    ensures
        match frame {
            PeerFrame::Text(t) => r matches Some(m) && is_data(m, session_id, "text"@, Some(t@)),
            PeerFrame::Binary(b) => r matches Some(m) && is_data(
                m,
                session_id,
                "binary"@,
                Some(base64_encoded(b@)),
            ) && base64_decoded(base64_encoded(b@)) == Some(b@),
            PeerFrame::Ping => r matches Some(m) && is_data(m, session_id, "ping"@, None),
            PeerFrame::Pong => r matches Some(m) && is_data(m, session_id, "pong"@, None),
            PeerFrame::Close(reason) => r == Some(
                IngressMessage::WebSocketProxyClose { session_id, code: None, reason },
            ),
            PeerFrame::Other => r is None,
        },
{
    match frame {
        PeerFrame::Text(t) => Some(
            IngressMessage::WebSocketProxyData {
                session_id,
                frame_type: owned("text"),
                payload: Some(t),
            },
        ),
        PeerFrame::Binary(b) => {
            let encoded = base64_encode(b.as_slice());
            Some(
                IngressMessage::WebSocketProxyData {
                    session_id,
                    frame_type: owned("binary"),
                    payload: Some(encoded),
                },
            )
        },
        PeerFrame::Ping => Some(
            IngressMessage::WebSocketProxyData {
                session_id,
                frame_type: owned("ping"),
                payload: None,
            },
        ),
        PeerFrame::Pong => Some(
            IngressMessage::WebSocketProxyData {
                session_id,
                frame_type: owned("pong"),
                payload: None,
            },
        ),
        PeerFrame::Close(reason) => Some(
            IngressMessage::WebSocketProxyClose { session_id, code: None, reason },
        ),
        PeerFrame::Other => None,
    }
}

/// `frame` is the downstream frame for an agent's data frame of kind
/// `frame_type` carrying `payload`: text as is, binary decoded from base64.
pub open spec fn is_agent_frame(frame_type: Seq<char>, payload: Option<String>, frame: AlbOutboundFrame) -> bool {
    match payload {
        Some(p) => if frame_type == "text"@ {
            frame == AlbOutboundFrame::Text(p)
        } else {
            &&& frame_type == "binary"@
            &&& base64_decoded(p@) matches Some(bytes)
            &&& frame matches AlbOutboundFrame::Binary(v) && v@ == bytes
        },
        None => false,
    }
}

/// An agent's data frame that yields nothing downstream: a control frame,
/// a missing payload, or invalid base64.
pub open spec fn carries_no_frame(frame_type: Seq<char>, payload: Option<String>) -> bool {
    match payload {
        Some(p) => frame_type != "text"@ && (frame_type != "binary"@ || base64_decoded(p@) is None),
        None => true,
    }
}

/// The downstream frame for an agent's data frame: text as is, binary
/// decoded from base64; nothing for control frames, a missing payload or
/// invalid base64.
pub fn agent_data_to_frame(frame_type: &str, payload: Option<String>) -> (r: Option<AlbOutboundFrame>)
    ensures
        match r {
            Some(frame) => is_agent_frame(frame_type@, payload, frame),
            None => carries_no_frame(frame_type@, payload),
        },
{
    match payload {
        Some(p) => {
            if str_eq(frame_type, "text") {
                Some(AlbOutboundFrame::Text(p))
            } else if str_eq(frame_type, "binary") {
                match base64_decode(p.as_str()) {
                    Some(bytes) => Some(AlbOutboundFrame::Binary(bytes)),
                    None => None,
                }
            } else {
                None
            }
        },
        None => None,
    }
}

/// The sessions of the server, with the init waiters of those still
/// waiting for the agent's ack.
pub struct WsSessionTable<T, W> {
    pub sessions: HashMap<u128, WsSession<T>>,
    pub init_waiters: HashMap<u128, W>,
}

impl<T, W> WsSessionTable<T, W> {
    /// Well-formed: only a session in the table can wait for its init ack.
    pub open spec fn wf(&self) -> bool {
        forall|id: u128| #[trigger] self.init_waiters@.contains_key(id) ==> self.sessions@.contains_key(id)
    }

    /// The lifecycle state of `id`.
    pub open spec fn state(&self, id: u128) -> WsState {
        if !self.sessions@.contains_key(id) {
            WsState::Closed
        } else if self.init_waiters@.contains_key(id) {
            WsState::InitPending
        } else {
            WsState::Open
        }
    }

    pub fn new() -> (r: Self)
        ensures
            r.wf(),
            r.sessions@ == Map::<u128, WsSession<T>>::empty(),
            r.init_waiters@ == Map::<u128, W>::empty(),
    {
        WsSessionTable { sessions: HashMap::new(), init_waiters: HashMap::new() }
    }

    /// Records a new session, pending its init ack.
    pub fn open_session(&mut self, session_id: u128, agent_connection_id: u128, alb_out_tx: T, waiter: W)
        requires
            old(self).wf(),
        ensures
            final(self).wf(),
            final(self).state(session_id) == WsState::InitPending,
            final(self).sessions@ == old(self).sessions@.insert(
                session_id,
                WsSession { agent_connection_id, alb_out_tx },
            ),
            final(self).init_waiters@ == old(self).init_waiters@.insert(session_id, waiter),
    {
        self.sessions.insert(session_id, WsSession { agent_connection_id, alb_out_tx });
        self.init_waiters.insert(session_id, waiter);
    }

    /// The agent acknowledged an init: the waiter leaves the table and is
    /// handed back with the ack; on success the session is open, on failure
    /// it is closed. An unknown waiter changes nothing.
    pub fn handle_ws_proxy_init_ack(
        &mut self,
        session_id: u128,
        success: bool,
        message: Option<String>,
        response_headers: Option<Vec<(String, String)>>,
    ) -> (r: Option<(W, WsInitAck)>)
        requires
            old(self).wf(),
        ensures
            final(self).wf(),
            match r {
                Some((w, ack)) => {
                    &&& old(self).state(session_id) == WsState::InitPending
                    &&& w == old(self).init_waiters@[session_id]
                    &&& ack == (WsInitAck { success, message, response_headers })
                    &&& final(self).init_waiters@ == old(self).init_waiters@.remove(session_id)
                    &&& if success {
                        &&& final(self).sessions@ == old(self).sessions@
                        &&& final(self).state(session_id) == WsState::Open
                    } else {
                        &&& final(self).sessions@ == old(self).sessions@.remove(session_id)
                        &&& final(self).state(session_id) == WsState::Closed
                    }
                },
                None => {
                    &&& !old(self).init_waiters@.contains_key(session_id)
                    &&& final(self).sessions@ == old(self).sessions@
                    &&& final(self).init_waiters@ == old(self).init_waiters@
                },
            },
    {
        match self.init_waiters.remove(&session_id) {
            Some(w) => {
                if !success {
                    self.sessions.remove(&session_id);
                }
                Some((w, WsInitAck { success, message, response_headers }))
            },
            None => None,
        }
    }

    /// A data frame from the agent: the session's downstream channel and the
    /// frame to write on it. Unknown sessions and frames that carry nothing
    /// give `None`.
    pub fn handle_ws_proxy_data_from_agent(&self, session_id: u128, frame_type: &str, payload: Option<String>) -> (r: Option<(&T, AlbOutboundFrame)>)
        ensures
            match r {
                Some((tx, frame)) => {
                    &&& self.sessions@.contains_key(session_id)
                    &&& *tx == self.sessions@[session_id].alb_out_tx
                    &&& is_agent_frame(frame_type@, payload, frame)
                },
                None => !self.sessions@.contains_key(session_id) || carries_no_frame(frame_type@, payload),
            },
    {
        match self.sessions.get(&session_id) {
            Some(sess) => match agent_data_to_frame(frame_type, payload) {
                Some(frame) => Some((&sess.alb_out_tx, frame)),
                None => None,
            },
            None => None,
        }
    }

    /// The agent closed a session: it leaves the table, and its downstream
    /// channel is handed back with the close frame to write.
    pub fn handle_ws_proxy_close_from_agent(&mut self, session_id: u128, code: Option<u16>, reason: Option<String>) -> (r: Option<(T, AlbOutboundFrame)>)
        requires
            old(self).wf(),
        ensures
            final(self).wf(),
            final(self).state(session_id) == WsState::Closed,
            final(self).sessions@ == old(self).sessions@.remove(session_id),
            final(self).init_waiters@ == old(self).init_waiters@.remove(session_id),
            match r {
                Some((tx, frame)) => {
                    &&& old(self).sessions@.contains_key(session_id)
                    &&& tx == old(self).sessions@[session_id].alb_out_tx
                    &&& frame == AlbOutboundFrame::Close(code, reason)
                },
                None => !old(self).sessions@.contains_key(session_id),
            },
    {
        self.init_waiters.remove(&session_id);
        match self.sessions.remove(&session_id) {
            Some(sess) => Some((sess.alb_out_tx, AlbOutboundFrame::Close(code, reason))),
            None => None,
        }
    }

    /// Both pumps of a session have stopped: the session leaves the table,
    /// and the agent is told with a close frame unless the downstream close
    /// was already forwarded (`close_sent`).
    pub fn end_session(&mut self, session_id: u128, close_sent: bool) -> (r: Option<IngressMessage>)
        requires
            old(self).wf(),
        ensures
            final(self).wf(),
            final(self).state(session_id) == WsState::Closed,
            final(self).sessions@ == old(self).sessions@.remove(session_id),
            final(self).init_waiters@ == old(self).init_waiters@.remove(session_id),
            close_sent ==> r is None,
            !close_sent ==> (r matches Some(IngressMessage::WebSocketProxyClose { session_id: s, code: None, reason: Some(m) })
                && s == session_id && m@ == "alb connection closed"@),
    {
        self.init_waiters.remove(&session_id);
        self.sessions.remove(&session_id);
        if close_sent {
            None
        } else {
            Some(
                IngressMessage::WebSocketProxyClose {
                    session_id,
                    code: None,
                    reason: Some(owned("alb connection closed")),
                },
            )
        }
    }
}

/// A session id is in the server's table exactly while its init is pending
/// or it is open; in a well-formed table, a waiting init always belongs to a
/// session of the table.
pub proof fn lemma_session_in_table_iff_live<T, W>(table: WsSessionTable<T, W>, session_id: u128)
    requires
        table.wf(),
    ensures
        table.sessions@.contains_key(session_id) <==> (table.state(session_id) == WsState::InitPending
            || table.state(session_id) == WsState::Open),
        table.init_waiters@.contains_key(session_id) ==> table.state(session_id) == WsState::InitPending,
{
}

} // verus!
