//! The server's HTTP listeners: what a downstream request becomes on the
//! control channel, what the downstream client gets back, and the health
//! and metrics bodies.
use crate::agent::local_body;
use crate::headers::{
    filter_proxy_headers, filtered_headers, first_value, header_get, header_insert, is_forwarded_header,
    lemma_filtered_only_whitelisted, lemma_upsert_entries, upsert,
};
use crate::text::{decimal, eq_ignore_ascii_case, owned, push_decimal, push_str, str_eq, str_eq_ignore_ascii_case, substring};
use crate::types::{headers_view, names_unique, ProxyRequest, ProxyResponse};
use vstd::prelude::*;
use vstd::utf8::encode_utf8;

verus! {

/// The part of `s` before its first `:` (all of it without one).
pub open spec fn before_colon(s: Seq<char>) -> Seq<char> {
    if exists|k: int| 0 <= k < s.len() && s[k] == ':' {
        let k = choose|k: int| 0 <= k < s.len() && s[k] == ':' && forall|j: int| 0 <= j < k ==> s[j] != ':';
        s.subrange(0, k)
    } else {
        s
    }
}

/// The routing host of a downstream request: `x-forwarded-host`, else
/// `host`, without a port; else the URI's authority host; else `unknown`.
pub open spec fn target_host(headers: Seq<(String, String)>, authority: Option<Seq<char>>) -> Seq<char> {
    match first_value(headers, "x-forwarded-host"@) {
        Some(v) => before_colon(v),
        None => match first_value(headers, "host"@) {
            Some(v) => before_colon(v),
            None => match authority {
                Some(a) => a,
                None => "unknown"@,
            },
        },
    }
}

/// The headers forwarded for a downstream request: the whitelisted ones,
/// with `x-forwarded-proto` set to `https`.
pub open spec fn forwarded_headers(h: Seq<(Seq<char>, Seq<char>)>) -> Seq<(Seq<char>, Seq<char>)> {
    upsert(filtered_headers(h), "x-forwarded-proto"@, "https"@)
}

/// The envelope body for downstream body bytes: absent when empty.
pub open spec fn envelope_body(b: Seq<u8>) -> Option<Seq<u8>> {
    if b.len() == 0 {
        None
    } else {
        Some(b)
    }
}

fn without_port(s: &str) -> (r: String)
    ensures
        r@ == before_colon(s@),
{
    let n = s.unicode_len();
    let mut k: usize = 0;
    while k < n
        invariant
            n == s@.len(),
            k <= n,
            forall|j: int| 0 <= j < k ==> s@[j] != ':',
        decreases n - k,
    {
        if s.get_char(k) == ':' {
            proof {
                let c = choose|c: int| 0 <= c < s@.len() && s@[c] == ':' && forall|j: int| 0 <= j < c ==> s@[j] != ':';
                if c < k {
                    assert(s@[c] != ':');
                }
                if c > k {
                    assert(s@[k as int] != ':');
                }
            }
            return substring(s, 0, k);
        }
        k = k + 1;
    }
    assert(s@.subrange(0, n as int) == s@);
    owned(s)
}

/// The routing host of a downstream request.
pub fn resolve_target_host(headers: &[(String, String)], authority_host: Option<String>) -> (r: String)
    ensures
        r@ == target_host(headers@, match authority_host {
            Some(a) => Some(a@),
            None => None,
        }),
{
    match header_get(headers, "x-forwarded-host") {
        Some(v) => without_port(v.as_str()),
        None => match header_get(headers, "host") {
            Some(v) => without_port(v.as_str()),
            None => match authority_host {
                Some(a) => a,
                None => owned("unknown"),
            },
        },
    }
}

/// The envelope of a downstream request: the given method, the path and
/// query (`/` when absent), the forwarded headers, the body bytes unchanged
/// (absent when empty), and the routing host.
pub fn build_proxy_request(
    id: u128,
    method: String,
    path_and_query: Option<String>,
    headers: &[(String, String)],
    body: Vec<u8>,
    target_host: String,
) -> (r: ProxyRequest)
    ensures
        r.id == id,
        r.method == method,
        r.path@ == match path_and_query {
            Some(p) => p@,
            None => "/"@,
        },
        names_unique(headers_view(r.headers@)),
        headers_view(r.headers@) == forwarded_headers(headers_view(headers@)),
        match r.body {
            Some(b) => envelope_body(body@) == Some(b@),
            None => envelope_body(body@) is None,
        },
        r.target_host == target_host,
{
    let mut fwd = filter_proxy_headers(headers);
    header_insert(&mut fwd, owned("x-forwarded-proto"), owned("https"));
    let path = match path_and_query {
        Some(p) => p,
        None => owned("/"),
    };
    let b = if body.len() == 0 {
        None
    } else {
        Some(body)
    };
    ProxyRequest { id, method, path, headers: fwd, body: b, target_host }
}

/// A forwarded request reaches the agent's local HTTP client with its body
/// bytes unchanged, and with only whitelisted headers, each name once.
pub proof fn lemma_forwarding_keeps_body_and_whitelist(body: Seq<u8>, h: Seq<(Seq<char>, Seq<char>)>)
    ensures
        local_body_of(envelope_body(body)) == body,
        forall|i: int|
            0 <= i < forwarded_headers(h).len() ==> is_forwarded_header(
                #[trigger] forwarded_headers(h)[i].0,
            ),
{
    lemma_filtered_only_whitelisted(h);
    let f = filtered_headers(h);
    let name = "x-forwarded-proto"@;
    assert(is_forwarded_header(name));
    lemma_upsert_entries(f, name, "https"@);
    assert forall|i: int| 0 <= i < forwarded_headers(h).len() implies is_forwarded_header(
        #[trigger] forwarded_headers(h)[i].0,
    ) by {
        let e = forwarded_headers(h)[i];
        if e != (name, "https"@) {
            assert(f.contains(e));
            let j = choose|j: int| 0 <= j < f.len() && f[j] == e;
            assert(is_forwarded_header(f[j].0));
        }
    }
}

/// The bytes the agent's local HTTP client sends for an envelope body.
pub open spec fn local_body_of(b: Option<Seq<u8>>) -> Seq<u8> {
    match b {
        Some(v) => v,
        None => Seq::<u8>::empty(),
    }
}

/// What a downstream client receives.
pub struct EdgeResponse {
    pub status_code: u16,
    pub headers: Vec<(String, String)>,
    pub body: Vec<u8>,
}

/// The downstream answer for an envelope: its status, its headers verbatim
/// (duplicates such as `set-cookie` kept in order), its body or nothing.
pub fn edge_response(response: ProxyResponse) -> (r: EdgeResponse)
    ensures
        r.status_code == response.status_code,
        r.headers == response.headers,
        r.body@ == local_body(response.body),
{
    let body = match response.body {
        Some(b) => b,
        None => Vec::new(),
    };
    EdgeResponse { status_code: response.status_code, headers: response.headers, body }
}

/// A plain-text answer.
pub fn text_response(status_code: u16, text: &str) -> (r: EdgeResponse)
    ensures
        r.status_code == status_code,
        r.headers@.len() == 0,
        r.body@ == encode_utf8(text@),
{
    EdgeResponse { status_code, headers: Vec::new(), body: text.as_bytes_vec() }
}

/// A JSON or text answer with its content type.
fn typed_response(content_type: &str, text: String) -> (r: EdgeResponse)
    ensures
        r.status_code == 200,
        headers_view(r.headers@) == seq![("content-type"@, content_type@)],
        r.body@ == encode_utf8(text@),
{
    let headers = vec![(owned("content-type"), owned(content_type))];
    assert(headers_view(headers@) =~= seq![("content-type"@, content_type@)]);
    EdgeResponse { status_code: 200, headers, body: text.as_str().as_bytes_vec() }
}

/// Whether an `upgrade` header asks for a WebSocket, ignoring ASCII case.
pub fn is_websocket_upgrade(upgrade: Option<&str>) -> (r: bool)
    ensures
        r == match upgrade {
            Some(u) => eq_ignore_ascii_case(u@, "websocket"@),
            None => false,
        },
{
    match upgrade {
        Some(u) => str_eq_ignore_ascii_case(u, "websocket"),
        None => false,
    }
}

/// Whether downstream WebSocket tunnelling is on for the setting's value:
/// on unless set to `false` (any ASCII case) or `0`.
pub fn ws_proxy_enabled(setting: Option<&str>) -> (r: bool)
    ensures
        r == match setting {
            Some(s) => !eq_ignore_ascii_case(s@, "false"@) && s@ != "0"@,
            None => true,
        },
{
    match setting {
        Some(s) => !str_eq_ignore_ascii_case(s, "false") && !str_eq(s, "0"),
        None => true,
    }
}

/// The health body of the edge listener.
pub open spec fn edge_health_json(connections: nat, registrations: nat) -> Seq<char> {
    "{\"status\":\"healthy\",\"connections\":"@ + decimal(connections) + ",\"registrations\":"@
        + decimal(registrations) + ",\"port\":\"8080\"}"@
}

/// The health body of the internal and control listeners; `port` is the
/// control listener's port field, empty on the internal listener.
pub open spec fn instance_health_json(
    connections: nat,
    registrations: nat,
    port: Seq<char>,
    instance_id: Seq<char>,
    started_at: nat,
) -> Seq<char> {
    "{\"status\":\"healthy\",\"connections\":"@ + decimal(connections) + ",\"registrations\":"@
        + decimal(registrations) + port + ",\"instance_id\":\""@ + instance_id + "\",\"started_at\":"@
        + decimal(started_at) + "}"@
}

/// The metrics body.
pub open spec fn metrics_text(connections: nat, registrations: nat) -> Seq<char> {
    "# HELP connections_total Total number of WebSocket connections\n# TYPE connections_total gauge\nconnections_total "@
        + decimal(connections)
        + "\n# HELP registrations_total Total number of service registrations\n# TYPE registrations_total gauge\nregistrations_total "@
        + decimal(registrations) + "\n"@
}

/// The edge listener's health answer.
pub fn edge_health_response(connections: u64, registrations: u64) -> (r: EdgeResponse)
    ensures
        r.status_code == 200,
        headers_view(r.headers@) == seq![("content-type"@, "application/json"@)],
        r.body@ == encode_utf8(edge_health_json(connections as nat, registrations as nat)),
{
    let mut s = owned("{\"status\":\"healthy\",\"connections\":");
    push_decimal(&mut s, connections);
    push_str(&mut s, ",\"registrations\":");
    push_decimal(&mut s, registrations);
    push_str(&mut s, ",\"port\":\"8080\"}");
    typed_response("application/json", s)
}

/// The health answer naming the server instance, for the internal listener
/// (`on_control_port` false) and the control listener.
pub fn instance_health_response(
    connections: u64,
    registrations: u64,
    on_control_port: bool,
    instance_id: &str,
    started_at: u64,
) -> (r: EdgeResponse)
    ensures
        r.status_code == 200,
        headers_view(r.headers@) == seq![("content-type"@, "application/json"@)],
        r.body@ == encode_utf8(
            instance_health_json(
                connections as nat,
                registrations as nat,
                if on_control_port {
                    ",\"port\":\"8082\""@
                } else {
                    ""@
                },
                instance_id@,
                started_at as nat,
            ),
        ),
{
    let mut s = owned("{\"status\":\"healthy\",\"connections\":");
    push_decimal(&mut s, connections);
    push_str(&mut s, ",\"registrations\":");
    push_decimal(&mut s, registrations);
    if on_control_port {
        push_str(&mut s, ",\"port\":\"8082\"");
    } else {
        push_str(&mut s, "");
    }
    push_str(&mut s, ",\"instance_id\":\"");
    push_str(&mut s, instance_id);
    push_str(&mut s, "\",\"started_at\":");
    push_decimal(&mut s, started_at);
    push_str(&mut s, "}");
    typed_response("application/json", s)
}

/// The metrics answer.
pub fn metrics_response(connections: u64, registrations: u64) -> (r: EdgeResponse)
    ensures
        r.status_code == 200,
        headers_view(r.headers@) == seq![("content-type"@, "text/plain"@)],
        r.body@ == encode_utf8(metrics_text(connections as nat, registrations as nat)),
{
    let mut s = owned(
        "# HELP connections_total Total number of WebSocket connections\n# TYPE connections_total gauge\nconnections_total ",
    );
    push_decimal(&mut s, connections);
    push_str(
        &mut s,
        "\n# HELP registrations_total Total number of service registrations\n# TYPE registrations_total gauge\nregistrations_total ",
    );
    push_decimal(&mut s, registrations);
    push_str(&mut s, "\n");
    typed_response("text/plain", s)
}

/// How the edge listener treats a request.
pub enum EdgeRoute {
    /// Tunnel the WebSocket upgrade.
    Tunnel,
    /// Answer with the edge health body.
    Health,
    /// Forward through an agent.
    Proxy,
}

/// WebSocket upgrades go to the tunnel (which refuses them with 501 while
/// tunnelling is off), `GET /health` is answered locally, everything else
/// is proxied.
pub fn classify_edge_request(is_get: bool, path: &str, upgrade_is_ws: bool) -> (r: EdgeRoute)
    ensures
        if upgrade_is_ws {
            r is Tunnel
        } else if is_get && path@ == "/health"@ {
            r is Health
        } else {
            r is Proxy
        },
{
    if upgrade_is_ws {
        EdgeRoute::Tunnel
    } else if is_get && str_eq(path, "/health") {
        EdgeRoute::Health
    } else {
        EdgeRoute::Proxy
    }
}

/// How the internal listener treats a request.
pub enum InternalRoute {
    Health,
    Metrics,
    NotFound,
}

/// `GET /health` and `GET /metrics`; anything else is not found.
pub fn classify_internal_request(is_get: bool, path: &str) -> (r: InternalRoute)
    ensures
        if is_get && path@ == "/health"@ {
            r is Health
        } else if is_get && path@ == "/metrics"@ {
            r is Metrics
        } else {
            r is NotFound
        },
{
    if is_get && str_eq(path, "/health") {
        InternalRoute::Health
    } else if is_get && str_eq(path, "/metrics") {
        InternalRoute::Metrics
    } else {
        InternalRoute::NotFound
    }
}

/// How the control listener treats a request.
pub enum ControlRoute {
    Health,
    /// Accept the agent's control WebSocket.
    Accept,
    /// 400: a GET that is not a WebSocket upgrade.
    UpgradeRequired,
    /// 405: any other method.
    MethodNotAllowed,
}

/// `GET /health` is answered, other GETs must be WebSocket upgrades, other
/// methods are refused.
pub fn classify_control_request(is_get: bool, path: &str, upgrade_is_ws: bool) -> (r: ControlRoute)
    ensures
        if !is_get {
            r is MethodNotAllowed
        } else if path@ == "/health"@ {
            r is Health
        } else if upgrade_is_ws {
            r is Accept
        } else {
            r is UpgradeRequired
        },
{
    if !is_get {
        ControlRoute::MethodNotAllowed
    } else if str_eq(path, "/health") {
        ControlRoute::Health
    } else if upgrade_is_ws {
        ControlRoute::Accept
    } else {
        ControlRoute::UpgradeRequired
    }
}

} // verus!
