//! The server's dispatch of control frames received from an agent. Each
//! frame updates the registry, the router or the tunnel table, and the
//! caller is told what remains to be done outside: a reply to send, a reply
//! slot or init waiter to complete, a frame to write downstream, or the
//! identity URL to fetch.
use crate::auth::{is_failure, AuthPlan, DefaultAuthService};
use crate::error::IngressError;
use crate::registry::{without_owner, DefaultRegistry};
use crate::router::DefaultRouter;
use crate::text::owned;
use crate::types::{IngressMessage, ProxyResponse, ServiceRegistration};
use crate::ws_tunnel::{
    agent_data_to_frame, carries_no_frame, is_agent_frame, AlbOutboundFrame, WsInitAck, WsSessionTable,
};
use vstd::prelude::*;

verus! {

broadcast use vstd::std_specs::hash::group_hash_axioms;

/// What the caller does after a frame was dispatched.
pub enum DispatchAction<R, T, W> {
    /// Nothing more.
    Done,
    /// Send this frame back on the agent's connection.
    Reply(IngressMessage),
    /// Fetch this presigned identity URL, then reply with the outcome.
    Authenticate(String),
    /// Complete a pending request's reply slot with its response.
    Deliver(R, ProxyResponse),
    /// Complete a session's init waiter.
    InitAcked(W, WsInitAck),
    /// Write this frame on the downstream socket of the session.
    Downstream(u128, AlbOutboundFrame),
    /// Write this close frame through the closed session's channel.
    Closed(T, AlbOutboundFrame),
    /// The frame is a bad request: log `error`, send `reply` back on the
    /// agent's connection, and keep serving.
    Refused { error: IngressError, reply: IngressMessage },
}

#[derive(Clone, Copy)]
pub struct DefaultMessageDispatcher;

impl DefaultMessageDispatcher {
    pub fn new() -> (r: Self) {
        DefaultMessageDispatcher
    }

    /// Registers the agent's service under its connection id and acks it.
    pub fn handle_service_registration<S>(
        &self,
        connection_id: u128,
        registration: ServiceRegistration,
        registry: &mut DefaultRegistry<S>,
        now: u64,
    ) -> (r: Result<IngressMessage, IngressError>)
        requires
            old(registry).wf(),
        ensures
            final(registry).wf(),
            final(registry).connections@.contains_key(connection_id),
            final(registry).connections@[connection_id].last_heartbeat == now,
            exists|i: int|
                0 <= i < final(registry).registrations@.len()
                    && #[trigger] final(registry).registrations@[i] == (ServiceRegistration {
                    id: connection_id,
                    ..registration
                }),
            r matches Ok(IngressMessage::RegistrationAck { id, success, message }) && id
                == connection_id && success && message@ == "Service registered successfully"@,
    {
        match registry.register_service(connection_id, registration, now) {
            Ok(()) => Ok(
                IngressMessage::RegistrationAck {
                    id: connection_id,
                    success: true,
                    message: owned("Service registered successfully"),
                },
            ),
            Err(e) => Err(e),
        }
    }

    /// Refreshes the connection's heartbeat; unknown connections are an
    /// error.
    pub fn handle_heartbeat<S>(&self, connection_id: u128, cluster_name: String, registry: &mut DefaultRegistry<S>, now: u64) -> (r: Result<(), IngressError>)
        requires
            old(registry).wf(),
        ensures
            final(registry).wf(),
            r is Ok <==> old(registry).connections@.contains_key(connection_id),
            r is Ok ==> final(registry).connections@[connection_id].last_heartbeat == now,
            r is Err ==> r == Err::<(), IngressError>(
                IngressError::RegistryNotFound { entity_id: connection_id },
            ),
    {
        registry.update_heartbeat(connection_id, now)
    }

    /// Removes the registration and connection info of `service_id`.
    pub fn handle_service_deregistration<S>(&self, service_id: u128, registry: &mut DefaultRegistry<S>) -> (r: Result<(), IngressError>)
        requires
            old(registry).wf(),
        ensures
            final(registry).wf(),
            r is Ok,
            without_owner(old(registry).registrations@, final(registry).registrations@, service_id),
            !final(registry).connections@.contains_key(service_id),
    {
        registry.deregister_service(service_id)
    }

    /// The sender on which a reply to `connection_id` goes, with the reply;
    /// an unknown connection is an error.
    pub fn send_response<'a, S>(&self, connection_id: u128, response: IngressMessage, registry: &'a DefaultRegistry<S>) -> (r: Result<(&'a S, IngressMessage), IngressError>)
        ensures
            match r {
                Ok((s, m)) => registry.connection_senders@.contains_key(connection_id) && *s
                    == registry.connection_senders@[connection_id] && m == response,
                Err(e) => !registry.connection_senders@.contains_key(connection_id) && e
                    == IngressError::RegistryNotFound { entity_id: connection_id },
            },
    {
        match registry.get_connection_sender(connection_id) {
            Some(s) => Ok((s, response)),
            None => Err(IngressError::registry_not_found(connection_id)),
        }
    }

    /// Dispatches one frame from connection `connection_id`, received at
    /// `now`. A frame that did not parse (`Err` with the parser's message)
    /// and frames of kinds agents do not send are bad requests; the latter
    /// are answered with a failed acknowledgement carrying the bad-request
    /// text. The connection keeps serving either way.
    pub fn handle_message<S, R, T, W>(
        &self,
        connection_id: u128,
        message: Result<IngressMessage, String>,
        auth_service: &DefaultAuthService,
        registry: &mut DefaultRegistry<S>,
        router: &mut DefaultRouter<R>,
        sessions: &mut WsSessionTable<T, W>,
        now: u64,
    ) -> (r: Result<DispatchAction<R, T, W>, IngressError>)
        requires
            old(registry).wf(),
            old(sessions).wf(),
        ensures
            final(registry).wf(),
            final(sessions).wf(),
            match message {
                Err(_) => {
                    &&& r matches Err(IngressError::BadRequest { .. })
                    &&& *final(registry) == *old(registry)
                    &&& *final(router) == *old(router)
                    &&& *final(sessions) == *old(sessions)
                },
                Ok(IngressMessage::IamAuth(req)) => if auth_service.skip_validation {
                    r matches Ok(DispatchAction::Reply(IngressMessage::IamAuthResponse(resp)))
                        && resp.success
                } else {
                    match req.presigned_url {
                        Some(u) => r matches Ok(DispatchAction::Authenticate(v)) && v@ == u@,
                        None => r matches Ok(DispatchAction::Reply(IngressMessage::IamAuthResponse(resp)))
                            && is_failure(resp, "No presigned URL provided"@),
                    }
                },
                Ok(IngressMessage::ServiceRegistration(reg)) => {
                    &&& final(registry).connections@.contains_key(connection_id)
                    &&& exists|i: int|
                        0 <= i < final(registry).registrations@.len()
                            && #[trigger] final(registry).registrations@[i] == (ServiceRegistration {
                            id: connection_id,
                            ..reg
                        })
                    &&& r matches Ok(DispatchAction::Reply(IngressMessage::RegistrationAck { id, success, message }))
                        && id == connection_id && success && message@ == "Service registered successfully"@
                },
                Ok(IngressMessage::HeartBeat { .. }) => if old(registry).connections@.contains_key(
                    connection_id,
                ) {
                    r matches Ok(DispatchAction::Done)
                        && final(registry).connections@[connection_id].last_heartbeat == now
                } else {
                    r == Err::<DispatchAction<R, T, W>, IngressError>(
                        IngressError::RegistryNotFound { entity_id: connection_id },
                    )
                },
                Ok(IngressMessage::ProxyResponse(resp)) => {
                    &&& !final(router).pending_requests@.contains_key(resp.id)
                    &&& match r {
                        Ok(DispatchAction::Deliver(slot, delivered)) => old(router).pending_requests@.contains_key(resp.id)
                            && slot == old(router).pending_requests@[resp.id].slot && delivered == resp
                            && now < old(router).pending_requests@[resp.id].deadline,
                        Ok(DispatchAction::Done) => !old(router).pending_requests@.contains_key(resp.id)
                            || now >= old(router).pending_requests@[resp.id].deadline,
                        _ => false,
                    }
                },
                Ok(IngressMessage::ServiceDeregistration { id }) => {
                    &&& r matches Ok(DispatchAction::Done)
                    &&& without_owner(old(registry).registrations@, final(registry).registrations@, id)
                    &&& !final(registry).connections@.contains_key(id)
                },
                Ok(IngressMessage::WebSocketProxyInitAck { session_id, success, .. }) => match r {
                    Ok(DispatchAction::InitAcked(w, ack)) => old(sessions).init_waiters@.contains_key(session_id)
                        && w == old(sessions).init_waiters@[session_id] && ack.success == success,
                    Ok(DispatchAction::Done) => !old(sessions).init_waiters@.contains_key(session_id),
                    _ => false,
                },
                Ok(IngressMessage::WebSocketProxyData { session_id, frame_type, payload }) => match r {
                    Ok(DispatchAction::Downstream(sid, frame)) => sid == session_id
                        && old(sessions).sessions@.contains_key(session_id) && is_agent_frame(
                        frame_type@,
                        payload,
                        frame,
                    ),
                    Ok(DispatchAction::Done) => !old(sessions).sessions@.contains_key(session_id)
                        || carries_no_frame(frame_type@, payload),
                    _ => false,
                },
                Ok(IngressMessage::WebSocketProxyClose { session_id, code, reason }) => {
                    &&& !final(sessions).sessions@.contains_key(session_id)
                    &&& match r {
                        Ok(DispatchAction::Closed(tx, frame)) => old(sessions).sessions@.contains_key(session_id)
                            && tx == old(sessions).sessions@[session_id].alb_out_tx && frame
                            == AlbOutboundFrame::Close(code, reason),
                        Ok(DispatchAction::Done) => !old(sessions).sessions@.contains_key(session_id),
                        _ => false,
                    }
                },
                Ok(_) => {
                    &&& r matches Ok(DispatchAction::Refused { error: IngressError::BadRequest { message: e }, reply })
                        && e@ == "Unexpected message type from Anywhere Mesh service"@
                        && (reply matches IngressMessage::RegistrationAck { id, success, message: m }
                        && id == connection_id && !success
                        && m@ == "Bad request: Unexpected message type from Anywhere Mesh service"@)
                    &&& *final(registry) == *old(registry)
                    &&& *final(router) == *old(router)
                    &&& *final(sessions) == *old(sessions)
                },
            },
    {
        let parsed = match message {
            Ok(m) => m,
            Err(detail) => {
                let mut text = owned("Failed to parse message: ");
                crate::text::push_str(&mut text, detail.as_str());
                return Err(IngressError::BadRequest { message: text });
            },
        };
        match parsed {
            IngressMessage::IamAuth(req) => match auth_service.authenticate(&req) {
                AuthPlan::Respond(resp) => Ok(DispatchAction::Reply(IngressMessage::IamAuthResponse(resp))),
                AuthPlan::FetchIdentity(url) => Ok(DispatchAction::Authenticate(url)),
            },
            IngressMessage::ServiceRegistration(reg) => {
                match self.handle_service_registration(connection_id, reg, registry, now) {
                    Ok(ack) => Ok(DispatchAction::Reply(ack)),
                    Err(e) => Err(e),
                }
            },
            IngressMessage::HeartBeat { cluster_name, .. } => {
                match self.handle_heartbeat(connection_id, cluster_name, registry, now) {
                    Ok(()) => Ok(DispatchAction::Done),
                    Err(e) => Err(e),
                }
            },
            IngressMessage::ProxyResponse(resp) => match router.handle_response(resp, now) {
                Some((slot, delivered)) => Ok(DispatchAction::Deliver(slot, delivered)),
                None => Ok(DispatchAction::Done),
            },
            IngressMessage::ServiceDeregistration { id } => {
                match self.handle_service_deregistration(id, registry) {
                    Ok(()) => Ok(DispatchAction::Done),
                    Err(e) => Err(e),
                }
            },
            IngressMessage::WebSocketProxyInitAck { session_id, success, message, response_headers } => {
                match sessions.handle_ws_proxy_init_ack(session_id, success, message, response_headers) {
                    Some((w, ack)) => Ok(DispatchAction::InitAcked(w, ack)),
                    None => Ok(DispatchAction::Done),
                }
            },
            IngressMessage::WebSocketProxyData { session_id, frame_type, payload } => {
                if sessions.sessions.contains_key(&session_id) {
                    match agent_data_to_frame(frame_type.as_str(), payload) {
                        Some(frame) => Ok(DispatchAction::Downstream(session_id, frame)),
                        None => Ok(DispatchAction::Done),
                    }
                } else {
                    Ok(DispatchAction::Done)
                }
            },
            IngressMessage::WebSocketProxyClose { session_id, code, reason } => {
                match sessions.handle_ws_proxy_close_from_agent(session_id, code, reason) {
                    Some((tx, frame)) => Ok(DispatchAction::Closed(tx, frame)),
                    None => Ok(DispatchAction::Done),
                }
            },
            _ => Ok(
                DispatchAction::Refused {
                    error: IngressError::bad_request("Unexpected message type from Anywhere Mesh service"),
                    reply: IngressMessage::RegistrationAck {
                        id: connection_id,
                        success: false,
                        message: owned("Bad request: Unexpected message type from Anywhere Mesh service"),
                    },
                },
            ),
        }
    }
}

} // verus!
