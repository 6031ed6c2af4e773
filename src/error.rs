use vstd::prelude::*;

verus! {

/// Errors surfaced by the ingress core to its immediate caller.
#[derive(Debug, Clone)]
pub enum IngressError {
    /// A malformed frame or a frame of an unexpected kind.
    BadRequest { message: String },
    /// The pending request's deadline elapsed.
    Timeout { request_id: u128 },
    /// An id that the operation required is unknown.
    RegistryNotFound { entity_id: u128 },
    /// A channel or socket refused a message.
    SendFailed { message: String },
    /// A JSON or XML body could not be decoded.
    Serde { message: String },
    /// An invariant of the core was violated.
    Internal { message: String },
}

impl IngressError {
    pub fn bad_request(message: &str) -> (r: Self)
        ensures
            r matches IngressError::BadRequest { message: m } && m@ == message@,
    {
        IngressError::BadRequest { message: message.to_owned() }
    }

    pub fn timeout(request_id: u128) -> (r: Self)
        ensures
            r == (IngressError::Timeout { request_id }),
    {
        IngressError::Timeout { request_id }
    }

    pub fn registry_not_found(entity_id: u128) -> (r: Self)
        ensures
            r == (IngressError::RegistryNotFound { entity_id }),
    {
        IngressError::RegistryNotFound { entity_id }
    }

    pub fn send_failed(message: &str) -> (r: Self)
        ensures
            r matches IngressError::SendFailed { message: m } && m@ == message@,
    {
        IngressError::SendFailed { message: message.to_owned() }
    }

    pub fn internal(message: &str) -> (r: Self)
        ensures
            r matches IngressError::Internal { message: m } && m@ == message@,
    {
        IngressError::Internal { message: message.to_owned() }
    }

    /// True for the `Timeout` variant.
    pub fn is_timeout(&self) -> (r: bool)
        ensures
            r == (self is Timeout),
    {
        matches!(self, IngressError::Timeout { .. })
    }
}

} // verus!
