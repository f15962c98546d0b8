//! The request context that transports hand to the core.
use vstd::prelude::*;
use vstd::string::StringExecFns;
use crate::types::{HandleId, SessionId};

verus! {

/// Identifies the originating client connection so the core can route
/// responses back through the correct transport.
#[derive(Clone, Debug)]
pub struct TransportRequest {
    /// Opaque transport-specific client identifier.
    pub client_id: String,
    /// Whether this came in on the admin API.
    pub admin: bool,
    /// Session ID if already established.
    pub session_id: Option<SessionId>,
    /// Handle ID if already attached.
    pub handle_id: Option<HandleId>,
}

impl TransportRequest {
    /// A Janus API request context for `client_id`.
    pub fn new(client_id: &str) -> (r: TransportRequest)
        ensures
            r.client_id@ == client_id@,
            !r.admin,
            r.session_id is None,
            r.handle_id is None,
    {
        TransportRequest { client_id: client_id.to_owned(), admin: false, session_id: None, handle_id: None }
    }

    /// An Admin API request context for `client_id`.
    pub fn admin(client_id: &str) -> (r: TransportRequest)
        ensures
            r.client_id@ == client_id@,
            r.admin,
            r.session_id is None,
            r.handle_id is None,
    {
        TransportRequest { client_id: client_id.to_owned(), admin: true, session_id: None, handle_id: None }
    }
}

/// Errors of a transport.
#[derive(Clone, Debug, PartialEq, Eq)]
pub enum TransportError {
    NotInitialized,
    ClientNotFound(String),
    SendFailed(String),
    Config(String),
    /// A JSON error, with its message (shown as it is).
    Json(String),
    /// An I/O error, with its message (shown as it is).
    Io(String),
}

/// The message text of a transport error.
pub open spec fn transport_error_text(e: TransportError) -> Seq<char> {
    match e {
        TransportError::NotInitialized => "transport not initialized"@,
        TransportError::ClientNotFound(c) => "client not found: "@ + c@,
        TransportError::SendFailed(m) => "send failed: "@ + m@,
        TransportError::Config(m) => "configuration error: "@ + m@,
        TransportError::Json(m) => m@,
        TransportError::Io(m) => m@,
    }
}

impl TransportError {
    /// The message text of the error.
    pub fn to_string(&self) -> (s: String)
        ensures
            s@ == transport_error_text(*self),
    {
        match self {
            TransportError::NotInitialized => "transport not initialized".to_owned(),
            TransportError::ClientNotFound(c) => "client not found: ".to_owned().concat(c.as_str()),
            TransportError::SendFailed(m) => "send failed: ".to_owned().concat(m.as_str()),
            TransportError::Config(m) => "configuration error: ".to_owned().concat(m.as_str()),
            TransportError::Json(m) => m.clone(),
            TransportError::Io(m) => m.clone(),
        }
    }
}

} // verus!
