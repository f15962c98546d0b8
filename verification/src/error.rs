//! Core error type.
use vstd::prelude::*;
use vstd::string::StringExecFns;
use crate::text::decimal;
use crate::plugin_api::{PluginError, plugin_error_text};
use crate::transport::{TransportError, transport_error_text};

verus! {

/// Errors of the gateway core.
#[derive(Clone, Debug, PartialEq, Eq)]
pub enum Error {
    SessionNotFound(u64),
    HandleNotFound(u64),
    PluginNotFound(String),
    PluginLoad(String),
    NoTransports,
    Config(String),
    AlreadyRunning,
    NotRunning,
    InvalidRequest(String),
    Unauthorized(String),
    /// A plugin's error (shown as it is).
    Plugin(PluginError),
    /// A transport's error (shown as it is).
    Transport(TransportError),
    /// A JSON error, with its message (shown as it is).
    Json(String),
    /// An I/O error, with its message (shown as it is).
    Io(String),
}

/// The message text of an error.
pub open spec fn error_text(e: Error) -> Seq<char> {
    match e {
        Error::SessionNotFound(id) => "session not found: "@ + decimal(id as nat),
        Error::HandleNotFound(id) => "handle not found: "@ + decimal(id as nat),
        Error::PluginNotFound(p) => "plugin not found: "@ + p@,
        Error::PluginLoad(m) => "plugin load error: "@ + m@,
        Error::NoTransports => "no transports available"@,
        Error::Config(m) => "configuration error: "@ + m@,
        Error::AlreadyRunning => "server already running"@,
        Error::NotRunning => "server not running"@,
        Error::InvalidRequest(m) => "invalid request: "@ + m@,
        Error::Unauthorized(m) => "unauthorized: "@ + m@,
        Error::Plugin(p) => plugin_error_text(p),
        Error::Transport(t) => transport_error_text(t),
        Error::Json(m) => m@,
        Error::Io(m) => m@,
    }
}

impl Error {
    /// The message text of the error.
    pub fn to_string(&self) -> (s: String)
        ensures
            s@ == error_text(*self),
    {
        match self {
            Error::SessionNotFound(id) => {
                let mut s = "session not found: ".to_owned();
                crate::text::push_decimal(&mut s, *id);
                s
            },
            Error::HandleNotFound(id) => {
                let mut s = "handle not found: ".to_owned();
                crate::text::push_decimal(&mut s, *id);
                s
            },
            Error::PluginNotFound(p) => "plugin not found: ".to_owned().concat(p.as_str()),
            Error::PluginLoad(m) => "plugin load error: ".to_owned().concat(m.as_str()),
            Error::NoTransports => "no transports available".to_owned(),
            Error::Config(m) => "configuration error: ".to_owned().concat(m.as_str()),
            Error::AlreadyRunning => "server already running".to_owned(),
            Error::NotRunning => "server not running".to_owned(),
            Error::InvalidRequest(m) => "invalid request: ".to_owned().concat(m.as_str()),
            Error::Unauthorized(m) => "unauthorized: ".to_owned().concat(m.as_str()),
            Error::Plugin(p) => p.to_string(),
            Error::Transport(t) => t.to_string(),
            Error::Json(m) => m.clone(),
            Error::Io(m) => m.clone(),
        }
    }
}

} // verus!
