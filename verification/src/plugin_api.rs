//! Plugin API: errors that plugins report, and what the gateway needs to know
//! of the plugin ABI.
use vstd::prelude::*;
use vstd::string::StringExecFns;

verus! {

/// API version that plugins must be compatible with.
pub const PLUGIN_API_VERSION: u32 = 1;

/// ABI version that the dynamic plugin loader accepts.
pub const PLUGIN_LOADER_ABI_VERSION: u32 = 1;

/// Plugin API error type.
#[derive(Clone, Debug, PartialEq, Eq)]
pub enum PluginError {
    NotImplemented,
    InvalidRequest(String),
    SessionNotFound(String),
    MissingField(String),
    Plugin(String),
    Config(String),
    /// A JSON error, with its message (shown as it is).
    Json(String),
    /// An I/O error, with its message (shown as it is).
    Io(String),
}

/// The message text of a plugin error.
pub open spec fn plugin_error_text(e: PluginError) -> Seq<char> {
    match e {
        PluginError::NotImplemented => "not implemented"@,
        PluginError::InvalidRequest(m) => "invalid request: "@ + m@,
        PluginError::SessionNotFound(m) => "session not found: "@ + m@,
        PluginError::MissingField(m) => "missing mandatory field: "@ + m@,
        PluginError::Plugin(m) => "plugin error: "@ + m@,
        PluginError::Config(m) => "configuration error: "@ + m@,
        PluginError::Json(m) => m@,
        PluginError::Io(m) => m@,
    }
}

/// `r` is a missing-field error naming `field`.
pub open spec fn is_missing_field<T>(r: Result<T, PluginError>, field: Seq<char>) -> bool {
    r matches Err(PluginError::MissingField(f)) && f@ == field
}

/// `r` is a plugin error with message `msg`.
pub open spec fn is_plugin_error<T>(r: Result<T, PluginError>, msg: Seq<char>) -> bool {
    r matches Err(PluginError::Plugin(m)) && m@ == msg
}

/// `r` is an invalid-request error with message `msg`.
pub open spec fn is_invalid_request<T>(r: Result<T, PluginError>, msg: Seq<char>) -> bool {
    r matches Err(PluginError::InvalidRequest(m)) && m@ == msg
}

/// `r` is a session-not-found error naming `who`.
pub open spec fn is_session_not_found<T>(r: Result<T, PluginError>, who: Seq<char>) -> bool {
    r matches Err(PluginError::SessionNotFound(m)) && m@ == who
}

impl PluginError {
    /// The message text of the error.
    pub fn to_string(&self) -> (s: String)
        ensures
            s@ == plugin_error_text(*self),
    {
        match self {
            PluginError::NotImplemented => "not implemented".to_owned(),
            PluginError::InvalidRequest(m) => "invalid request: ".to_owned().concat(m.as_str()),
            PluginError::SessionNotFound(m) => "session not found: ".to_owned().concat(m.as_str()),
            PluginError::MissingField(m) => "missing mandatory field: ".to_owned().concat(m.as_str()),
            PluginError::Plugin(m) => "plugin error: ".to_owned().concat(m.as_str()),
            PluginError::Config(m) => "configuration error: ".to_owned().concat(m.as_str()),
            PluginError::Json(m) => m.clone(),
            PluginError::Io(m) => m.clone(),
        }
    }
}

/// What a plugin says of itself.
#[derive(Clone, Copy, Debug)]
pub struct PluginInfo {
    /// Human-readable name.
    pub name: &'static str,
    /// The package name clients attach to (`janus.plugin.*`).
    pub package: &'static str,
    /// Numeric version.
    pub version: u32,
    /// Version text.
    pub version_string: &'static str,
    /// One-line description.
    pub description: &'static str,
    /// Author.
    pub author: &'static str,
}

/// `i` holds exactly these values.
pub open spec fn info_is(i: PluginInfo, name: Seq<char>, package: Seq<char>, version: u32, version_string: Seq<char>, description: Seq<char>, author: Seq<char>) -> bool {
    i.name@ == name && i.package@ == package && i.version == version && i.version_string@ == version_string
        && i.description@ == description && i.author@ == author
}

} // verus!
