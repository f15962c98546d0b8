//! Server configuration: the sections of the configuration file and their
//! defaults. Paths are held as strings.
use vstd::prelude::*;
use vstd::string::StringExecFns;
use crate::error::Error;

verus! {

/// Top-level server configuration.
#[derive(Clone, Debug)]
pub struct JanusConfig {
    pub general: GeneralConfig,
    pub certificates: CertificatesConfig,
    pub media: MediaConfig,
    pub nat: NatConfig,
    pub plugins: PathsConfig,
    pub transports: PathsConfig,
    pub events: EventsConfig,
    pub admin: AdminConfig,
}

#[derive(Clone, Debug)]
pub struct GeneralConfig {
    /// Configuration files path.
    pub configs_folder: String,
    /// Debug/logging level (0-7).
    pub debug_level: u8,
    /// Whether to daemonize.
    pub daemonize: bool,
    /// PID file path.
    pub pid_file: String,
    /// API secret for authenticating requests.
    pub api_secret: Option<String>,
    /// Whether to use token-based authentication.
    pub token_auth: bool,
    /// Token auth secret for signing.
    pub token_auth_secret: Option<String>,
    /// Session timeout in seconds.
    pub session_timeout: u64,
    /// Reclaim session timeout in seconds.
    pub reclaim_session_timeout: u64,
    /// Server name reported in info endpoint.
    pub server_name: String,
}

#[derive(Clone, Debug)]
pub struct CertificatesConfig {
    /// Path to DTLS certificate file.
    pub cert_pem: Option<String>,
    /// Path to DTLS certificate key.
    pub cert_key: Option<String>,
    /// DTLS cipher suite.
    pub dtls_ciphers: Option<String>,
}

#[derive(Clone, Debug)]
pub struct MediaConfig {
    /// Maximum NACK queue duration (ms).
    pub max_nack_queue: u32,
    /// RTP port range lower bound.
    pub rtp_port_range_min: u16,
    /// RTP port range upper bound.
    pub rtp_port_range_max: u16,
    /// Enable/disable TWCC.
    pub twcc: bool,
    /// Relay command buffer size (number of commands).
    pub relay_buffer_size: usize,
}

#[derive(Clone, Debug)]
pub struct NatConfig {
    /// STUN server address.
    pub stun_server: Option<String>,
    /// STUN server port.
    pub stun_port: u16,
    /// TURN server address.
    pub turn_server: Option<String>,
    /// TURN server port.
    pub turn_port: u16,
    /// TURN username.
    pub turn_user: Option<String>,
    /// TURN password.
    pub turn_pwd: Option<String>,
    /// TURN REST API server.
    pub turn_rest_api: Option<String>,
    /// TURN REST API key.
    pub turn_rest_api_key: Option<String>,
    /// Whether to use ICE lite mode.
    pub ice_lite: bool,
    /// NAT 1:1 public IP mapping.
    pub nat_1_1_mapping: Option<String>,
}

#[derive(Clone, Debug)]
pub struct PathsConfig {
    /// Directory containing the shared libraries.
    pub path: String,
    /// List of plugin/transport packages to disable.
    pub disable: Vec<String>,
}

#[derive(Clone, Debug)]
pub struct EventsConfig {
    /// Whether to broadcast events to handlers.
    pub broadcast: bool,
    /// Path to event handler shared libraries.
    pub path: String,
    /// Handlers to disable.
    pub disable: Vec<String>,
    /// Stats reporting period (seconds).
    pub stats_period: u64,
}

#[derive(Clone, Debug)]
pub struct AdminConfig {
    /// Admin API secret.
    pub admin_secret: Option<String>,
}

impl Default for GeneralConfig {
    fn default() -> (c: Self)
        ensures
            c.configs_folder@ == "/etc/janus"@,
            c.debug_level == 4,
            !c.daemonize,
            c.pid_file@ == "/var/run/janus.pid"@,
            c.api_secret is None,
            !c.token_auth,
            c.token_auth_secret is None,
            c.session_timeout == 60,
            c.reclaim_session_timeout == 0,
            c.server_name@ == "Janus Gateway (Rust)"@,
    {
        GeneralConfig {
            configs_folder: "/etc/janus".to_owned(),
            debug_level: 4,
            daemonize: false,
            pid_file: "/var/run/janus.pid".to_owned(),
            api_secret: None,
            token_auth: false,
            token_auth_secret: None,
            session_timeout: 60,
            reclaim_session_timeout: 0,
            server_name: "Janus Gateway (Rust)".to_owned(),
        }
    }
}

impl Default for CertificatesConfig {
    fn default() -> (c: Self)
        ensures
            c.cert_pem is None,
            c.cert_key is None,
            c.dtls_ciphers is None,
    {
        CertificatesConfig { cert_pem: None, cert_key: None, dtls_ciphers: None }
    }
}

impl Default for MediaConfig {
    fn default() -> (c: Self)
        ensures
            c.max_nack_queue == 500,
            c.rtp_port_range_min == 20000,
            c.rtp_port_range_max == 40000,
            c.twcc,
            c.relay_buffer_size == 65536,
    {
        MediaConfig {
            max_nack_queue: 500,
            rtp_port_range_min: 20000,
            rtp_port_range_max: 40000,
            twcc: true,
            relay_buffer_size: 65536,
        }
    }
}

impl Default for NatConfig {
    fn default() -> (c: Self)
        ensures
            c.stun_server matches Some(s) && s@ == "stun.l.google.com"@,
            c.stun_port == 19302,
            c.turn_server is None,
            c.turn_port == 3478,
            c.turn_user is None,
            c.turn_pwd is None,
            c.turn_rest_api is None,
            c.turn_rest_api_key is None,
            !c.ice_lite,
            c.nat_1_1_mapping is None,
    {
        NatConfig {
            stun_server: Some("stun.l.google.com".to_owned()),
            stun_port: 19302,
            turn_server: None,
            turn_port: 3478,
            turn_user: None,
            turn_pwd: None,
            turn_rest_api: None,
            turn_rest_api_key: None,
            ice_lite: false,
            nat_1_1_mapping: None,
        }
    }
}

impl Default for PathsConfig {
    fn default() -> (c: Self)
        ensures
            c.path@ == Seq::<char>::empty(),
            c.disable@ == Seq::<String>::empty(),
    {
        PathsConfig { path: String::new(), disable: Vec::new() }
    }
}

impl Default for EventsConfig {
    fn default() -> (c: Self)
        ensures
            !c.broadcast,
            c.path@ == "/usr/lib/janus/events"@,
            c.disable@ == Seq::<String>::empty(),
            c.stats_period == 5,
    {
        EventsConfig {
            broadcast: false,
            path: "/usr/lib/janus/events".to_owned(),
            disable: Vec::new(),
            stats_period: 5,
        }
    }
}

impl Default for AdminConfig {
    fn default() -> (c: Self)
        ensures
            c.admin_secret is None,
    {
        AdminConfig { admin_secret: None }
    }
}

impl Default for JanusConfig {
    fn default() -> (c: Self)
        ensures
            c.general.configs_folder@ == "/etc/janus"@,
            c.general.debug_level == 4,
            !c.general.daemonize,
            c.general.api_secret is None,
            !c.general.token_auth,
            c.general.session_timeout == 60,
            c.general.server_name@ == "Janus Gateway (Rust)"@,
            c.certificates.cert_pem is None,
            c.media.max_nack_queue == 500,
            c.media.rtp_port_range_min == 20000,
            c.media.rtp_port_range_max == 40000,
            c.media.twcc,
            c.media.relay_buffer_size == 65536,
            c.nat.stun_server matches Some(s) && s@ == "stun.l.google.com"@,
            c.nat.stun_port == 19302,
            c.nat.turn_server is None,
            !c.nat.ice_lite,
            c.plugins.path@ == "/usr/lib/janus/plugins"@,
            c.plugins.disable@ == Seq::<String>::empty(),
            c.transports.path@ == "/usr/lib/janus/transports"@,
            c.transports.disable@ == Seq::<String>::empty(),
            !c.events.broadcast,
            c.events.stats_period == 5,
            c.admin.admin_secret is None,
    {
        JanusConfig {
            general: GeneralConfig::default(),
            certificates: CertificatesConfig::default(),
            media: MediaConfig::default(),
            nat: NatConfig::default(),
            plugins: PathsConfig { path: "/usr/lib/janus/plugins".to_owned(), disable: Vec::new() },
            transports: PathsConfig { path: "/usr/lib/janus/transports".to_owned(), disable: Vec::new() },
            events: EventsConfig::default(),
            admin: AdminConfig::default(),
        }
    }
}

/// The error for a configuration file that could not be read.
pub fn config_read_error(path: &str, reason: &str) -> (e: Error)
    ensures
        e matches Error::Config(m) && m@ == "failed to read "@ + path@ + ": "@ + reason@,
{
    let mut m = "failed to read ".to_string();
    m.append(path);
    m.append(": ");
    m.append(reason);
    proof {
        reveal_strlit("failed to read ");
        reveal_strlit(": ");
    }
    Error::Config(m)
}

/// The error for configuration text that is not valid TOML for
/// `JanusConfig`, with the parser's message.
pub fn config_parse_error(reason: &str) -> (e: Error)
    ensures
        e matches Error::Config(m) && m@ == "failed to parse config: "@ + reason@,
{
    let mut m = "failed to parse config: ".to_string();
    m.append(reason);
    Error::Config(m)
}

} // verus!
