//! RFC 8288 `Link` headers that advertise the STUN/TURN servers of the
//! gateway to WHIP and WHEP clients.
use vstd::prelude::*;
use vstd::string::StringExecFns;
use crate::config::NatConfig;
use crate::text::decimal;

verus! {

/// An ICE server entry.
#[derive(Clone, Debug)]
pub struct IceServer {
    /// URIs like "stun:host:port" or "turn:host:port?transport=udp".
    pub urls: Vec<String>,
    pub username: Option<String>,
    pub credential: Option<String>,
}

/// The URL of a STUN server.
pub open spec fn stun_url(host: Seq<char>, port: u16) -> Seq<char> {
    "stun:"@ + host + ":"@ + decimal(port as nat)
}

/// The URL of a TURN server (over UDP).
pub open spec fn turn_url(host: Seq<char>, port: u16) -> Seq<char> {
    "turn:"@ + host + ":"@ + decimal(port as nat) + "?transport=udp"@
}

/// The one-URL server entry for `url` with the given credentials.
pub open spec fn server_entry(s: IceServer, url: Seq<char>, user: Option<String>, cred: Option<String>) -> bool {
    &&& s.urls@.len() == 1
    &&& s.urls@[0]@ == url
    &&& s.username == user
    &&& s.credential == cred
}

/// The servers of a NAT configuration: its STUN server, if any, then its
/// TURN server, if any.
pub open spec fn servers_of(cfg: NatConfig, servers: Seq<IceServer>) -> bool {
    let n_stun: int = if cfg.stun_server is Some { 1 } else { 0 };
    &&& servers.len() == n_stun + (if cfg.turn_server is Some { 1int } else { 0 })
    &&& cfg.stun_server matches Some(h) ==> server_entry(servers[0], stun_url(h@, cfg.stun_port), None, None)
    &&& cfg.turn_server matches Some(h) ==> server_entry(servers[n_stun], turn_url(h@, cfg.turn_port), cfg.turn_user, cfg.turn_pwd)
}

/// Builds the ICE server entries of a NAT configuration.
pub fn ice_servers_from_nat(cfg: &NatConfig) -> (servers: Vec<IceServer>)
    ensures
        servers_of(*cfg, servers@),
{
    let mut servers: Vec<IceServer> = Vec::new();
    if let Some(stun) = &cfg.stun_server {
        let mut url = "stun:".to_owned();
        url.append(stun.as_str());
        url.append(":");
        crate::text::push_decimal(&mut url, cfg.stun_port as u64);
        let mut urls: Vec<String> = Vec::new();
        urls.push(url);
        servers.push(IceServer { urls, username: None, credential: None });
    }
    if let Some(turn) = &cfg.turn_server {
        let mut url = "turn:".to_owned();
        url.append(turn.as_str());
        url.append(":");
        crate::text::push_decimal(&mut url, cfg.turn_port as u64);
        url.append("?transport=udp");
        let mut urls: Vec<String> = Vec::new();
        urls.push(url);
        servers.push(IceServer {
            urls,
            username: crate::text::clone_opt_string(&cfg.turn_user),
            credential: crate::text::clone_opt_string(&cfg.turn_pwd),
        });
    }
    servers
}

/// The `Link` header value for one URL of a server.
pub open spec fn link_value(url: Seq<char>, user: Option<String>, cred: Option<String>) -> Seq<char> {
    "<"@ + url + ">; rel=\"ice-server\""@
        + (match user { Some(u) => "; username=\""@ + u@ + "\""@, None => Seq::empty() })
        + (match cred { Some(c) => "; credential=\""@ + c@ + "\"; credential-type=\"password\""@, None => Seq::empty() })
}

/// The `Link` header values of one server, one per URL.
pub open spec fn server_links(s: IceServer) -> Seq<Seq<char>> {
    s.urls@.map_values(|u: String| link_value(u@, s.username, s.credential))
}

/// The `Link` header values of all servers, in order.
pub open spec fn all_links(servers: Seq<IceServer>) -> Seq<Seq<char>> {
    servers.map_values(|s: IceServer| server_links(s)).flatten()
}

fn link_for(url: &str, user: &Option<String>, cred: &Option<String>) -> (v: String)
    ensures
        v@ == link_value(url@, *user, *cred),
{
    let mut v = "<".to_owned();
    v.append(url);
    v.append(">; rel=\"ice-server\"");
    if let Some(u) = user {
        v.append("; username=\"");
        v.append(u.as_str());
        v.append("\"");
    }
    if let Some(c) = cred {
        v.append("; credential=\"");
        v.append(c.as_str());
        v.append("\"; credential-type=\"password\"");
    }
    proof {
        assert(v@ =~= link_value(url@, *user, *cred));
    }
    v
}

/// The RFC 8288 `Link` header values for the given ICE servers, each to be
/// sent as a separate `Link` header.
pub fn link_header_values(servers: &[IceServer]) -> (values: Vec<String>)
    ensures
        values@.map_values(|v: String| v@) == all_links(servers@),
{
    let mut values: Vec<String> = Vec::new();
    let mut i: usize = 0;
    while i < servers.len()
        invariant
            i <= servers@.len(),
            values@.map_values(|v: String| v@) == all_links(servers@.take(i as int)),
        decreases servers@.len() - i,
    {
        let server = &servers[i];
        let ghost before = values@.map_values(|v: String| v@);
        let mut j: usize = 0;
        while j < server.urls.len()
            invariant
                j <= server.urls@.len(),
                values@.map_values(|v: String| v@) == before + server_links(*server).take(j as int),
            decreases server.urls@.len() - j,
        {
            let v = link_for(server.urls[j].as_str(), &server.username, &server.credential);
            let ghost vals0 = values@;
            values.push(v);
            proof {
                assert(values@.map_values(|v: String| v@) =~= vals0.map_values(|v: String| v@).push(v@));
                assert(server_links(*server).take(j + 1) =~= server_links(*server).take(j as int).push(v@));
            }
            j = j + 1;
        }
        proof {
            assert(server_links(*server).take(j as int) =~= server_links(*server));
            let f = |s: IceServer| server_links(s);
            assert(servers@.take(i + 1) =~= servers@.take(i as int).push(servers@[i as int]));
            assert(servers@.take(i + 1).map_values(f) =~= servers@.take(i as int).map_values(f).push(f(servers@[i as int])));
            servers@.take(i as int).map_values(f).lemma_flatten_push(f(servers@[i as int]));
        }
        i = i + 1;
    }
    proof {
        assert(servers@.take(i as int) =~= servers@);
    }
    values
}

} // verus!
