//! The gateway core's request logic.
//!
//! `Gateway::process_request` decides what a Janus API request is answered
//! and what work on plugins and peer connections it calls for; the transport
//! layer performs that work (plugins are objects of its own) and, for a
//! `message`, hands the plugin's outcome back to `message_reply`.
use vstd::prelude::*;
use vstd::string::StringExecFns;
use crate::config::JanusConfig;
use crate::error::{Error, error_text};
use crate::client_map::{ClientMap, client_map_contents, client_map_get, client_map_insert, client_map_new, client_map_remove};
use crate::session::{HandleInfo, Session, SessionManager, rng_failure_text};
use crate::text::{decimal, str_eq};
use crate::transport::TransportRequest;
use crate::types::{HandleId, Jsep, JsepType, PluginSession, SessionId};

verus! {

/// The fields of a Janus API request that the core reads.
#[derive(Clone, Debug)]
pub struct GatewayRequest {
    /// The `janus` verb, if it is a string.
    pub janus: Option<String>,
    pub transaction: Option<String>,
    pub apisecret: Option<String>,
    pub session_id: Option<u64>,
    pub handle_id: Option<u64>,
    pub plugin: Option<String>,
}

/// A response of the Janus API.
#[derive(Clone, Debug)]
pub enum GatewayReply {
    /// `{"janus":"error"}` with a code and a reason.
    Error { transaction: String, code: u32, reason: String },
    /// `{"janus":"pong"}`.
    Pong { transaction: String },
    /// `{"janus":"server_info"}`.
    ServerInfo { transaction: String, name: String, session_timeout: u64, plugins: Vec<String> },
    /// `{"janus":"success"}` for a new session, with its id as `data.id`.
    Created { transaction: String, id: u64 },
    /// `{"janus":"success"}` naming the session.
    Success { transaction: String, session_id: u64 },
    /// `{"janus":"success"}` for a new handle, with its id as `data.id`.
    Attached { transaction: String, session_id: u64, handle_id: u64 },
    /// `{"janus":"ack"}`, with a hint where there is one.
    Ack { transaction: String, session_id: u64, hint: Option<String> },
}

/// Work that a request calls for beyond its response.
#[derive(Clone, Debug)]
pub enum GatewayEffect {
    Nothing,
    /// A session went away: close the peer connection of each of these
    /// handles and tell their plugins.
    Teardown { handles: Vec<HandleInfo> },
    /// A handle was attached: tell the plugin, if it is registered.
    NotifyAttach { session: PluginSession, plugin: String },
    /// A handle was detached: close its peer connection and tell its plugin.
    NotifyDetach { info: HandleInfo },
    /// Forward the request's ICE candidate to the handle's peer connection.
    Trickle { session: PluginSession },
}

/// What the core does with a request.
#[derive(Clone, Debug)]
pub enum GatewayAction {
    /// Respond, and perform the effect.
    Respond { reply: GatewayReply, effect: GatewayEffect },
    /// Hand the message to the handle's plugin; the response is
    /// `message_reply` of what the plugin returns.
    Dispatch { transaction: String, info: HandleInfo },
}

/// What a plugin's `handle_message` came back with.
#[derive(Clone, Debug)]
pub enum PluginOutcome {
    /// A synchronous result, pushed to the client as an event.
    Done,
    /// The plugin answers later; with its hint.
    Wait { hint: Option<String> },
    /// The plugin refused the message; with the error's text.
    Failed { reason: String },
}

/// What to do with a JSEP that goes out with an event.
#[derive(Clone, Copy, Debug, PartialEq, Eq, Structural)]
pub enum JsepAction {
    /// No JSEP goes out.
    Omit,
    /// The JSEP goes out as it is.
    Forward,
    /// Set up a peer connection that accepts the offer and send its answer
    /// (the JSEP as it is if that fails).
    AnswerWithPeerConnection,
}

/// The request verbs the core knows.
pub open spec fn is_gateway_verb(q: Seq<char>) -> bool {
    q == "info"@ || q == "ping"@ || q == "create"@ || q == "destroy"@ || q == "attach"@ || q == "detach"@
        || q == "keepalive"@ || q == "message"@ || q == "trickle"@
}

/// `s` as a string, or the empty string.
pub open spec fn or_empty(s: Option<String>) -> Seq<char> {
    match s {
        Some(t) => t@,
        None => Seq::empty(),
    }
}

/// `n`, or 0.
pub open spec fn or_zero(n: Option<u64>) -> u64 {
    match n {
        Some(v) => v,
        None => 0,
    }
}

/// An error response with `code` and `reason`.
pub open spec fn is_error_reply(r: GatewayReply, tx: Seq<char>, code: u32, reason: Seq<char>) -> bool {
    r matches GatewayReply::Error { transaction, code: c, reason: m } && transaction@ == tx && c == code && m@ == reason
}

/// An ack for session `sid` with no hint.
pub open spec fn is_plain_ack(r: GatewayReply, tx: Seq<char>, sid: u64) -> bool {
    r matches GatewayReply::Ack { transaction, session_id, hint } && transaction@ == tx && session_id == sid && hint is None
}

/// An action that responds with `pred` and has no other effect.
pub open spec fn responds_only(a: GatewayAction, pred: spec_fn(GatewayReply) -> bool) -> bool {
    a matches GatewayAction::Respond { reply, effect } && pred(reply) && effect is Nothing
}

/// The reason of a refused request without the right API secret.
pub open spec fn unauthorized_reason() -> Seq<char> {
    "Unauthorized request (wrong or missing secret)"@
}

/// `b` is `a` with session `sid`'s last activity set to the clock reading
/// `now` (if the session exists), and nothing else changed.
pub open spec fn touched(a: SessionManager, b: SessionManager, sid: u64, now: u64) -> bool {
    &&& b.timeout() == a.timeout()
    &&& b.sessions().dom() == a.sessions().dom()
    &&& (a.sessions().contains_key(sid) ==> b.sessions()[sid] == (Session { last_activity: now, ..a.sessions()[sid] })
        && b.handles_of(sid) == a.handles_of(sid))
    &&& forall|k: u64| k != sid && #[trigger] a.sessions().contains_key(k) ==> b.sessions()[k] == a.sessions()[k]
}

/// The reason of an unknown handle.
pub open spec fn no_such_handle(hid: u64, sid: u64) -> Seq<char> {
    "No such handle "@ + decimal(hid as nat) + " in session "@ + decimal(sid as nat)
}

/// The reason of an unknown plugin.
pub open spec fn plugin_not_found(p: Seq<char>) -> Seq<char> {
    "Plugin '"@ + p + "' not found"@
}

/// A session is destroyed.
pub open spec fn destroy_post(old: Gateway, new: Gateway, tx: Seq<char>, sid: u64, a: GatewayAction) -> bool {
    let om = old.mgr();
    let nm = new.mgr();
    &&& nm.timeout() == om.timeout()
    &&& nm.sessions() == om.sessions().remove(sid)
    &&& if !om.sessions().contains_key(sid) {
        responds_only(a, |r: GatewayReply| is_error_reply(r, tx, 458, error_text(Error::SessionNotFound(sid))))
            && new.clients() == old.clients()
    } else {
        &&& new.clients() == old.clients().remove(sid)
        &&& a matches GatewayAction::Respond { reply: GatewayReply::Success { transaction, session_id }, effect: GatewayEffect::Teardown { handles } }
            && transaction@ == tx && session_id == sid && {
            &&& handles@.len() == om.handles_of(sid).dom().len()
            &&& forall|i: int| 0 <= i < handles@.len() ==> om.handles_of(sid).contains_key(#[trigger] handles@[i].handle_id.0)
                && om.handles_of(sid)[handles@[i].handle_id.0] == handles@[i]
            &&& forall|h: u64| #[trigger] om.handles_of(sid).contains_key(h) ==> exists|i: int| 0 <= i < handles@.len() && handles@[i].handle_id.0 == h
        }
    }
}

/// What the gateway answers a request, and how its state changes.
pub open spec fn process_post(old: Gateway, new: Gateway, client: Seq<char>, msg: GatewayRequest, now: u64, a: GatewayAction) -> bool {
    let tx = or_empty(msg.transaction);
    let q = or_empty(msg.janus);
    let sid = or_zero(msg.session_id);
    let hid = or_zero(msg.handle_id);
    let om = old.mgr();
    let nm = new.mgr();
    &&& new.cfg() == old.cfg()
    &&& new.plugin_names() == old.plugin_names()
    &&& if old.cfg().general.api_secret is Some && or_empty(msg.apisecret) != old.cfg().general.api_secret.unwrap()@ {
        &&& responds_only(a, |r: GatewayReply| is_error_reply(r, tx, 403, unauthorized_reason()))
        &&& nm == om && new.clients() == old.clients()
    } else if q == "info"@ {
        &&& a matches GatewayAction::Respond { reply: GatewayReply::ServerInfo { transaction, name, session_timeout, plugins }, effect: GatewayEffect::Nothing }
            && transaction@ == tx && name == old.cfg().general.server_name
            && session_timeout == old.cfg().general.session_timeout
            && plugins@.map_values(|p: String| p@) == old.plugin_names()
        &&& nm == om && new.clients() == old.clients()
    } else if q == "ping"@ {
        &&& a matches GatewayAction::Respond { reply: GatewayReply::Pong { transaction }, effect: GatewayEffect::Nothing } && transaction@ == tx
        &&& nm == om && new.clients() == old.clients()
    } else if q == "create"@ {
        &&& nm.timeout() == om.timeout()
        &&& if a matches GatewayAction::Respond { reply: GatewayReply::Created { .. }, .. } {
            a matches GatewayAction::Respond { reply: GatewayReply::Created { transaction, id }, effect: GatewayEffect::Nothing } && {
                &&& transaction@ == tx
                &&& nm.sessions().dom() == om.sessions().dom().insert(id)
                &&& nm.handles_of(id) == Map::<u64, HandleInfo>::empty()
                &&& !nm.sessions()[id].destroying
                &&& nm.sessions()[id].last_activity == now
                &&& forall|k: u64| k != id && #[trigger] om.sessions().contains_key(k) ==> nm.sessions()[k] == om.sessions()[k]
                &&& new.clients().dom() == old.clients().dom().insert(id)
                &&& new.clients()[id] == client
                &&& forall|k: u64| k != id && #[trigger] old.clients().contains_key(k) ==> new.clients()[k] == old.clients()[k]
            }
        } else {
            // The system's random source failed.
            &&& responds_only(a, |r: GatewayReply| is_error_reply(r, tx, 490, rng_failure_text()))
            &&& nm.sessions() == om.sessions() && new.clients() == old.clients()
        }
    } else if q == "destroy"@ {
        destroy_post(old, new, tx, sid, a)
    } else if q == "attach"@ {
        &&& new.clients() == old.clients()
        &&& nm.timeout() == om.timeout()
        &&& nm.sessions().dom() == om.sessions().dom()
        &&& forall|k: u64| k != sid && #[trigger] om.sessions().contains_key(k) ==> nm.sessions()[k] == om.sessions()[k]
        &&& if !om.sessions().contains_key(sid) {
            responds_only(a, |r: GatewayReply| is_error_reply(r, tx, 458, error_text(Error::SessionNotFound(sid))))
                && nm.sessions() == om.sessions()
        } else if a matches GatewayAction::Respond { reply: GatewayReply::Attached { .. }, .. } {
            &&& a matches GatewayAction::Respond { reply: GatewayReply::Attached { transaction, session_id, handle_id }, effect: GatewayEffect::NotifyAttach { session, plugin } }
                && transaction@ == tx && session_id == sid && plugin@ == or_empty(msg.plugin)
                && session == (PluginSession { session_id: SessionId(sid), handle_id: HandleId(handle_id) })
                && nm.handles_of(sid) == om.handles_of(sid).insert(handle_id, HandleInfo { handle_id: HandleId(handle_id), session_id: SessionId(sid), plugin_package: plugin })
            &&& nm.sessions()[sid].destroying == om.sessions()[sid].destroying
            &&& nm.sessions()[sid].last_activity == now
        } else {
            // The system's random source failed: the session is only touched.
            &&& responds_only(a, |r: GatewayReply| is_error_reply(r, tx, 458, rng_failure_text()))
            &&& touched(om, nm, sid, now)
        }
    } else if q == "detach"@ {
        &&& new.clients() == old.clients()
        &&& nm.timeout() == om.timeout()
        &&& nm.sessions().dom() == om.sessions().dom()
        &&& forall|k: u64| k != sid && #[trigger] om.sessions().contains_key(k) ==> nm.sessions()[k] == om.sessions()[k]
        &&& if !om.sessions().contains_key(sid) {
            responds_only(a, |r: GatewayReply| is_error_reply(r, tx, 458, error_text(Error::SessionNotFound(sid)))) && nm.sessions() == om.sessions()
        } else if !om.handles_of(sid).contains_key(hid) {
            responds_only(a, |r: GatewayReply| is_error_reply(r, tx, 458, error_text(Error::HandleNotFound(hid)))) && nm.sessions() == om.sessions()
        } else {
            &&& a matches GatewayAction::Respond { reply: GatewayReply::Success { transaction, session_id }, effect: GatewayEffect::NotifyDetach { info } }
                && transaction@ == tx && session_id == sid && info == om.handles_of(sid)[hid]
            &&& nm.handles_of(sid) == om.handles_of(sid).remove(hid)
        }
    } else if q == "keepalive"@ {
        &&& new.clients() == old.clients()
        &&& touched(om, nm, sid, now)
        &&& if om.sessions().contains_key(sid) {
            responds_only(a, |r: GatewayReply| is_plain_ack(r, tx, sid))
        } else {
            responds_only(a, |r: GatewayReply| is_error_reply(r, tx, 458, "No such session "@ + decimal(sid as nat)))
        }
    } else if q == "message"@ {
        &&& new.clients() == old.clients()
        &&& touched(om, nm, sid, now)
        &&& if !om.sessions().contains_key(sid) || !om.handles_of(sid).contains_key(hid) {
            responds_only(a, |r: GatewayReply| is_error_reply(r, tx, 458, no_such_handle(hid, sid)))
        } else if !old.plugin_names().contains(om.handles_of(sid)[hid].plugin_package@) {
            responds_only(a, |r: GatewayReply| is_error_reply(r, tx, 460, plugin_not_found(om.handles_of(sid)[hid].plugin_package@)))
        } else {
            a matches GatewayAction::Dispatch { transaction, info } && transaction@ == tx && info == om.handles_of(sid)[hid]
        }
    } else if q == "trickle"@ {
        &&& new.clients() == old.clients()
        &&& touched(om, nm, sid, now)
        &&& a matches GatewayAction::Respond { reply, effect: GatewayEffect::Trickle { session } } && is_plain_ack(reply, tx, sid)
            && session == (PluginSession { session_id: SessionId(sid), handle_id: HandleId(hid) })
    } else {
        &&& responds_only(a, |r: GatewayReply| is_error_reply(r, tx, 455, "Unknown request '"@ + q + "'"@))
        &&& nm == om && new.clients() == old.clients()
    }
}

/// Respond with `reply` and nothing else.
fn respond(reply: GatewayReply) -> (a: GatewayAction)
    ensures
        a == (GatewayAction::Respond { reply, effect: GatewayEffect::Nothing }),
{
    GatewayAction::Respond { reply, effect: GatewayEffect::Nothing }
}

proof fn lemma_gateway_verbs_distinct()
    ensures
        "info"@ != "ping"@, "info"@ != "create"@, "info"@ != "destroy"@, "info"@ != "attach"@, "info"@ != "detach"@,
        "info"@ != "keepalive"@, "info"@ != "message"@, "info"@ != "trickle"@,
        "ping"@ != "create"@, "ping"@ != "destroy"@, "ping"@ != "attach"@, "ping"@ != "detach"@,
        "ping"@ != "keepalive"@, "ping"@ != "message"@, "ping"@ != "trickle"@,
        "create"@ != "destroy"@, "create"@ != "attach"@, "create"@ != "detach"@, "create"@ != "keepalive"@,
        "create"@ != "message"@, "create"@ != "trickle"@,
        "destroy"@ != "attach"@, "destroy"@ != "detach"@, "destroy"@ != "keepalive"@, "destroy"@ != "message"@,
        "destroy"@ != "trickle"@,
        "attach"@ != "detach"@, "attach"@ != "keepalive"@, "attach"@ != "message"@, "attach"@ != "trickle"@,
        "detach"@ != "keepalive"@, "detach"@ != "message"@, "detach"@ != "trickle"@,
        "keepalive"@ != "message"@, "keepalive"@ != "trickle"@,
        "message"@ != "trickle"@,
{
    reveal_strlit("info");
    reveal_strlit("ping");
    reveal_strlit("create");
    reveal_strlit("destroy");
    reveal_strlit("attach");
    reveal_strlit("detach");
    reveal_strlit("keepalive");
    reveal_strlit("message");
    reveal_strlit("trickle");
    assert("info"@.len() == 4 && "ping"@.len() == 4 && "create"@.len() == 6 && "destroy"@.len() == 7);
    assert("attach"@.len() == 6 && "detach"@.len() == 6 && "keepalive"@.len() == 9);
    assert("message"@.len() == 7 && "trickle"@.len() == 7);
    assert("info"@[0] != "ping"@[0]);
    assert("create"@[0] != "attach"@[0] && "create"@[0] != "detach"@[0] && "attach"@[0] != "detach"@[0]);
    assert("destroy"@[0] != "message"@[0] && "destroy"@[0] != "trickle"@[0] && "message"@[0] != "trickle"@[0]);
}

/// The gateway core: configuration, sessions, the packages of the
/// registered plugins and the client each session belongs to.
pub struct Gateway {
    config: JanusConfig,
    sessions: SessionManager,
    plugins: Vec<String>,
    session_clients: ClientMap,
}

impl Gateway {
    pub closed spec fn cfg(&self) -> JanusConfig {
        self.config
    }

    pub closed spec fn mgr(&self) -> SessionManager {
        self.sessions
    }

    /// The registered plugin packages, in the order they were registered.
    pub closed spec fn plugin_names(&self) -> Seq<Seq<char>> {
        self.plugins@.map_values(|p: String| p@)
    }

    /// The client of each session.
    pub closed spec fn clients(&self) -> Map<u64, Seq<char>> {
        client_map_contents(self.session_clients)
    }

    pub closed spec fn wf(&self) -> bool {
        &&& self.sessions.wf()
        &&& self.plugin_names().no_duplicates()
    }

    /// A gateway with `config`, no sessions and no plugins; sessions time
    /// out after the configured number of seconds.
    pub fn new(config: JanusConfig) -> (g: Self)
        ensures
            g.wf(),
            g.cfg() == config,
            g.mgr().sessions() == Map::<u64, crate::session::Session>::empty(),
            g.mgr().timeout() == config.general.session_timeout,
            g.plugin_names() == Seq::<Seq<char>>::empty(),
            g.clients() == Map::<u64, Seq<char>>::empty(),
    {
        let sessions = SessionManager::new(config.general.session_timeout);
        let g = Gateway { config, sessions, plugins: Vec::new(), session_clients: client_map_new() };
        assert(g.plugin_names() =~= Seq::<Seq<char>>::empty());
        g
    }

    /// The configuration.
    pub fn config(&self) -> (c: &JanusConfig)
        ensures
            *c == self.cfg(),
    {
        &self.config
    }

    /// The session manager.
    pub fn sessions(&self) -> (m: &SessionManager)
        ensures
            *m == self.mgr(),
    {
        &self.sessions
    }

    /// Whether a plugin with package `name` is registered.
    pub fn has_plugin(&self, name: &str) -> (b: bool)
        ensures
            b == self.plugin_names().contains(name@),
    {
        let mut i: usize = 0;
        while i < self.plugins.len()
            invariant
                i <= self.plugins@.len(),
                forall|j: int| 0 <= j < i ==> self.plugins@[j]@ != name@,
            decreases self.plugins@.len() - i,
        {
            if str_eq(self.plugins[i].as_str(), name) {
                assert(self.plugin_names()[i as int] == name@);
                return true;
            }
            i = i + 1;
        }
        proof {
            if self.plugin_names().contains(name@) {
                let j = choose|j: int| 0 <= j < self.plugin_names().len() && self.plugin_names()[j] == name@;
                assert(self.plugins@[j]@ == name@);
            }
        }
        false
    }

    /// Registers a plugin under its package name; registering a package
    /// again changes nothing.
    pub fn register_plugin(&mut self, package: String)
        requires
            old(self).wf(),
        ensures
            final(self).wf(),
            final(self).cfg() == old(self).cfg(),
            final(self).mgr() == old(self).mgr(),
            final(self).clients() == old(self).clients(),
            old(self).plugin_names().contains(package@) ==> final(self).plugin_names() == old(self).plugin_names(),
            !old(self).plugin_names().contains(package@) ==> final(self).plugin_names() == old(self).plugin_names().push(package@),
    {
        if !self.has_plugin(package.as_str()) {
            let ghost p = package@;
            self.plugins.push(package);
            proof {
                assert(self.plugin_names() =~= old(self).plugin_names().push(p));
            }
        }
    }

    /// The registered plugin packages.
    pub fn packages(&self) -> (ps: Vec<String>)
        ensures
            ps@.map_values(|p: String| p@) == self.plugin_names(),
    {
        let mut out: Vec<String> = Vec::new();
        let mut i: usize = 0;
        while i < self.plugins.len()
            invariant
                i <= self.plugins@.len(),
                out@.map_values(|p: String| p@) == self.plugin_names().take(i as int),
            decreases self.plugins@.len() - i,
        {
            let c = self.plugins[i].clone();
            let ghost out0 = out@;
            out.push(c);
            proof {
                assert(out@ =~= out0.push(c));
                assert(self.plugin_names().take(i + 1) =~= self.plugin_names().take(i as int).push(c@));
                assert(out@.map_values(|p: String| p@) =~= out0.map_values(|p: String| p@).push(c@));
            }
            i = i + 1;
        }
        proof {
            assert(self.plugin_names().take(i as int) =~= self.plugin_names());
        }
        out
    }

    /// Whether `secret` is the configured API secret (any secret is, when
    /// none is configured).
    pub fn is_api_secret_valid(&self, secret: &str) -> (b: bool)
        ensures
            b == (match self.cfg().general.api_secret {
                Some(expected) => expected@ == secret@,
                None => true,
            }),
    {
        match &self.config.general.api_secret {
            Some(expected) => str_eq(expected.as_str(), secret),
            None => true,
        }
    }

    /// Whether a token is accepted: only when token authentication is off.
    pub fn is_auth_token_valid(&self, token: &str) -> (b: bool)
        ensures
            b == !self.cfg().general.token_auth,
    {
        !self.config.general.token_auth
    }

    /// Destroys session `sid`.
    fn destroy(&mut self, tx: String, sid: u64) -> (a: GatewayAction)
        requires
            old(self).wf(),
        ensures
            final(self).wf(),
            final(self).cfg() == old(self).cfg(),
            final(self).plugin_names() == old(self).plugin_names(),
            destroy_post(*old(self), *final(self), tx@, sid, a),
    {
        match self.sessions.destroy_session(SessionId(sid)) {
            Ok(handles) => {
                client_map_remove(&mut self.session_clients, sid);
                GatewayAction::Respond { reply: GatewayReply::Success { transaction: tx, session_id: sid }, effect: GatewayEffect::Teardown { handles } }
            },
            Err(e) => respond(GatewayReply::Error { transaction: tx, code: 458, reason: e.to_string() }),
        }
    }

    /// Creates the session with drawn id `id` for `client`, last active at
    /// clock reading `now`, and answers with its id.
    pub fn create_with_id(&mut self, tx: String, id: SessionId, client: &str, now: u64) -> (a: GatewayAction)
        requires
            old(self).wf(),
        ensures
            final(self).wf(),
            final(self).cfg() == old(self).cfg(),
            final(self).plugin_names() == old(self).plugin_names(),
            final(self).mgr().timeout() == old(self).mgr().timeout(),
            a == (GatewayAction::Respond { reply: GatewayReply::Created { transaction: tx, id: id.0 }, effect: GatewayEffect::Nothing }),
            final(self).mgr().sessions().dom() == old(self).mgr().sessions().dom().insert(id.0),
            final(self).mgr().handles_of(id.0) == Map::<u64, HandleInfo>::empty(),
            !final(self).mgr().sessions()[id.0].destroying,
            final(self).mgr().sessions()[id.0].last_activity == now,
            forall|k: u64| k != id.0 && #[trigger] old(self).mgr().sessions().contains_key(k)
                ==> final(self).mgr().sessions()[k] == old(self).mgr().sessions()[k],
            final(self).clients() == old(self).clients().insert(id.0, client@),
    {
        self.sessions.store_new_session(id, now);
        client_map_insert(&mut self.session_clients, id.0, client.to_owned());
        respond(GatewayReply::Created { transaction: tx, id: id.0 })
    }

    /// Attaches handle `handle_id` (drawn for it) for `plugin` to session
    /// `sid` and answers with its id; a session that does not exist is
    /// answered with error 458 and nothing changes.
    pub fn attach_with_id(&mut self, tx: String, sid: u64, handle_id: HandleId, plugin: String) -> (a: GatewayAction)
        requires
            old(self).wf(),
        ensures
            final(self).wf(),
            final(self).cfg() == old(self).cfg(),
            final(self).plugin_names() == old(self).plugin_names(),
            final(self).clients() == old(self).clients(),
            final(self).mgr().timeout() == old(self).mgr().timeout(),
            final(self).mgr().sessions().dom() == old(self).mgr().sessions().dom(),
            forall|k: u64| k != sid && #[trigger] old(self).mgr().sessions().contains_key(k)
                ==> final(self).mgr().sessions()[k] == old(self).mgr().sessions()[k],
            !old(self).mgr().sessions().contains_key(sid) ==> responds_only(a, |r: GatewayReply| is_error_reply(r, tx@, 458, error_text(Error::SessionNotFound(sid))))
                && final(self).mgr().sessions() == old(self).mgr().sessions(),
            old(self).mgr().sessions().contains_key(sid) ==> {
                &&& a == (GatewayAction::Respond {
                    reply: GatewayReply::Attached { transaction: tx, session_id: sid, handle_id: handle_id.0 },
                    effect: GatewayEffect::NotifyAttach { session: PluginSession { session_id: SessionId(sid), handle_id }, plugin },
                })
                &&& final(self).mgr().handles_of(sid) == old(self).mgr().handles_of(sid).insert(
                    handle_id.0,
                    HandleInfo { handle_id, session_id: SessionId(sid), plugin_package: plugin },
                )
                &&& final(self).mgr().sessions()[sid].last_activity == old(self).mgr().sessions()[sid].last_activity
                &&& final(self).mgr().sessions()[sid].destroying == old(self).mgr().sessions()[sid].destroying
            },
    {
        let plugin_name = plugin.clone();
        match self.sessions.attach_handle_with_id(SessionId(sid), handle_id, plugin) {
            Ok(h) => GatewayAction::Respond {
                reply: GatewayReply::Attached { transaction: tx, session_id: sid, handle_id: h.0 },
                effect: GatewayEffect::NotifyAttach { session: PluginSession::new(SessionId(sid), h), plugin: plugin_name },
            },
            Err(e) => respond(GatewayReply::Error { transaction: tx, code: 458, reason: e.to_string() }),
        }
    }

    /// Handles a Janus API request from `request`'s client, at the session
    /// manager's current clock reading.
    pub fn process_request(&mut self, request: &TransportRequest, msg: &GatewayRequest) -> (a: GatewayAction)
        requires
            old(self).wf(),
        ensures
            final(self).wf(),
            exists|now: u64| process_post(*old(self), *final(self), request.client_id@, *msg, now, a),
    {
        let now = self.sessions.clock_reading();
        self.process_request_at(request, msg, now)
    }

    /// Handles a Janus API request from `request`'s client at clock reading
    /// `now` (the time a touched session's activity is set to).
    pub fn process_request_at(&mut self, request: &TransportRequest, msg: &GatewayRequest, now: u64) -> (a: GatewayAction)
        requires
            old(self).wf(),
        ensures
            final(self).wf(),
            process_post(*old(self), *final(self), request.client_id@, *msg, now, a),
    {
        let q: &str = match &msg.janus { Some(j) => j.as_str(), None => "" };
        let tx: String = match &msg.transaction { Some(t) => t.clone(), None => String::new() };
        let sid: u64 = match msg.session_id { Some(s) => s, None => 0 };
        let hid: u64 = match msg.handle_id { Some(h) => h, None => 0 };
        proof {
            lemma_gateway_verbs_distinct();
            reveal_strlit("");
            assert(""@ =~= Seq::<char>::empty());
        }
        if let Some(secret) = &self.config.general.api_secret {
            let provided: &str = match &msg.apisecret { Some(p) => p.as_str(), None => "" };
            if !str_eq(provided, secret.as_str()) {
                return respond(GatewayReply::Error { transaction: tx, code: 403, reason: "Unauthorized request (wrong or missing secret)".to_owned() });
            }
        }
        if str_eq(q, "info") {
            let plugins = self.packages();
            return respond(GatewayReply::ServerInfo {
                transaction: tx,
                name: self.config.general.server_name.clone(),
                session_timeout: self.config.general.session_timeout,
                plugins,
            });
        }
        if str_eq(q, "ping") {
            return respond(GatewayReply::Pong { transaction: tx });
        }
        if str_eq(q, "create") {
            return match SessionId::random() {
                Some(id) => self.create_with_id(tx, id, request.client_id.as_str(), now),
                None => respond(GatewayReply::Error { transaction: tx, code: 490, reason: "random source unavailable".to_owned() }),
            };
        }
        if str_eq(q, "destroy") {
            return self.destroy(tx, sid);
        }
        if str_eq(q, "attach") {
            let plugin: String = match &msg.plugin { Some(p) => p.clone(), None => String::new() };
            self.sessions.touch_session_at(SessionId(sid), now);
            if !self.sessions.contains_session(SessionId(sid)) {
                return respond(GatewayReply::Error { transaction: tx, code: 458, reason: Error::SessionNotFound(sid).to_string() });
            }
            return match HandleId::random() {
                Some(h) => self.attach_with_id(tx, sid, h, plugin),
                None => respond(GatewayReply::Error { transaction: tx, code: 458, reason: "random source unavailable".to_owned() }),
            };
        }
        if str_eq(q, "detach") {
            return match self.sessions.detach_handle(SessionId(sid), HandleId(hid)) {
                Ok(info) => GatewayAction::Respond {
                    reply: GatewayReply::Success { transaction: tx, session_id: sid },
                    effect: GatewayEffect::NotifyDetach { info },
                },
                Err(e) => respond(GatewayReply::Error { transaction: tx, code: 458, reason: e.to_string() }),
            };
        }
        if str_eq(q, "keepalive") {
            if self.sessions.touch_session_at(SessionId(sid), now) {
                return respond(GatewayReply::Ack { transaction: tx, session_id: sid, hint: None });
            }
            let mut m = "No such session ".to_owned();
            crate::text::push_decimal(&mut m, sid);
            return respond(GatewayReply::Error { transaction: tx, code: 458, reason: m });
        }
        if str_eq(q, "message") {
            self.sessions.touch_session_at(SessionId(sid), now);
            let info = match self.sessions.get_handle(SessionId(sid), HandleId(hid)) {
                Ok(info) => info,
                Err(_) => {
                    let mut m = "No such handle ".to_owned();
                    crate::text::push_decimal(&mut m, hid);
                    m.append(" in session ");
                    crate::text::push_decimal(&mut m, sid);
                    return respond(GatewayReply::Error { transaction: tx, code: 458, reason: m });
                },
            };
            if !self.has_plugin(info.plugin_package.as_str()) {
                let m = plugin_not_found_reason(info.plugin_package.as_str());
                return respond(GatewayReply::Error { transaction: tx, code: 460, reason: m });
            }
            return GatewayAction::Dispatch { transaction: tx, info };
        }
        if str_eq(q, "trickle") {
            self.sessions.touch_session_at(SessionId(sid), now);
            return GatewayAction::Respond {
                reply: GatewayReply::Ack { transaction: tx, session_id: sid, hint: None },
                effect: GatewayEffect::Trickle { session: PluginSession::new(SessionId(sid), HandleId(hid)) },
            };
        }
        let m = "Unknown request '".to_owned().concat(q).concat("'");
        respond(GatewayReply::Error { transaction: tx, code: 455, reason: m })
    }

    /// The package of the plugin that handles media and events of `session`:
    /// the handle's plugin, if the handle exists and the plugin is registered.
    pub fn plugin_for(&self, session: &PluginSession) -> (p: Option<String>)
        requires
            self.wf(),
        ensures
            p matches Some(name) ==> self.mgr().sessions().contains_key(session.session_id.0)
                && self.mgr().handles_of(session.session_id.0).contains_key(session.handle_id.0)
                && name == self.mgr().handles_of(session.session_id.0)[session.handle_id.0].plugin_package
                && self.plugin_names().contains(name@),
            p is None ==> !(self.mgr().sessions().contains_key(session.session_id.0)
                && self.mgr().handles_of(session.session_id.0).contains_key(session.handle_id.0)
                && self.plugin_names().contains(self.mgr().handles_of(session.session_id.0)[session.handle_id.0].plugin_package@)),
    {
        match self.sessions.get_handle(session.session_id, session.handle_id) {
            Ok(info) => if self.has_plugin(info.plugin_package.as_str()) { Some(info.plugin_package) } else { None },
            Err(_) => None,
        }
    }

    /// The plugin name that an event pushed by a plugin for `session` is
    /// labelled with: the handle's plugin package, or the empty string.
    pub fn event_plugin_name(&self, session: &PluginSession) -> (name: String)
        requires
            self.wf(),
        ensures
            self.mgr().sessions().contains_key(session.session_id.0)
                && self.mgr().handles_of(session.session_id.0).contains_key(session.handle_id.0)
                ==> name == self.mgr().handles_of(session.session_id.0)[session.handle_id.0].plugin_package,
            !(self.mgr().sessions().contains_key(session.session_id.0)
                && self.mgr().handles_of(session.session_id.0).contains_key(session.handle_id.0)) ==> name@ == Seq::<char>::empty(),
    {
        match self.sessions.get_handle(session.session_id, session.handle_id) {
            Ok(info) => info.plugin_package,
            Err(_) => String::new(),
        }
    }

    /// The client that session `sid` belongs to, if known.
    pub fn client_of(&self, sid: SessionId) -> (c: Option<String>)
        requires
            self.wf(),
        ensures
            c matches Some(s) ==> self.clients().contains_key(sid.0) && s@ == self.clients()[sid.0],
            c is None ==> !self.clients().contains_key(sid.0),
    {
        client_map_get(&self.session_clients, sid.0)
    }
}

/// The response to a `message` once its plugin has answered.
pub fn message_reply(transaction: String, session_id: u64, outcome: PluginOutcome) -> (r: GatewayReply)
    ensures
        outcome is Done ==> (r matches GatewayReply::Ack { transaction: t, session_id: s, hint: Some(h) }
            && t == transaction && s == session_id && h@ == "Event pushed"@),
        outcome matches PluginOutcome::Wait { hint: Some(h) } ==> r == (GatewayReply::Ack { transaction, session_id, hint: Some(h) }),
        outcome matches PluginOutcome::Wait { hint: None } ==> (r matches GatewayReply::Ack { transaction: t, session_id: s, hint: Some(h) }
            && t == transaction && s == session_id && h@ == "Processing..."@),
        outcome matches PluginOutcome::Failed { reason } ==> r == (GatewayReply::Error { transaction, code: 490, reason }),
{
    match outcome {
        PluginOutcome::Done => GatewayReply::Ack { transaction, session_id, hint: Some("Event pushed".to_owned()) },
        PluginOutcome::Wait { hint } => GatewayReply::Ack {
            transaction,
            session_id,
            hint: match hint { Some(h) => Some(h), None => Some("Processing...".to_owned()) },
        },
        PluginOutcome::Failed { reason } => GatewayReply::Error { transaction, code: 490, reason },
    }
}

/// What happens to the JSEP of a plugin's synchronous result, given the
/// JSEP the client's message carried: an answer to a client's offer is
/// replaced by a peer connection's answer; any other goes out as it is.
pub fn result_jsep_action(result: &Option<Jsep>, offer: &Option<Jsep>) -> (act: JsepAction)
    ensures
        result is None ==> act == JsepAction::Omit,
        result matches Some(j) ==> act == (if j.jsep_type == JsepType::Answer && offer is Some {
            JsepAction::AnswerWithPeerConnection
        } else {
            JsepAction::Forward
        }),
{
    match result {
        None => JsepAction::Omit,
        Some(j) => if j.jsep_type == JsepType::Answer && offer.is_some() {
            JsepAction::AnswerWithPeerConnection
        } else {
            JsepAction::Forward
        },
    }
}

/// What happens to the JSEP of an event a plugin pushes: an answer is the
/// plugin asking for WebRTC, and is replaced by a peer connection's answer
/// to the offer it carries; any other goes out as it is.
pub fn pushed_jsep_action(jsep: &Option<Jsep>) -> (act: JsepAction)
    ensures
        jsep is None ==> act == JsepAction::Omit,
        jsep matches Some(j) ==> act == (if j.jsep_type == JsepType::Answer {
            JsepAction::AnswerWithPeerConnection
        } else {
            JsepAction::Forward
        }),
{
    match jsep {
        None => JsepAction::Omit,
        Some(j) => if j.jsep_type == JsepType::Answer { JsepAction::AnswerWithPeerConnection } else { JsepAction::Forward },
    }
}

/// The offer a peer connection is set up with for an answer that a plugin
/// pushed: the same SDP and trickle flag, as an offer.
pub fn offer_of(jsep: &Jsep) -> (o: Jsep)
    ensures
        o == (Jsep { jsep_type: JsepType::Offer, sdp: jsep.sdp, trickle: jsep.trickle }),
{
    Jsep { jsep_type: JsepType::Offer, sdp: jsep.sdp.clone(), trickle: jsep.trickle }
}

/// The ICE candidate of a `trickle` request to forward, as (candidate, mid):
/// nothing when the candidate is empty or marks the end of candidates; the
/// mid defaults to "0".
pub fn trickle_candidate(candidate: Option<String>, sdp_mid: Option<String>, completed: bool) -> (r: Option<(String, String)>)
    ensures
        (or_empty(candidate).len() == 0 || completed) ==> r is None,
        !(or_empty(candidate).len() == 0 || completed) ==> (r matches Some(p) && p.0@ == or_empty(candidate)
            && (sdp_mid matches Some(m) ==> p.1 == m) && (sdp_mid is None ==> p.1@ == "0"@)),
{
    let c = match candidate { Some(c) => c, None => String::new() };
    if c.unicode_len() == 0 || completed {
        return None;
    }
    let mid = match sdp_mid { Some(m) => m, None => "0".to_owned() };
    Some((c, mid))
}

/// Whether a request passes the API-secret check of gateway `g`.
pub open spec fn authorized(g: Gateway, msg: GatewayRequest) -> bool {
    g.cfg().general.api_secret is None || or_empty(msg.apisecret) == g.cfg().general.api_secret.unwrap()@
}

/// The id of the session that a `create` action reports, or 0.
pub open spec fn created_id(a: GatewayAction) -> u64 {
    match a {
        GatewayAction::Respond { reply: GatewayReply::Created { id, .. }, .. } => id,
        _ => 0,
    }
}

/// A request refused for its API secret is answered 403 and changes
/// nothing, whatever it asks for.
pub proof fn lemma_unauthorized_changes_nothing(a: Gateway, b: Gateway, client: Seq<char>, msg: GatewayRequest, now: u64, act: GatewayAction)
    requires
        !authorized(a, msg),
        process_post(a, b, client, msg, now, act),
    ensures
        responds_only(act, |r: GatewayReply| is_error_reply(r, or_empty(msg.transaction), 403, unauthorized_reason())),
        b.mgr() == a.mgr(),
        b.clients() == a.clients(),
{
}

/// A session that a `create` makes under a fresh id, and that a `destroy`
/// of that id then removes, leaves the gateway's sessions and its
/// session-to-client map as they were.
pub proof fn lemma_gateway_create_then_destroy(
    a: Gateway,
    b: Gateway,
    c: Gateway,
    client: Seq<char>,
    create: GatewayRequest,
    now1: u64,
    first: GatewayAction,
    other_client: Seq<char>,
    destroy: GatewayRequest,
    now2: u64,
    second: GatewayAction,
)
    requires
        authorized(a, create),
        or_empty(create.janus) == "create"@,
        process_post(a, b, client, create, now1, first),
        first matches GatewayAction::Respond { reply: GatewayReply::Created { .. }, .. },
        !a.mgr().sessions().contains_key(created_id(first)),
        !a.clients().contains_key(created_id(first)),
        authorized(b, destroy),
        or_empty(destroy.janus) == "destroy"@,
        or_zero(destroy.session_id) == created_id(first),
        process_post(b, c, other_client, destroy, now2, second),
    ensures
        c.mgr().sessions() == a.mgr().sessions(),
        c.clients() == a.clients(),
        second matches GatewayAction::Respond { reply: GatewayReply::Success { session_id, .. }, .. } && session_id == created_id(first),
{
    lemma_gateway_verbs_distinct();
    let id = created_id(first);
    assert(b.cfg() == a.cfg());
    assert(b.mgr().sessions().contains_key(id));
    assert(c.mgr().sessions() =~= a.mgr().sessions());
    assert(c.clients() =~= a.clients());
}

/// The reason given for a handle whose plugin is not registered.
pub fn plugin_not_found_reason(package: &str) -> (m: String)
    ensures
        m@ == plugin_not_found(package@),
{
    "Plugin '".to_owned().concat(package).concat("' not found")
}

} // verus!
