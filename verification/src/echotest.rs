//! EchoTest plugin: echoes a handle's own media back to it, with audio and
//! video toggles and a bitrate cap.
use vstd::prelude::*;
use vstd::string::StringExecFns;
use crate::idmap::{HandleKey, Table};
use crate::plugin_api::{PluginError, is_session_not_found};
use crate::types::{Jsep, JsepType, PluginSession, session_text, key_of, handle_key};

use crate::plugin_api::{PluginInfo, info_is};

verus! {

/// Per-handle state of the echo test.
#[derive(Clone, Copy, Debug, PartialEq, Eq, Structural)]
pub struct EchoSession {
    /// Whether audio echoing is enabled.
    pub audio: bool,
    /// Whether video echoing is enabled.
    pub video: bool,
    /// Bitrate cap in bps (0 = no cap).
    pub bitrate: u64,
    /// Whether this handle is actively relaying media.
    pub active: bool,
}

/// A message body of the echo test (absent toggles are on; an absent
/// bitrate is 0). A body that does not parse is read as all defaults.
#[derive(Clone, Copy, Debug)]
pub struct EchoTestMessage {
    pub audio: bool,
    pub video: bool,
    pub bitrate: u64,
}

/// Default of the audio and video toggles of a message.
pub fn default_true() -> (b: bool)
    ensures
        b,
{
    true
}

impl EchoTestMessage {
    /// The message that a body without fields (or one that does not parse)
    /// stands for.
    pub fn defaults() -> (m: EchoTestMessage)
        ensures
            m.audio,
            m.video,
            m.bitrate == 0,
    {
        EchoTestMessage { audio: true, video: true, bitrate: 0 }
    }
}

/// What an echo-test message is answered: `{"echotest":"event","result":"ok"}`.
/// With an answer, the plugin pushes that event with it and answers that it
/// is processing the JSEP.
#[derive(Clone, Debug)]
pub struct EchoReply {
    pub answer: Option<Jsep>,
}

/// The state after a message: toggles as given, the cap replaced only by a
/// positive bitrate.
pub open spec fn configured(s: EchoSession, m: EchoTestMessage) -> EchoSession {
    EchoSession { audio: m.audio, video: m.video, bitrate: if m.bitrate > 0 { m.bitrate } else { s.bitrate }, active: s.active }
}

/// Whether an RTP packet of the given kind is echoed to a handle in state `s`.
pub open spec fn echoes_rtp(s: EchoSession, video: bool) -> bool {
    s.active && (if video { s.video } else { s.audio })
}

/// What a message does: the post-condition of `handle_message`.
pub open spec fn message_post(
    old: EchoTestState,
    new: EchoTestState,
    session: PluginSession,
    msg: EchoTestMessage,
    jsep: Option<Jsep>,
    r: Result<EchoReply, PluginError>,
) -> bool {
    &&& !old.handles().contains_key(key_of(session)) ==> is_session_not_found(r, session_text(session))
        && new.handles() == old.handles()
    &&& old.handles().contains_key(key_of(session)) ==> {
        &&& new.handles() == old.handles().insert(key_of(session), configured(old.handles()[key_of(session)], msg))
        &&& r matches Ok(reply) && reply.answer == (match jsep {
            Some(j) => if j.jsep_type == JsepType::Offer {
                Some(Jsep { jsep_type: JsepType::Answer, sdp: j.sdp, trickle: j.trickle })
            } else {
                None
            },
            None => None,
        })
    }
}

/// A message sets the handle's audio and video toggles to its own, keeps
/// the media state, and replaces the bitrate cap only with a positive
/// bitrate: a message with bitrate 0 leaves the cap as it was. No other
/// handle changes.
pub proof fn lemma_message_bitrate(
    a: EchoTestState,
    b: EchoTestState,
    session: PluginSession,
    msg: EchoTestMessage,
    jsep: Option<Jsep>,
    r: Result<EchoReply, PluginError>,
)
    requires
        a.handles().contains_key(key_of(session)),
        message_post(a, b, session, msg, jsep, r),
    ensures
        r is Ok,
        b.handles().contains_key(key_of(session)),
        b.handles()[key_of(session)].audio == msg.audio,
        b.handles()[key_of(session)].video == msg.video,
        b.handles()[key_of(session)].active == a.handles()[key_of(session)].active,
        msg.bitrate == 0 ==> b.handles()[key_of(session)].bitrate == a.handles()[key_of(session)].bitrate,
        msg.bitrate > 0 ==> b.handles()[key_of(session)].bitrate == msg.bitrate,
        forall|k: HandleKey| k != key_of(session) ==> b.handles().contains_key(k) == a.handles().contains_key(k)
            && (#[trigger] a.handles().contains_key(k) ==> b.handles()[k] == a.handles()[k]),
{
}

/// The echo test's state: one record per handle.
#[derive(Debug)]
pub struct EchoTestState {
    sessions: Table<HandleKey, EchoSession>,
}

impl EchoTestState {
    /// The plugin's name, package, version, description and author.
    pub fn info() -> (i: PluginInfo)
        ensures
            info_is(i, "Janus EchoTest plugin"@, "janus.plugin.echotest"@, 1, "0.1.0"@, "Echoes RTP audio/video back to the sender, with optional muting and bitrate cap."@, "Steve Seguin"@),
    {
        PluginInfo {
            name: "Janus EchoTest plugin",
            package: "janus.plugin.echotest",
            version: 1,
            version_string: "0.1.0",
            description: "Echoes RTP audio/video back to the sender, with optional muting and bitrate cap.",
            author: "Steve Seguin",
        }
    }

    pub closed spec fn handles(&self) -> Map<HandleKey, EchoSession> {
        self.sessions@
    }

    pub closed spec fn wf(&self) -> bool {
        self.sessions.wf()
    }

    /// No handles.
    pub fn new() -> (s: Self)
        ensures
            s.wf(),
            s.handles() == Map::<HandleKey, EchoSession>::empty(),
    {
        EchoTestState { sessions: Table::new() }
    }

    /// Forgets every handle, as the plugin does when it is destroyed.
    pub fn clear(&mut self)
        ensures
            final(self).wf(),
            final(self).handles() == Map::<HandleKey, EchoSession>::empty(),
    {
        self.sessions = Table::new();
    }

    /// A new handle echoes audio and video, with no cap, and is not active.
    pub fn create_session(&mut self, session: &PluginSession)
        requires
            old(self).wf(),
        ensures
            final(self).wf(),
            final(self).handles() == old(self).handles().insert(
                key_of(*session),
                EchoSession { audio: true, video: true, bitrate: 0, active: false },
            ),
    {
        self.sessions.insert(handle_key(session), EchoSession { audio: true, video: true, bitrate: 0, active: false });
    }

    /// A handle goes away.
    pub fn destroy_session(&mut self, session: &PluginSession)
        requires
            old(self).wf(),
        ensures
            final(self).wf(),
            final(self).handles() == old(self).handles().remove(key_of(*session)),
    {
        self.sessions.remove(&handle_key(session));
    }

    /// The state of a handle.
    pub fn query_session(&self, session: &PluginSession) -> (r: Result<EchoSession, PluginError>)
        requires
            self.wf(),
        ensures
            self.handles().contains_key(key_of(*session)) ==> r == Ok::<EchoSession, PluginError>(self.handles()[key_of(*session)]),
            !self.handles().contains_key(key_of(*session)) ==> is_session_not_found(r, session_text(*session)),
    {
        match self.sessions.get(&handle_key(session)) {
            Some(s) => Ok(*s),
            None => Err(PluginError::SessionNotFound(session.to_string())),
        }
    }

    /// Handles a message: updates the handle's toggles and cap, and answers
    /// an offer with the same SDP as an answer (which the core replaces with
    /// a real one).
    pub fn handle_message(&mut self, session: &PluginSession, msg: EchoTestMessage, jsep: &Option<Jsep>)
        -> (r: Result<EchoReply, PluginError>)
        requires
            old(self).wf(),
        ensures
            final(self).wf(),
            message_post(*old(self), *final(self), *session, msg, *jsep, r),
    {
        let key = handle_key(session);
        let s = match self.sessions.get(&key) {
            Some(s) => *s,
            None => { return Err(PluginError::SessionNotFound(session.to_string())); },
        };
        let bitrate = if msg.bitrate > 0 { msg.bitrate } else { s.bitrate };
        self.sessions.insert(key, EchoSession { audio: msg.audio, video: msg.video, bitrate, active: s.active });
        let answer = match jsep {
            Some(j) => if j.jsep_type == JsepType::Offer {
                Some(Jsep { jsep_type: JsepType::Answer, sdp: j.sdp.clone(), trickle: j.trickle })
            } else {
                None
            },
            None => None,
        };
        Ok(EchoReply { answer })
    }

    /// Sets a handle's `active` flag; no effect on an unknown handle.
    fn set_active(&mut self, session: &PluginSession, a: bool)
        requires
            old(self).wf(),
        ensures
            final(self).wf(),
            old(self).handles().contains_key(key_of(*session)) ==> final(self).handles() == old(self).handles().insert(
                key_of(*session),
                EchoSession { active: a, ..old(self).handles()[key_of(*session)] },
            ),
            !old(self).handles().contains_key(key_of(*session)) ==> final(self).handles() == old(self).handles(),
    {
        let key = handle_key(session);
        if let Some(s) = self.sessions.get(&key) {
            let next = EchoSession { active: a, ..*s };
            self.sessions.insert(key, next);
        }
    }

    /// The media path is up: the handle starts echoing.
    pub fn setup_media(&mut self, session: &PluginSession)
        requires
            old(self).wf(),
        ensures
            final(self).wf(),
            old(self).handles().contains_key(key_of(*session)) ==> final(self).handles() == old(self).handles().insert(
                key_of(*session),
                EchoSession { active: true, ..old(self).handles()[key_of(*session)] },
            ),
            !old(self).handles().contains_key(key_of(*session)) ==> final(self).handles() == old(self).handles(),
    {
        self.set_active(session, true);
    }

    /// The media path went down: the handle stops echoing.
    pub fn hangup_media(&mut self, session: &PluginSession)
        requires
            old(self).wf(),
        ensures
            final(self).wf(),
            old(self).handles().contains_key(key_of(*session)) ==> final(self).handles() == old(self).handles().insert(
                key_of(*session),
                EchoSession { active: false, ..old(self).handles()[key_of(*session)] },
            ),
            !old(self).handles().contains_key(key_of(*session)) ==> final(self).handles() == old(self).handles(),
    {
        self.set_active(session, false);
    }

    /// Whether an incoming RTP packet (video or audio) is echoed back.
    pub fn echo_rtp(&self, session: &PluginSession, video: bool) -> (b: bool)
        requires
            self.wf(),
        ensures
            b == (self.handles().contains_key(key_of(*session)) && echoes_rtp(self.handles()[key_of(*session)], video)),
    {
        match self.sessions.get(&handle_key(session)) {
            Some(s) => s.active && (if video { s.video } else { s.audio }),
            None => false,
        }
    }

    /// Whether an incoming RTCP packet is echoed back.
    pub fn echo_rtcp(&self, session: &PluginSession) -> (b: bool)
        requires
            self.wf(),
        ensures
            b == (self.handles().contains_key(key_of(*session)) && self.handles()[key_of(*session)].active),
    {
        match self.sessions.get(&handle_key(session)) {
            Some(s) => s.active,
            None => false,
        }
    }
}

/// An RTP packet is echoed exactly when the handle's media is up and the
/// packet's kind (audio or video) is enabled for it.
pub proof fn lemma_echo_follows_toggles(st: EchoTestState, session: PluginSession, video: bool, echoed: bool)
    requires
        echoed == (st.handles().contains_key(key_of(session)) && echoes_rtp(st.handles()[key_of(session)], video)),
    ensures
        echoed <==> (st.handles().contains_key(key_of(session)) && st.handles()[key_of(session)].active
            && (video ==> st.handles()[key_of(session)].video)
            && (!video ==> st.handles()[key_of(session)].audio)),
{
}

} // verus!
