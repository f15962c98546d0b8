//! VideoCall plugin: users register names and call each other one to one;
//! media is relayed between the two handles of a call.
use vstd::prelude::*;
use vstd::string::StringExecFns;
use crate::idmap::{HandleKey, Table, entries_map, unique_keys, has_key, key_seq};
use crate::text::str_eq;
use crate::types::{HandleId, Jsep, JsepType, PluginSession, SessionId, key_of, handle_key};

use crate::plugin_api::{PluginInfo, info_is};

verus! {

/// A mandatory element is missing.
pub const VIDEOCALL_ERROR_MISSING_ELEMENT: u32 = 475;
/// The request is not known.
pub const VIDEOCALL_ERROR_INVALID_REQUEST: u32 = 474;
/// The handle has not registered a username.
pub const VIDEOCALL_ERROR_REGISTER_FIRST: u32 = 473;
/// The username is taken.
pub const VIDEOCALL_ERROR_USERNAME_TAKEN: u32 = 476;
/// The handle already registered a username.
pub const VIDEOCALL_ERROR_ALREADY_REGISTERED: u32 = 477;
/// No user has that name.
pub const VIDEOCALL_ERROR_NO_SUCH_USERNAME: u32 = 478;
/// The handle (or its peer) is in a call.
pub const VIDEOCALL_ERROR_ALREADY_IN_CALL: u32 = 480;
/// The handle is in no call.
pub const VIDEOCALL_ERROR_NO_CALL: u32 = 481;
/// The request lacks the SDP it needs.
pub const VIDEOCALL_ERROR_MISSING_SDP: u32 = 482;

/// Per-handle state of a participant.
#[derive(Clone, Debug)]
pub struct VideoCallSession {
    /// Registered username (None if not yet registered).
    pub username: Option<String>,
    /// The peer's handle while in a call.
    pub peer: Option<HandleKey>,
    /// Whether audio relaying is active.
    pub audio_active: bool,
    /// Whether video relaying is active.
    pub video_active: bool,
    /// Bitrate cap in bps (0 = no cap).
    pub bitrate: u64,
}

/// A videocall request body, as the fields the plugin reads from it.
#[derive(Clone, Debug)]
pub struct VideoCallRequest {
    /// The `request` field, if it is a string.
    pub request: Option<String>,
    pub username: Option<String>,
    pub audio: Option<bool>,
    pub video: Option<bool>,
    pub bitrate: Option<u64>,
}

/// The result the plugin answers a request with, as its `videocall` event.
#[derive(Clone, Debug)]
pub enum VideoCallReply {
    /// `{"error_code": code, "error": reason}`.
    Error { code: u32, reason: String },
    Registered { username: String },
    List { list: Vec<String> },
    Calling,
    Accepted { username: String },
    SetDone,
    Hangup { username: String, reason: String },
}

/// An event pushed to the other party of a call.
#[derive(Clone, Debug)]
pub enum CallEvent {
    IncomingCall { username: String },
    Accepted { username: String },
    Update,
    Hangup { username: String, reason: String },
}

/// An event for the peer, with the JSEP that goes with it.
#[derive(Clone, Debug)]
pub struct PeerNotice {
    pub target: PluginSession,
    pub event: CallEvent,
    pub jsep: Option<Jsep>,
}

/// The plugin session of a handle key.
pub open spec fn session_of(k: HandleKey) -> PluginSession {
    PluginSession { session_id: SessionId(k.session), handle_id: HandleId(k.handle) }
}

fn session_for(k: HandleKey) -> (s: PluginSession)
    ensures
        s == session_of(k),
{
    PluginSession::new(SessionId(k.session), HandleId(k.handle))
}

/// The name entries as plain values.
pub open spec fn name_entries(v: Seq<(String, HandleKey)>) -> Seq<(Seq<char>, HandleKey)> {
    v.map_values(|e: (String, HandleKey)| (e.0@, e.1))
}

/// `r` is an error reply with `code` and `reason`.
pub open spec fn is_error(r: VideoCallReply, code: u32, reason: Seq<char>) -> bool {
    r matches VideoCallReply::Error { code: c, reason: m } && c == code && m@ == reason
}

/// A name of `s`, or the empty string.
pub open spec fn name_or_empty(s: VideoCallSession) -> Seq<char> {
    match s.username {
        Some(u) => u@,
        None => Seq::empty(),
    }
}

/// The state of a participant without a call.
pub open spec fn unlinked(s: VideoCallSession) -> VideoCallSession {
    VideoCallSession { peer: None, ..s }
}

/// The state of a participant in a call with `p`.
pub open spec fn linked(s: VideoCallSession, p: HandleKey) -> VideoCallSession {
    VideoCallSession { peer: Some(p), ..s }
}

/// `m` with the participant under `k`, if any, changed by `f`.
pub open spec fn update_at(m: Map<HandleKey, VideoCallSession>, k: HandleKey, f: spec_fn(VideoCallSession) -> VideoCallSession) -> Map<HandleKey, VideoCallSession> {
    if m.contains_key(k) { m.insert(k, f(m[k])) } else { m }
}

/// The state after a `set` request.
pub open spec fn after_set(s: VideoCallSession, req: VideoCallRequest) -> VideoCallSession {
    VideoCallSession {
        audio_active: if let Some(a) = req.audio { a } else { s.audio_active },
        video_active: if let Some(v) = req.video { v } else { s.video_active },
        bitrate: if let Some(b) = req.bitrate { b } else { s.bitrate },
        ..s
    }
}

/// The requests the plugin knows.
pub open spec fn is_videocall_request(q: Seq<char>) -> bool {
    q == "register"@ || q == "list"@ || q == "call"@ || q == "accept"@ || q == "set"@ || q == "hangup"@
}

/// Nothing changed.
pub open spec fn unchanged(a: VideoCallState, b: VideoCallState) -> bool {
    b.parts() == a.parts() && b.names() == a.names() && b.name_order() == a.name_order()
}

/// The handle under `k` has registered a name.
pub open spec fn registered(parts: Map<HandleKey, VideoCallSession>, k: HandleKey) -> bool {
    parts.contains_key(k) && parts[k].username is Some
}

/// The reason of a missing username.
pub open spec fn missing_username() -> Seq<char> {
    "Missing mandatory element (username)"@
}

/// `u` is absent or empty.
pub open spec fn no_name(u: Option<String>) -> bool {
    u is None || u.unwrap()@.len() == 0
}

/// An answer refused with an error and no change.
pub open spec fn refused(old: VideoCallState, new: VideoCallState, out: (VideoCallReply, Option<PeerNotice>), code: u32, reason: Seq<char>) -> bool {
    is_error(out.0, code, reason) && out.1 is None && unchanged(old, new)
}

/// `register`.
pub open spec fn register_post(old: VideoCallState, new: VideoCallState, k: HandleKey, req: VideoCallRequest, out: (VideoCallReply, Option<PeerNotice>)) -> bool {
    let parts = old.parts();
    if no_name(req.username) {
        refused(old, new, out, 475, missing_username())
    } else if registered(parts, k) {
        refused(old, new, out, 477, "Already registered a username"@)
    } else if old.names().contains_key(req.username.unwrap()@) {
        refused(old, new, out, 476, "Username '"@ + req.username.unwrap()@ + "' already taken"@)
    } else {
        &&& out.0 == (VideoCallReply::Registered { username: req.username.unwrap() })
        &&& out.1 is None
        &&& if parts.contains_key(k) {
            &&& new.parts() == parts.insert(k, VideoCallSession { username: req.username, ..parts[k] })
            &&& new.names() == old.names().insert(req.username.unwrap()@, k)
            &&& new.name_order() == old.name_order().push(req.username.unwrap()@)
        } else {
            unchanged(old, new)
        }
    }
}

/// `call`.
pub open spec fn call_post(old: VideoCallState, new: VideoCallState, k: HandleKey, req: VideoCallRequest, jsep: Option<Jsep>, out: (VideoCallReply, Option<PeerNotice>)) -> bool {
    let parts = old.parts();
    if !registered(parts, k) {
        refused(old, new, out, 473, "Register a username first"@)
    } else if parts[k].peer is Some {
        refused(old, new, out, 480, "Already in a call"@)
    } else if !(jsep matches Some(j) && j.jsep_type == JsepType::Offer) {
        refused(old, new, out, 482, "Missing SDP offer"@)
    } else if no_name(req.username) {
        refused(old, new, out, 475, missing_username())
    } else if !old.names().contains_key(req.username.unwrap()@) {
        refused(old, new, out, 478, "No such user '"@ + req.username.unwrap()@ + "'"@)
    } else {
        let pk = old.names()[req.username.unwrap()@];
        if parts.contains_key(pk) && parts[pk].peer is Some {
            refused(old, new, out, 480, "User '"@ + req.username.unwrap()@ + "' busy"@)
        } else {
            &&& new.parts() == update_at(update_at(parts, k, |s: VideoCallSession| linked(s, pk)), pk, |s: VideoCallSession| linked(s, k))
            &&& new.names() == old.names() && new.name_order() == old.name_order()
            &&& out.0 is Calling
            &&& out.1 == Some(PeerNotice {
                target: session_of(pk),
                event: CallEvent::IncomingCall { username: parts[k].username.unwrap() },
                jsep,
            })
        }
    }
}

/// `accept`.
pub open spec fn accept_post(old: VideoCallState, new: VideoCallState, k: HandleKey, jsep: Option<Jsep>, out: (VideoCallReply, Option<PeerNotice>)) -> bool {
    let parts = old.parts();
    if !registered(parts, k) {
        refused(old, new, out, 473, "Register a username first"@)
    } else if parts[k].peer is None {
        refused(old, new, out, 481, "No incoming call to accept"@)
    } else if !(jsep matches Some(j) && j.jsep_type == JsepType::Answer) {
        refused(old, new, out, 482, "Missing SDP answer"@)
    } else {
        &&& unchanged(old, new)
        &&& out.0 == (VideoCallReply::Accepted { username: parts[k].username.unwrap() })
        &&& out.1 == Some(PeerNotice {
            target: session_of(parts[k].peer.unwrap()),
            event: CallEvent::Accepted { username: parts[k].username.unwrap() },
            jsep,
        })
    }
}

/// `set`.
pub open spec fn set_post(old: VideoCallState, new: VideoCallState, k: HandleKey, req: VideoCallRequest, jsep: Option<Jsep>, out: (VideoCallReply, Option<PeerNotice>)) -> bool {
    let parts = new.parts();
    &&& new.parts() == update_at(old.parts(), k, |s: VideoCallSession| after_set(s, req))
    &&& new.names() == old.names() && new.name_order() == old.name_order()
    &&& out.0 is SetDone
    &&& out.1 == (if jsep is Some && parts.contains_key(k) && parts[k].peer is Some {
        Some(PeerNotice { target: session_of(parts[k].peer.unwrap()), event: CallEvent::Update, jsep })
    } else {
        None
    })
}

/// `e` is a hang-up by `u` for `reason`.
pub open spec fn is_hangup_event(e: CallEvent, u: String, reason: Seq<char>) -> bool {
    e matches CallEvent::Hangup { username, reason: r } && username == u && r@ == reason
}

/// `e` is a hang-up by the user named `name` for `reason`.
pub open spec fn is_hangup_text(e: CallEvent, name: Seq<char>, reason: Seq<char>) -> bool {
    e matches CallEvent::Hangup { username, reason: r } && username@ == name && r@ == reason
}

/// The reason given for a hang-up the user asked for.
pub open spec fn hangup_reason() -> Seq<char> {
    "We did the location location"@
}

/// `hangup`.
pub open spec fn hangup_post(old: VideoCallState, new: VideoCallState, k: HandleKey, out: (VideoCallReply, Option<PeerNotice>)) -> bool {
    let parts = old.parts();
    if !registered(parts, k) {
        refused(old, new, out, 473, "Register a username first"@)
    } else if parts[k].peer is None {
        refused(old, new, out, 481, "No active call to hang up"@)
    } else {
        let pk = parts[k].peer.unwrap();
        let u = parts[k].username.unwrap();
        &&& new.parts() == update_at(update_at(parts, k, |s: VideoCallSession| unlinked(s)), pk, |s: VideoCallSession| unlinked(s))
        &&& new.names() == old.names() && new.name_order() == old.name_order()
        &&& out.0 matches VideoCallReply::Hangup { username, reason } && username == u && reason@ == hangup_reason()
        &&& out.1 matches Some(n) && n.target == session_of(pk) && n.jsep is None && is_hangup_event(n.event, u, hangup_reason())
    }
}

/// An error result.
fn error_reply(code: u32, reason: String) -> (r: VideoCallReply)
    ensures
        r == (VideoCallReply::Error { code, reason }),
{
    VideoCallReply::Error { code, reason }
}

proof fn lemma_videocall_requests_distinct()
    ensures
        "register"@ != "list"@, "register"@ != "call"@, "register"@ != "accept"@, "register"@ != "set"@,
        "register"@ != "hangup"@,
        "list"@ != "call"@, "list"@ != "accept"@, "list"@ != "set"@, "list"@ != "hangup"@,
        "call"@ != "accept"@, "call"@ != "set"@, "call"@ != "hangup"@,
        "accept"@ != "set"@, "accept"@ != "hangup"@,
        "set"@ != "hangup"@,
{
    reveal_strlit("register");
    reveal_strlit("list");
    reveal_strlit("call");
    reveal_strlit("accept");
    reveal_strlit("set");
    reveal_strlit("hangup");
    assert("register"@.len() == 8 && "list"@.len() == 4 && "call"@.len() == 4);
    assert("accept"@.len() == 6 && "set"@.len() == 3 && "hangup"@.len() == 6);
    assert("list"@[0] != "call"@[0]);
    assert("accept"@[0] != "hangup"@[0]);
}

/// What a request does: the post-condition of `handle_request`.
pub open spec fn request_post(old: VideoCallState, new: VideoCallState, session: PluginSession, req: VideoCallRequest, jsep: Option<Jsep>, out: (VideoCallReply, Option<PeerNotice>)) -> bool {
    let q = match req.request { Some(r) => r@, None => Seq::<char>::empty() };
    let k = key_of(session);
    &&& q == "register"@ ==> register_post(old, new, k, req, out)
    &&& q == "list"@ ==> unchanged(old, new) && out.1 is None
        && (out.0 matches VideoCallReply::List { list } && list@.map_values(|s: String| s@) == old.name_order())
    &&& q == "call"@ ==> call_post(old, new, k, req, jsep, out)
    &&& q == "accept"@ ==> accept_post(old, new, k, jsep, out)
    &&& q == "set"@ ==> set_post(old, new, k, req, jsep, out)
    &&& q == "hangup"@ ==> hangup_post(old, new, k, out)
    &&& !is_videocall_request(q) ==> refused(old, new, out, 474, "Unknown request '"@ + q + "'"@)
}

/// What destroying a handle's session does: the post-condition of `destroy_session`.
pub open spec fn destroy_post(old: VideoCallState, new: VideoCallState, session: PluginSession, notice: Option<PeerNotice>) -> bool {
    let k = key_of(session);
    let parts = old.parts();
    if !parts.contains_key(k) {
        unchanged(old, new) && notice is None
    } else {
        let s = parts[k];
        &&& new.names() == (if s.username is Some { old.names().remove(s.username.unwrap()@) } else { old.names() })
        &&& match s.peer {
            None => new.parts() == parts.remove(k) && notice is None,
            Some(pk) => {
                &&& new.parts() == update_at(parts.remove(k), pk, |t: VideoCallSession| unlinked(t))
                &&& notice matches Some(n) && n.target == session_of(pk) && n.jsep is None
                    && is_hangup_text(n.event, name_or_empty(s), "User disconnected"@)
            },
        }
    }
}

/// What a media hang-up does: the post-condition of `hangup_media`.
pub open spec fn media_hangup_post(old: VideoCallState, new: VideoCallState, session: PluginSession, reason: Seq<char>, notice: Option<PeerNotice>) -> bool {
    let k = key_of(session);
    let parts = old.parts();
    if parts.contains_key(k) && parts[k].peer is Some {
        let pk = parts[k].peer.unwrap();
        &&& new.parts() == update_at(update_at(parts, k, |t: VideoCallSession| unlinked(t)), pk, |t: VideoCallSession| unlinked(t))
        &&& notice matches Some(n) && n.target == session_of(pk) && n.jsep is None
            && is_hangup_text(n.event, name_or_empty(parts[k]), reason)
    } else {
        new.parts() == parts && notice is None
    }
}

/// The plugin's state: each handle's participant record and the registered
/// usernames.
#[derive(Debug)]
pub struct VideoCallState {
    sessions: Table<HandleKey, VideoCallSession>,
    usernames: Vec<(String, HandleKey)>,
}

impl VideoCallState {
    /// The plugin's name, package, version, description and author.
    pub fn info() -> (i: PluginInfo)
        ensures
            info_is(i, "Janus VideoCall plugin"@, "janus.plugin.videocall"@, 1, "0.1.0"@, "Peer-to-peer video calls between WebRTC users."@, "Janus Rust Contributors"@),
    {
        PluginInfo {
            name: "Janus VideoCall plugin",
            package: "janus.plugin.videocall",
            version: 1,
            version_string: "0.1.0",
            description: "Peer-to-peer video calls between WebRTC users.",
            author: "Janus Rust Contributors",
        }
    }

    pub closed spec fn parts(&self) -> Map<HandleKey, VideoCallSession> {
        self.sessions@
    }

    /// The registered usernames and their handles.
    pub closed spec fn names(&self) -> Map<Seq<char>, HandleKey> {
        entries_map(name_entries(self.usernames@))
    }

    /// The registered usernames in the order they registered.
    pub closed spec fn name_order(&self) -> Seq<Seq<char>> {
        key_seq(name_entries(self.usernames@))
    }

    pub closed spec fn wf(&self) -> bool {
        self.sessions.wf() && unique_keys(name_entries(self.usernames@))
    }

    /// No participants.
    pub fn new() -> (s: Self)
        ensures
            s.wf(),
            s.parts() == Map::<HandleKey, VideoCallSession>::empty(),
            s.names() == Map::<Seq<char>, HandleKey>::empty(),
            consistent(s.parts(), s.names()),
    {
        let s = VideoCallState { sessions: Table::new(), usernames: Vec::new() };
        assert(name_entries(s.usernames@) =~= Seq::<(Seq<char>, HandleKey)>::empty());
        assert(s.names() =~= Map::<Seq<char>, HandleKey>::empty());
        s
    }

    /// Forgets everything, as the plugin does when it is destroyed.
    pub fn clear(&mut self)
        ensures
            final(self).wf(),
            final(self).parts() == Map::<HandleKey, VideoCallSession>::empty(),
            final(self).names() == Map::<Seq<char>, HandleKey>::empty(),
    {
        *self = Self::new();
    }

    /// The handle registered under `name`.
    fn find_name(&self, name: &str) -> (r: Option<usize>)
        requires
            self.wf(),
        ensures
            r is None <==> !self.names().contains_key(name@),
            r matches Some(i) ==> i < self.usernames@.len() && self.usernames@[i as int].0@ == name@
                && self.names()[name@] == self.usernames@[i as int].1,
    {
        let mut i: usize = 0;
        while i < self.usernames.len()
            invariant
                self.wf(),
                i <= self.usernames@.len(),
                forall|j: int| 0 <= j < i ==> self.usernames@[j].0@ != name@,
            decreases self.usernames@.len() - i,
        {
            if str_eq(self.usernames[i].0.as_str(), name) {
                proof {
                    crate::idmap::lemma_entries_map_at(name_entries(self.usernames@), i as int);
                }
                return Some(i);
            }
            i = i + 1;
        }
        proof {
            if has_key(name_entries(self.usernames@), name@) {
                let j = choose|j: int| 0 <= j < name_entries(self.usernames@).len() && name_entries(self.usernames@)[j].0 == name@;
                assert(self.usernames@[j].0@ == name@);
            }
        }
        None
    }

    /// Registers `name` for `k`; the name must be free.
    fn add_name(&mut self, name: String, k: HandleKey)
        requires
            old(self).wf(),
            !old(self).names().contains_key(name@),
        ensures
            final(self).wf(),
            final(self).parts() == old(self).parts(),
            final(self).names() == old(self).names().insert(name@, k),
            final(self).name_order() == old(self).name_order().push(name@),
    {
        let ghost n = name@;
        proof {
            crate::idmap::lemma_entries_map_push(name_entries(self.usernames@), n, k);
        }
        self.usernames.push((name, k));
        proof {
            assert(name_entries(self.usernames@) =~= name_entries(old(self).usernames@).push((n, k)));
            assert(self.name_order() =~= old(self).name_order().push(n));
        }
    }

    /// Unregisters `name`, if it is registered.
    fn drop_name(&mut self, name: &str)
        requires
            old(self).wf(),
        ensures
            final(self).wf(),
            final(self).parts() == old(self).parts(),
            final(self).names() == old(self).names().remove(name@),
    {
        match self.find_name(name) {
            Some(i) => {
                proof {
                    crate::idmap::lemma_entries_map_remove(name_entries(self.usernames@), i as int);
                }
                let ghost before = self.usernames@;
                self.usernames.remove(i);
                proof {
                    assert(name_entries(self.usernames@) =~= name_entries(before).remove(i as int));
                }
            },
            None => {
                assert(old(self).names().remove(name@) =~= old(self).names());
            },
        }
    }

    /// The registered usernames.
    fn name_list(&self) -> (r: Vec<String>)
        ensures
            r@.map_values(|s: String| s@) == self.name_order(),
    {
        let mut out: Vec<String> = Vec::new();
        let mut i: usize = 0;
        while i < self.usernames.len()
            invariant
                i <= self.usernames@.len(),
                out@.map_values(|s: String| s@) == self.name_order().take(i as int),
            decreases self.usernames@.len() - i,
        {
            let c = self.usernames[i].0.clone();
            let ghost out0 = out@;
            out.push(c);
            proof {
                assert(out@ =~= out0.push(c));
                assert(self.name_order().take(i + 1) =~= self.name_order().take(i as int).push(c@));
                assert(out@.map_values(|s: String| s@) =~= out0.map_values(|s: String| s@).push(c@));
            }
            i = i + 1;
        }
        proof {
            assert(self.name_order().take(i as int) =~= self.name_order());
        }
        out
    }

    /// A copy of the record of a participant.
    fn copy_part(s: &VideoCallSession) -> (c: VideoCallSession)
        ensures
            c == *s,
    {
        VideoCallSession {
            username: crate::text::clone_opt_string(&s.username),
            peer: s.peer,
            audio_active: s.audio_active,
            video_active: s.video_active,
            bitrate: s.bitrate,
        }
    }

    /// Sets the peer of the participant under `k`, if there is one.
    fn set_peer(&mut self, k: HandleKey, p: Option<HandleKey>)
        requires
            old(self).wf(),
        ensures
            final(self).wf(),
            final(self).names() == old(self).names(),
            final(self).name_order() == old(self).name_order(),
            final(self).parts() == update_at(old(self).parts(), k, |s: VideoCallSession| VideoCallSession { peer: p, ..s }),
    {
        let next = match self.sessions.get(&k) {
            Some(s) => {
                let mut c = Self::copy_part(s);
                c.peer = p;
                Some(c)
            },
            None => None,
        };
        if let Some(c) = next {
            self.sessions.insert(k, c);
        }
    }

    /// The registered name of the handle under `k`, if it has one.
    fn name_of(&self, k: HandleKey) -> (r: Option<String>)
        requires
            self.wf(),
        ensures
            registered(self.parts(), k) ==> r == self.parts()[k].username,
            !registered(self.parts(), k) ==> r is None,
    {
        match self.sessions.get(&k) {
            Some(s) => crate::text::clone_opt_string(&s.username),
            None => None,
        }
    }

    /// The peer of the handle under `k`, if it is in a call.
    fn peer_of(&self, k: HandleKey) -> (r: Option<HandleKey>)
        requires
            self.wf(),
        ensures
            self.parts().contains_key(k) ==> r == self.parts()[k].peer,
            !self.parts().contains_key(k) ==> r is None,
    {
        match self.sessions.get(&k) {
            Some(s) => s.peer,
            None => None,
        }
    }

    fn register(&mut self, k: HandleKey, req: &VideoCallRequest) -> (out: (VideoCallReply, Option<PeerNotice>))
        requires
            old(self).wf(),
        ensures
            final(self).wf(),
            register_post(*old(self), *final(self), k, *req, out),
    {
        let username = match &req.username {
            Some(u) => {
                if u.unicode_len() == 0 {
                    return (error_reply(475, "Missing mandatory element (username)".to_owned()), None);
                }
                u.clone()
            },
            None => { return (error_reply(475, "Missing mandatory element (username)".to_owned()), None); },
        };
        if self.name_of(k).is_some() {
            return (error_reply(477, "Already registered a username".to_owned()), None);
        }
        if self.find_name(username.as_str()).is_some() {
            let m = "Username '".to_owned().concat(username.as_str()).concat("' already taken");
            return (error_reply(476, m), None);
        }
        let next = match self.sessions.get(&k) {
            Some(s) => {
                let mut c = Self::copy_part(s);
                c.username = Some(username.clone());
                Some(c)
            },
            None => None,
        };
        if let Some(c) = next {
            self.sessions.insert(k, c);
            self.add_name(username.clone(), k);
        }
        (VideoCallReply::Registered { username }, None)
    }

    fn call(&mut self, k: HandleKey, req: &VideoCallRequest, jsep: Option<Jsep>) -> (out: (VideoCallReply, Option<PeerNotice>))
        requires
            old(self).wf(),
        ensures
            final(self).wf(),
            call_post(*old(self), *final(self), k, *req, jsep, out),
    {
        let caller = match self.name_of(k) {
            Some(u) => u,
            None => { return (error_reply(473, "Register a username first".to_owned()), None); },
        };
        if self.peer_of(k).is_some() {
            return (error_reply(480, "Already in a call".to_owned()), None);
        }
        let is_offer = match &jsep {
            Some(j) => j.jsep_type == JsepType::Offer,
            None => false,
        };
        if !is_offer {
            return (error_reply(482, "Missing SDP offer".to_owned()), None);
        }
        let peer_name: &str = match &req.username {
            Some(u) => {
                if u.unicode_len() == 0 {
                    return (error_reply(475, "Missing mandatory element (username)".to_owned()), None);
                }
                u.as_str()
            },
            None => { return (error_reply(475, "Missing mandatory element (username)".to_owned()), None); },
        };
        let pk = match self.find_name(peer_name) {
            Some(i) => self.usernames[i].1,
            None => {
                let m = "No such user '".to_owned().concat(peer_name).concat("'");
                return (error_reply(478, m), None);
            },
        };
        if self.peer_of(pk).is_some() {
            let m = "User '".to_owned().concat(peer_name).concat("' busy");
            return (error_reply(480, m), None);
        }
        let ghost p0 = self.parts();
        self.set_peer(k, Some(pk));
        proof {
            assert(self.parts() =~= update_at(p0, k, |s: VideoCallSession| linked(s, pk)));
        }
        let ghost p1 = self.parts();
        self.set_peer(pk, Some(k));
        proof {
            assert(self.parts() =~= update_at(p1, pk, |s: VideoCallSession| linked(s, k)));
        }
        (VideoCallReply::Calling, Some(PeerNotice { target: session_for(pk), event: CallEvent::IncomingCall { username: caller }, jsep }))
    }

    fn accept(&mut self, k: HandleKey, jsep: Option<Jsep>) -> (out: (VideoCallReply, Option<PeerNotice>))
        requires
            old(self).wf(),
        ensures
            final(self).wf(),
            accept_post(*old(self), *final(self), k, jsep, out),
    {
        let username = match self.name_of(k) {
            Some(u) => u,
            None => { return (error_reply(473, "Register a username first".to_owned()), None); },
        };
        let pk = match self.peer_of(k) {
            Some(p) => p,
            None => { return (error_reply(481, "No incoming call to accept".to_owned()), None); },
        };
        let is_answer = match &jsep {
            Some(j) => j.jsep_type == JsepType::Answer,
            None => false,
        };
        if !is_answer {
            return (error_reply(482, "Missing SDP answer".to_owned()), None);
        }
        let u2 = username.clone();
        (VideoCallReply::Accepted { username }, Some(PeerNotice { target: session_for(pk), event: CallEvent::Accepted { username: u2 }, jsep }))
    }

    fn set(&mut self, k: HandleKey, req: &VideoCallRequest, jsep: Option<Jsep>) -> (out: (VideoCallReply, Option<PeerNotice>))
        requires
            old(self).wf(),
        ensures
            final(self).wf(),
            set_post(*old(self), *final(self), k, *req, jsep, out),
    {
        let next = match self.sessions.get(&k) {
            Some(s) => {
                let mut c = Self::copy_part(s);
                if let Some(a) = req.audio {
                    c.audio_active = a;
                }
                if let Some(v) = req.video {
                    c.video_active = v;
                }
                if let Some(b) = req.bitrate {
                    c.bitrate = b;
                }
                Some(c)
            },
            None => None,
        };
        if let Some(c) = next {
            self.sessions.insert(k, c);
        }
        proof {
            assert(self.parts() =~= update_at(old(self).parts(), k, |s: VideoCallSession| after_set(s, *req)));
        }
        if jsep.is_some() {
            if let Some(p) = self.peer_of(k) {
                return (VideoCallReply::SetDone, Some(PeerNotice { target: session_for(p), event: CallEvent::Update, jsep }));
            }
        }
        (VideoCallReply::SetDone, None)
    }

    fn hangup(&mut self, k: HandleKey) -> (out: (VideoCallReply, Option<PeerNotice>))
        requires
            old(self).wf(),
        ensures
            final(self).wf(),
            hangup_post(*old(self), *final(self), k, out),
    {
        let username = match self.name_of(k) {
            Some(u) => u,
            None => { return (error_reply(473, "Register a username first".to_owned()), None); },
        };
        let pk = match self.peer_of(k) {
            Some(p) => p,
            None => { return (error_reply(481, "No active call to hang up".to_owned()), None); },
        };
        let ghost p0 = self.parts();
        self.set_peer(k, None);
        proof {
            assert(self.parts() =~= update_at(p0, k, |s: VideoCallSession| unlinked(s)));
        }
        let ghost p1 = self.parts();
        self.set_peer(pk, None);
        proof {
            assert(self.parts() =~= update_at(p1, pk, |s: VideoCallSession| unlinked(s)));
        }
        let u2 = username.clone();
        (
            VideoCallReply::Hangup { username, reason: "We did the location location".to_owned() },
            Some(PeerNotice {
                target: session_for(pk),
                event: CallEvent::Hangup { username: u2, reason: "We did the location location".to_owned() },
                jsep: None,
            }),
        )
    }

    /// Handles a videocall request from handle `session`, with the JSEP that
    /// came with it. Returns the result and the event for the peer, if any.
    pub fn handle_request(&mut self, session: &PluginSession, req: &VideoCallRequest, jsep: Option<Jsep>)
        -> (out: (VideoCallReply, Option<PeerNotice>))
        requires
            old(self).wf(),
        ensures
            final(self).wf(),
            request_post(*old(self), *final(self), *session, *req, jsep, out),
    {
        let k = handle_key(session);
        let q: &str = match &req.request { Some(r) => r.as_str(), None => "" };
        proof {
            lemma_videocall_requests_distinct();
            reveal_strlit("");
            assert(""@ =~= Seq::<char>::empty());
        }
        if str_eq(q, "register") {
            return self.register(k, req);
        }
        if str_eq(q, "list") {
            return (VideoCallReply::List { list: self.name_list() }, None);
        }
        if str_eq(q, "call") {
            return self.call(k, req, jsep);
        }
        if str_eq(q, "accept") {
            return self.accept(k, jsep);
        }
        if str_eq(q, "set") {
            return self.set(k, req, jsep);
        }
        if str_eq(q, "hangup") {
            return self.hangup(k);
        }
        let m = "Unknown request '".to_owned().concat(q).concat("'");
        (error_reply(474, m), None)
    }

    /// A handle goes away: its record and name are dropped; if it was in a
    /// call, the peer leaves the call and is told the user disconnected.
    pub fn destroy_session(&mut self, session: &PluginSession) -> (notice: Option<PeerNotice>)
        requires
            old(self).wf(),
        ensures
            final(self).wf(),
            destroy_post(*old(self), *final(self), *session, notice),
    {
        let k = handle_key(session);
        let s = match self.sessions.remove(&k) {
            Some(s) => s,
            None => {
                return None;
            },
        };
        if let Some(u) = &s.username {
            self.drop_name(u.as_str());
        }
        match s.peer {
            None => None,
            Some(pk) => {
                let ghost p0 = self.parts();
                self.set_peer(pk, None);
                proof {
                    assert(self.parts() =~= update_at(p0, pk, |t: VideoCallSession| unlinked(t)));
                }
                let name = match s.username { Some(u) => u, None => String::new() };
                Some(PeerNotice {
                    target: session_for(pk),
                    event: CallEvent::Hangup { username: name, reason: "User disconnected".to_owned() },
                    jsep: None,
                })
            },
        }
    }

    /// The media path of a handle went down: if it is in a call, both leave
    /// it and the peer is told, with `reason`.
    pub fn hangup_media(&mut self, session: &PluginSession, reason: &str) -> (notice: Option<PeerNotice>)
        requires
            old(self).wf(),
        ensures
            final(self).wf(),
            final(self).names() == old(self).names(),
            media_hangup_post(*old(self), *final(self), *session, reason@, notice),
    {
        let k = handle_key(session);
        let (pk, name) = match self.sessions.get(&k) {
            Some(s) => match s.peer {
                Some(p) => (p, match &s.username { Some(u) => u.clone(), None => String::new() }),
                None => { return None; },
            },
            None => { return None; },
        };
        let ghost p0 = self.parts();
        self.set_peer(k, None);
        proof {
            assert(self.parts() =~= update_at(p0, k, |t: VideoCallSession| unlinked(t)));
        }
        let ghost p1 = self.parts();
        self.set_peer(pk, None);
        proof {
            assert(self.parts() =~= update_at(p1, pk, |t: VideoCallSession| unlinked(t)));
        }
        Some(PeerNotice {
            target: session_for(pk),
            event: CallEvent::Hangup { username: name, reason: reason.to_owned() },
            jsep: None,
        })
    }

    /// A new handle: no name, no call, audio and video on, no cap.
    pub fn create_session(&mut self, session: &PluginSession)
        requires
            old(self).wf(),
        ensures
            final(self).wf(),
            final(self).names() == old(self).names(),
            final(self).parts() == old(self).parts().insert(
                key_of(*session),
                VideoCallSession { username: None, peer: None, audio_active: true, video_active: true, bitrate: 0 },
            ),
    {
        self.sessions.insert(
            handle_key(session),
            VideoCallSession { username: None, peer: None, audio_active: true, video_active: true, bitrate: 0 },
        );
    }

    /// The record of a handle, if it has one.
    pub fn query_session(&self, session: &PluginSession) -> (r: Option<VideoCallSession>)
        requires
            self.wf(),
        ensures
            self.parts().contains_key(key_of(*session)) ==> r == Some(self.parts()[key_of(*session)]),
            !self.parts().contains_key(key_of(*session)) ==> r is None,
    {
        match self.sessions.get(&handle_key(session)) {
            Some(s) => Some(Self::copy_part(s)),
            None => None,
        }
    }

    /// Where media from `session` goes: to its peer, if it is in a call and
    /// the media kind (video or audio) is active; RTCP (`rtcp`) always goes
    /// to the peer.
    pub fn relay_target(&self, session: &PluginSession, video: bool, rtcp: bool) -> (t: Option<PluginSession>)
        requires
            self.wf(),
        ensures
            t == (if self.parts().contains_key(key_of(*session)) {
                let s = self.parts()[key_of(*session)];
                if rtcp || (if video { s.video_active } else { s.audio_active }) {
                    match s.peer {
                        Some(p) => Some(session_of(p)),
                        None => None,
                    }
                } else {
                    None
                }
            } else {
                None
            }),
    {
        match self.sessions.get(&handle_key(session)) {
            Some(s) => {
                let enabled = rtcp || (if video { s.video_active } else { s.audio_active });
                if enabled {
                    match s.peer {
                        Some(p) => Some(session_for(p)),
                        None => None,
                    }
                } else {
                    None
                }
            },
            None => None,
        }
    }
}

/// The state's consistency: two participants in a call point at each other,
/// and each registered name belongs to a participant that has that name.
pub open spec fn consistent(parts: Map<HandleKey, VideoCallSession>, names: Map<Seq<char>, HandleKey>) -> bool {
    &&& forall|k: HandleKey| #[trigger] parts.contains_key(k) && parts[k].peer is Some ==> {
        let p = parts[k].peer.unwrap();
        parts.contains_key(p) && parts[p].peer == Some(k)
    }
    &&& forall|n: Seq<char>| #[trigger] names.contains_key(n) ==> {
        let j = names[n];
        parts.contains_key(j) && parts[j].username is Some && parts[j].username.unwrap()@ == n
    }
}

/// Every request keeps the state consistent.
pub proof fn lemma_request_keeps_consistency(
    a: VideoCallState,
    b: VideoCallState,
    session: PluginSession,
    req: VideoCallRequest,
    jsep: Option<Jsep>,
    out: (VideoCallReply, Option<PeerNotice>),
)
    requires
        consistent(a.parts(), a.names()),
        request_post(a, b, session, req, jsep, out),
    ensures
        consistent(b.parts(), b.names()),
{
    lemma_videocall_requests_distinct();
    let q = match req.request { Some(r) => r@, None => Seq::<char>::empty() };
    let k = key_of(session);
    let parts = a.parts();
    let names = a.names();
    if q == "register"@ {
        if !no_name(req.username) && !registered(parts, k) && !names.contains_key(req.username.unwrap()@) && parts.contains_key(k) {
            let np = b.parts();
            let u = req.username.unwrap()@;
            assert forall|j: HandleKey| #[trigger] np.contains_key(j) && np[j].peer is Some implies
                np.contains_key(np[j].peer.unwrap()) && np[np[j].peer.unwrap()].peer == Some(j) by {
                assert(parts.contains_key(j) && parts[j].peer == np[j].peer);
                let p = parts[j].peer.unwrap();
                assert(parts.contains_key(p) && parts[p].peer == Some(j));
            }
            assert forall|n: Seq<char>| #[trigger] b.names().contains_key(n) implies
                np.contains_key(b.names()[n]) && np[b.names()[n]].username is Some && np[b.names()[n]].username.unwrap()@ == n by {
                if n != u {
                    let j = names[n];
                    assert(names.contains_key(n));
                    if j == k {
                        assert(parts[k].username is Some);
                        assert(false);
                    }
                }
            }
        }
    } else if q == "call"@ {
        if registered(parts, k) && parts[k].peer is None && (jsep matches Some(j) && j.jsep_type == JsepType::Offer)
            && !no_name(req.username) && names.contains_key(req.username.unwrap()@) {
            let pk = names[req.username.unwrap()@];
            assert(parts.contains_key(pk));
            if !(parts[pk].peer is Some) {
                let np = b.parts();
                assert forall|j: HandleKey| #[trigger] np.contains_key(j) && np[j].peer is Some implies
                    np.contains_key(np[j].peer.unwrap()) && np[np[j].peer.unwrap()].peer == Some(j) by {
                    if j != k && j != pk {
                        assert(np[j] == parts[j]);
                        let p = parts[j].peer.unwrap();
                        assert(parts.contains_key(p) && parts[p].peer == Some(j));
                        assert(p != k);
                        assert(p != pk);
                    }
                }
                assert forall|n: Seq<char>| #[trigger] b.names().contains_key(n) implies
                    np.contains_key(b.names()[n]) && np[b.names()[n]].username is Some && np[b.names()[n]].username.unwrap()@ == n by {
                    assert(names.contains_key(n));
                }
            }
        }
    } else if q == "set"@ {
        let np = b.parts();
        assert forall|j: HandleKey| #[trigger] np.contains_key(j) && np[j].peer is Some implies
            np.contains_key(np[j].peer.unwrap()) && np[np[j].peer.unwrap()].peer == Some(j) by {
            assert(parts.contains_key(j) && parts[j].peer == np[j].peer);
        }
        assert forall|n: Seq<char>| #[trigger] b.names().contains_key(n) implies
            np.contains_key(b.names()[n]) && np[b.names()[n]].username is Some && np[b.names()[n]].username.unwrap()@ == n by {
            assert(names.contains_key(n));
        }
    } else if q == "hangup"@ {
        if registered(parts, k) && parts[k].peer is Some {
            let pk = parts[k].peer.unwrap();
            assert(parts.contains_key(pk) && parts[pk].peer == Some(k));
            let np = b.parts();
            assert forall|j: HandleKey| #[trigger] np.contains_key(j) && np[j].peer is Some implies
                np.contains_key(np[j].peer.unwrap()) && np[np[j].peer.unwrap()].peer == Some(j) by {
                assert(j != k && j != pk);
                assert(np[j] == parts[j]);
                let p = parts[j].peer.unwrap();
                assert(parts.contains_key(p) && parts[p].peer == Some(j));
            }
            assert forall|n: Seq<char>| #[trigger] b.names().contains_key(n) implies
                np.contains_key(b.names()[n]) && np[b.names()[n]].username is Some && np[b.names()[n]].username.unwrap()@ == n by {
                assert(names.contains_key(n));
            }
        }
    }
}

/// Creating the session of a handle that has none keeps the state
/// consistent.
pub proof fn lemma_create_keeps_consistency(a: VideoCallState, b: VideoCallState, session: PluginSession)
    requires
        consistent(a.parts(), a.names()),
        !a.parts().contains_key(key_of(session)),
        b.names() == a.names(),
        b.parts() == a.parts().insert(
            key_of(session),
            VideoCallSession { username: None, peer: None, audio_active: true, video_active: true, bitrate: 0 },
        ),
    ensures
        consistent(b.parts(), b.names()),
{
    let k = key_of(session);
    let parts = a.parts();
    let np = b.parts();
    assert forall|j: HandleKey| #[trigger] np.contains_key(j) && np[j].peer is Some implies
        np.contains_key(np[j].peer.unwrap()) && np[np[j].peer.unwrap()].peer == Some(j) by {
        assert(j != k);
        let p = parts[j].peer.unwrap();
        assert(parts.contains_key(j) && parts.contains_key(p) && parts[p].peer == Some(j));
    }
    assert forall|n: Seq<char>| #[trigger] b.names().contains_key(n) implies
        np.contains_key(b.names()[n]) && np[b.names()[n]].username is Some && np[b.names()[n]].username.unwrap()@ == n by {
        assert(a.names().contains_key(n));
    }
}

/// Destroying a handle's session keeps the state consistent.
pub proof fn lemma_destroy_keeps_consistency(a: VideoCallState, b: VideoCallState, session: PluginSession, notice: Option<PeerNotice>)
    requires
        consistent(a.parts(), a.names()),
        destroy_post(a, b, session, notice),
    ensures
        consistent(b.parts(), b.names()),
{
    let k = key_of(session);
    let parts = a.parts();
    if parts.contains_key(k) {
        let s = parts[k];
        let np = b.parts();
        assert forall|j: HandleKey| #[trigger] np.contains_key(j) && np[j].peer is Some implies
            np.contains_key(np[j].peer.unwrap()) && np[np[j].peer.unwrap()].peer == Some(j) by {
            assert(j != k);
            if s.peer is Some {
                assert(parts.contains_key(s.peer.unwrap()) && parts[s.peer.unwrap()].peer == Some(k));
                assert(j != s.peer.unwrap());
            }
            assert(np[j] == parts[j]);
            let p = parts[j].peer.unwrap();
            assert(parts.contains_key(p) && parts[p].peer == Some(j));
            assert(p != k);
        }
        assert forall|n: Seq<char>| #[trigger] b.names().contains_key(n) implies
            np.contains_key(b.names()[n]) && np[b.names()[n]].username is Some && np[b.names()[n]].username.unwrap()@ == n by {
            assert(a.names().contains_key(n));
            let j = a.names()[n];
            assert(j != k);
        }
    }
}

/// A media hang-up keeps the state consistent.
pub proof fn lemma_media_hangup_keeps_consistency(
    a: VideoCallState,
    b: VideoCallState,
    session: PluginSession,
    reason: Seq<char>,
    notice: Option<PeerNotice>,
)
    requires
        consistent(a.parts(), a.names()),
        b.names() == a.names(),
        media_hangup_post(a, b, session, reason, notice),
    ensures
        consistent(b.parts(), b.names()),
{
    let k = key_of(session);
    let parts = a.parts();
    if parts.contains_key(k) && parts[k].peer is Some {
        let pk = parts[k].peer.unwrap();
        assert(parts.contains_key(pk) && parts[pk].peer == Some(k));
        let np = b.parts();
        assert forall|j: HandleKey| #[trigger] np.contains_key(j) && np[j].peer is Some implies
            np.contains_key(np[j].peer.unwrap()) && np[np[j].peer.unwrap()].peer == Some(j) by {
            assert(j != k && j != pk);
            assert(np[j] == parts[j]);
            let p = parts[j].peer.unwrap();
            assert(parts.contains_key(p) && parts[p].peer == Some(j));
        }
        assert forall|n: Seq<char>| #[trigger] b.names().contains_key(n) implies
            np.contains_key(b.names()[n]) && np[b.names()[n]].username is Some && np[b.names()[n]].username.unwrap()@ == n by {
            assert(a.names().contains_key(n));
        }
    }
}

} // verus!
