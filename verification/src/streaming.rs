//! Streaming plugin: mountpoints that receive RTP from external sources and
//! the viewers that watch them.
//!
//! `StreamingState::handle_request` holds the plugin's request logic; the
//! reply it returns is what the plugin answers (or, for `watch`, the offer it
//! pushes before answering that it is preparing the stream).
use vstd::prelude::*;
use vstd::string::StringExecFns;
use crate::idmap::{HandleKey, Table, has_key, key_seq};
use crate::plugin_api::{PluginError, is_missing_field, is_plugin_error, is_invalid_request, is_session_not_found};
use crate::text::{decimal, str_eq};
use crate::types::{HandleId, PluginSession, SessionId, session_text, key_of, handle_key};

use crate::plugin_api::{PluginInfo, info_is};

verus! {

/// Unique mountpoint identifier.
pub type MountpointId = u64;

/// Configuration for a streaming mountpoint.
#[derive(Clone, Debug)]
pub struct MountpointConfig {
    pub name: String,
    pub description: String,
    pub is_private: bool,
    pub pin: Option<String>,
    pub secret: Option<String>,
    /// UDP port to receive audio RTP on (0 = disabled).
    pub audio_port: u16,
    /// UDP port to receive video RTP on (0 = disabled).
    pub video_port: u16,
    /// Audio codec (e.g., "opus").
    pub audio_codec: Option<String>,
    /// Video codec (e.g., "vp8").
    pub video_codec: Option<String>,
    /// Audio RTP payload type.
    pub audio_pt: Option<u8>,
    /// Video RTP payload type.
    pub video_pt: Option<u8>,
}

impl Default for MountpointConfig {
    fn default() -> (c: Self)
        ensures
            c.name@ == "Stream"@,
            c.description@ == "Streaming mountpoint"@,
            !c.is_private,
            c.pin is None,
            c.secret is None,
            c.audio_port == 0,
            c.video_port == 0,
            c.audio_codec matches Some(s) && s@ == "opus"@,
            c.video_codec matches Some(s) && s@ == "vp8"@,
            c.audio_pt == Some(111u8),
            c.video_pt == Some(96u8),
    {
        MountpointConfig {
            name: "Stream".to_owned(),
            description: "Streaming mountpoint".to_owned(),
            is_private: false,
            pin: None,
            secret: None,
            audio_port: 0,
            video_port: 0,
            audio_codec: Some("opus".to_owned()),
            video_codec: Some("vp8".to_owned()),
            audio_pt: Some(111),
            video_pt: Some(96),
        }
    }
}

/// Information about a viewer watching a mountpoint.
#[derive(Clone, Copy, Debug)]
pub struct ViewerInfo {
    pub handle_id: HandleId,
    pub paused: bool,
}

/// A streaming mountpoint instance.
#[derive(Debug)]
pub struct Mountpoint {
    pub id: MountpointId,
    pub config: MountpointConfig,
    /// Whether this mountpoint is actively receiving RTP.
    pub active: bool,
    /// Viewer handles currently watching this mountpoint, by handle id.
    pub viewers: Table<u64, ViewerInfo>,
}

/// Well-formedness of a mountpoint stored under key `k`.
pub open spec fn mountpoint_wf(k: u64, m: Mountpoint) -> bool {
    &&& m.id == k
    &&& m.viewers.wf()
    &&& forall|h: u64| #[trigger] m.viewers@.contains_key(h) ==> m.viewers@[h].handle_id.0 == h
}

/// Registry of all mountpoints.
#[derive(Debug)]
pub struct MountpointRegistry {
    mountpoints: Table<u64, Mountpoint>,
    next_id: u64,
}

impl MountpointRegistry {
    /// Mountpoints by id.
    pub closed spec fn map(&self) -> Map<u64, Mountpoint> {
        self.mountpoints@
    }

    /// Ids in the order the mountpoints were stored.
    pub closed spec fn order(&self) -> Seq<u64> {
        key_seq(self.mountpoints.entries())
    }

    /// The next automatically assigned id.
    pub closed spec fn next_auto_id(&self) -> u64 {
        self.next_id
    }

    pub closed spec fn wf(&self) -> bool {
        &&& self.mountpoints.wf()
        &&& forall|k: u64| #[trigger] self.mountpoints@.contains_key(k) ==> mountpoint_wf(k, self.mountpoints@[k])
    }

    /// An empty registry; automatic ids start at 100.
    pub fn new() -> (r: Self)
        ensures
            r.wf(),
            r.map() == Map::<u64, Mountpoint>::empty(),
            r.next_auto_id() == 100,
    {
        MountpointRegistry { mountpoints: Table::new(), next_id: 100 }
    }

    /// Creates a mountpoint with the given id, or the next automatic id, and
    /// returns its id. An existing mountpoint with that id is replaced.
    pub fn create(&mut self, id: Option<MountpointId>, config: MountpointConfig) -> (mp_id: MountpointId)
        requires
            old(self).wf(),
        ensures
            final(self).wf(),
            id matches Some(i) ==> mp_id == i && final(self).next_auto_id() == old(self).next_auto_id(),
            id is None ==> mp_id == old(self).next_auto_id()
                && final(self).next_auto_id() == vstd::wrapping::u64_specs::wrapping_add(old(self).next_auto_id(), 1),
            final(self).map().dom() == old(self).map().dom().insert(mp_id),
            final(self).map()[mp_id].config == config,
            !final(self).map()[mp_id].active,
            final(self).map()[mp_id].viewers@ == Map::<u64, ViewerInfo>::empty(),
            forall|k: u64| k != mp_id && #[trigger] old(self).map().contains_key(k) ==> final(self).map()[k] == old(self).map()[k],
    {
        let mp_id = match id {
            Some(i) => i,
            None => {
                let i = self.next_id;
                self.next_id = self.next_id.wrapping_add(1);
                i
            },
        };
        let mp = Mountpoint { id: mp_id, config, active: false, viewers: Table::new() };
        self.mountpoints.insert(mp_id, mp);
        assert(self.mountpoints@.dom() =~= old(self).mountpoints@.dom().insert(mp_id));
        mp_id
    }

    /// The mountpoint with the given id.
    pub fn get(&self, id: MountpointId) -> (r: Option<&Mountpoint>)
        requires
            self.wf(),
        ensures
            r matches Some(m) ==> self.map().contains_key(id) && *m == self.map()[id],
            r is None ==> !self.map().contains_key(id),
    {
        self.mountpoints.get(&id)
    }

    /// Whether a mountpoint exists.
    pub fn contains(&self, id: MountpointId) -> (b: bool)
        ensures
            b == self.map().contains_key(id),
    {
        self.mountpoints.contains_key(&id)
    }

    /// Removes a mountpoint, returning it.
    pub fn destroy(&mut self, id: MountpointId) -> (r: Option<Mountpoint>)
        requires
            old(self).wf(),
        ensures
            final(self).wf(),
            final(self).map() == old(self).map().remove(id),
            final(self).next_auto_id() == old(self).next_auto_id(),
            r matches Some(m) ==> old(self).map().contains_key(id) && m == old(self).map()[id],
            r is None ==> !old(self).map().contains_key(id) && *final(self) == *old(self),
    {
        self.mountpoints.remove(&id)
    }

    /// The ids of all mountpoints, in the order they were stored.
    pub fn list(&self) -> (ids: Vec<MountpointId>)
        requires
            self.wf(),
        ensures
            ids@ == self.order(),
            ids@.no_duplicates(),
            ids@.to_set() == self.map().dom(),
    {
        self.mountpoints.keys()
    }

    /// Number of mountpoints.
    pub fn len(&self) -> (n: usize)
        requires
            self.wf(),
        ensures
            n == self.map().dom().len(),
    {
        self.mountpoints.len()
    }

    /// Whether the registry is empty.
    pub fn is_empty(&self) -> (b: bool)
        requires
            self.wf(),
        ensures
            b == (self.map().dom().len() == 0),
    {
        self.mountpoints.is_empty()
    }

    /// Adds or replaces a viewer of mountpoint `id`; no effect if absent.
    fn set_viewer(&mut self, id: MountpointId, v: ViewerInfo)
        requires
            old(self).wf(),
        ensures
            final(self).wf(),
            final(self).next_auto_id() == old(self).next_auto_id(),
            final(self).map().dom() == old(self).map().dom(),
            old(self).map().contains_key(id) ==> final(self).map()[id].viewers@ == old(self).map()[id].viewers@.insert(v.handle_id.0, v)
                && final(self).map()[id].config == old(self).map()[id].config
                && final(self).map()[id].active == old(self).map()[id].active,
            forall|k: u64| k != id && #[trigger] old(self).map().contains_key(k) ==> final(self).map()[k] == old(self).map()[k],
            !old(self).map().contains_key(id) ==> final(self).map() == old(self).map(),
    {
        match self.mountpoints.remove(&id) {
            Some(mut mp) => {
                mp.viewers.insert(v.handle_id.0, v);
                self.mountpoints.insert(id, mp);
                assert(self.mountpoints@.dom() =~= old(self).mountpoints@.dom());
            },
            None => {
                assert(self.mountpoints@ =~= old(self).mountpoints@);
            },
        }
    }

    /// Removes a viewer of mountpoint `id`; no effect if either is absent.
    fn remove_viewer(&mut self, id: MountpointId, handle: u64)
        requires
            old(self).wf(),
        ensures
            final(self).wf(),
            final(self).next_auto_id() == old(self).next_auto_id(),
            final(self).map().dom() == old(self).map().dom(),
            old(self).map().contains_key(id) ==> final(self).map()[id].viewers@ == old(self).map()[id].viewers@.remove(handle)
                && final(self).map()[id].config == old(self).map()[id].config
                && final(self).map()[id].active == old(self).map()[id].active,
            forall|k: u64| k != id && #[trigger] old(self).map().contains_key(k) ==> final(self).map()[k] == old(self).map()[k],
            !old(self).map().contains_key(id) ==> final(self).map() == old(self).map(),
    {
        match self.mountpoints.remove(&id) {
            Some(mut mp) => {
                mp.viewers.remove(&handle);
                self.mountpoints.insert(id, mp);
                assert(self.mountpoints@.dom() =~= old(self).mountpoints@.dom());
            },
            None => {
                assert(self.mountpoints@ =~= old(self).mountpoints@);
            },
        }
    }
}

/// Per-handle state.
#[derive(Clone, Copy, Debug, PartialEq, Eq, Structural)]
pub enum HandleState {
    /// No state yet (handle just created).
    Idle,
    /// Viewer watching a mountpoint.
    Viewer { mountpoint_id: MountpointId, started: bool },
}

/// The mountpoint that the handle under `key` watches, if any.
pub open spec fn watched(handles: Map<HandleKey, HandleState>, key: HandleKey) -> Option<u64> {
    if handles.contains_key(key) {
        match handles[key] {
            HandleState::Viewer { mountpoint_id, .. } => Some(mountpoint_id),
            HandleState::Idle => None,
        }
    } else {
        None
    }
}

/// A viewer that has started receiving media.
pub open spec fn is_started_viewer(s: HandleState) -> bool {
    s matches HandleState::Viewer { started: true, .. }
}

/// A streaming request body, as the fields the plugin reads from it.
#[derive(Clone, Debug)]
pub struct StreamingRequest {
    pub request: Option<String>,
    pub id: Option<u64>,
    pub name: Option<String>,
    pub description: Option<String>,
    pub is_private: Option<bool>,
    pub pin: Option<String>,
    pub secret: Option<String>,
    pub audio_port: Option<u64>,
    pub video_port: Option<u64>,
    pub audio_codec: Option<String>,
    pub video_codec: Option<String>,
    pub audio_pt: Option<u64>,
    pub video_pt: Option<u64>,
}

/// An entry of the mountpoint list.
#[derive(Clone, Debug)]
pub struct StreamListEntry {
    pub id: MountpointId,
    pub description: String,
}

/// What a streaming request is answered.
#[derive(Clone, Debug)]
pub enum StreamingReply {
    /// Public mountpoints.
    List { list: Vec<StreamListEntry> },
    /// Details of a mountpoint.
    Info { id: MountpointId, name: String, description: String, audio_port: u16, video_port: u16, viewers: usize },
    Created { id: MountpointId },
    Destroyed { id: MountpointId },
    /// The viewer was registered; the plugin pushes a "preparing" event with
    /// this SDP offer and answers that it is preparing the stream.
    Preparing { offer_sdp: String },
    Started,
    Pausing,
    Stopped,
}

/// The offer pushed to a new viewer of mountpoint `id`.
pub open spec fn watch_offer(id: u64, audio_pt: u8, video_pt: u8) -> Seq<char> {
    "v=0\r\no=- 0 0 IN IP4 127.0.0.1\r\ns=Streaming "@ + decimal(id as nat) + "\r\nt=0 0\r\nm=audio 9 UDP/TLS/RTP/SAVPF "@
        + decimal(audio_pt as nat) + "\r\na=recvonly\r\nm=video 9 UDP/TLS/RTP/SAVPF "@ + decimal(video_pt as nat)
        + "\r\na=recvonly\r\n"@
}

/// The offer pushed to a new viewer of mountpoint `id`.
pub fn make_watch_offer(id: u64, audio_pt: u8, video_pt: u8) -> (s: String)
    ensures
        s@ == watch_offer(id, audio_pt, video_pt),
{
    let mut s = "v=0\r\no=- 0 0 IN IP4 127.0.0.1\r\ns=Streaming ".to_owned();
    crate::text::push_decimal(&mut s, id);
    s.append("\r\nt=0 0\r\nm=audio 9 UDP/TLS/RTP/SAVPF ");
    crate::text::push_decimal(&mut s, audio_pt as u64);
    s.append("\r\na=recvonly\r\nm=video 9 UDP/TLS/RTP/SAVPF ");
    crate::text::push_decimal(&mut s, video_pt as u64);
    s.append("\r\na=recvonly\r\n");
    s
}

/// The message of an error about a missing mountpoint.
pub open spec fn no_such_mountpoint(id: u64) -> Seq<char> {
    "No such mountpoint: "@ + decimal(id as nat)
}

fn no_such_mountpoint_error(id: u64) -> (e: PluginError)
    ensures
        e matches PluginError::Plugin(m) && m@ == no_such_mountpoint(id),
{
    let mut m = "No such mountpoint: ".to_owned();
    crate::text::push_decimal(&mut m, id);
    PluginError::Plugin(m)
}

/// The configuration a `create` request describes.
pub open spec fn requested_config(req: StreamingRequest, c: MountpointConfig) -> bool {
    &&& (req.name matches Some(n) ==> c.name@ == n@)
    &&& (req.name is None ==> c.name@ == "Stream"@)
    &&& (req.description matches Some(d) ==> c.description@ == d@)
    &&& (req.description is None ==> c.description@ == "Streaming mountpoint"@)
    &&& c.is_private == (if let Some(b) = req.is_private { b } else { false })
    &&& c.pin == req.pin
    &&& c.secret == req.secret
    &&& c.audio_port == (if let Some(p) = req.audio_port { p as u16 } else { 0u16 })
    &&& c.video_port == (if let Some(p) = req.video_port { p as u16 } else { 0u16 })
    &&& (req.audio_codec matches Some(a) ==> c.audio_codec == Some(a))
    &&& (req.audio_codec is None ==> (c.audio_codec matches Some(a) && a@ == "opus"@))
    &&& (req.video_codec matches Some(v) ==> c.video_codec == Some(v))
    &&& (req.video_codec is None ==> (c.video_codec matches Some(v) && v@ == "vp8"@))
    &&& c.audio_pt == Some(if let Some(p) = req.audio_pt { p as u8 } else { 111u8 })
    &&& c.video_pt == Some(if let Some(p) = req.video_pt { p as u8 } else { 96u8 })
}

/// What a handle's state is reported as.
#[derive(Clone, Copy, Debug, PartialEq, Eq, Structural)]
pub enum StreamingQuery {
    Idle,
    Viewer { mountpoint_id: MountpointId, started: bool },
}

/// The streaming plugin's state: its mountpoints and the state of each handle.
#[derive(Debug)]
pub struct StreamingState {
    mountpoints: MountpointRegistry,
    handle_states: Table<HandleKey, HandleState>,
}

impl StreamingState {
    /// The plugin's name, package, version, description and author.
    pub fn info() -> (i: PluginInfo)
        ensures
            info_is(i, "Janus Streaming plugin"@, "janus.plugin.streaming"@, 1, "0.1.0"@, "Serves RTP sources to WebRTC viewers (Rust implementation)"@, "Janus Rust Contributors"@),
    {
        PluginInfo {
            name: "Janus Streaming plugin",
            package: "janus.plugin.streaming",
            version: 1,
            version_string: "0.1.0",
            description: "Serves RTP sources to WebRTC viewers (Rust implementation)",
            author: "Janus Rust Contributors",
        }
    }

    pub closed spec fn mps(&self) -> MountpointRegistry {
        self.mountpoints
    }

    pub closed spec fn handles(&self) -> Map<HandleKey, HandleState> {
        self.handle_states@
    }

    pub closed spec fn handle_entries(&self) -> Seq<(HandleKey, HandleState)> {
        self.handle_states.entries()
    }

    pub closed spec fn wf(&self) -> bool {
        self.mountpoints.wf() && self.handle_states.wf()
    }

    /// A plugin with no mountpoints and no handles.
    pub fn new() -> (s: Self)
        ensures
            s.wf(),
            s.mps().map() == Map::<u64, Mountpoint>::empty(),
            s.mps().next_auto_id() == 100,
            s.handles() == Map::<HandleKey, HandleState>::empty(),
    {
        StreamingState { mountpoints: MountpointRegistry::new(), handle_states: Table::new() }
    }

    /// The mountpoint registry.
    pub fn mountpoints(&self) -> (r: &MountpointRegistry)
        requires
            self.wf(),
        ensures
            *r == self.mps(),
            r.wf(),
    {
        &self.mountpoints
    }

    /// Creates the default mountpoint 1 ("Test Stream", audio on port 5004,
    /// video on 5006), as the plugin does when it starts.
    pub fn init_default_mountpoint(&mut self)
        requires
            old(self).wf(),
        ensures
            final(self).wf(),
            final(self).handles() == old(self).handles(),
            final(self).mps().map().dom() == old(self).mps().map().dom().insert(1),
            forall|k: u64| k != 1 && #[trigger] old(self).mps().map().contains_key(k) ==> final(self).mps().map()[k] == old(self).mps().map()[k],
            final(self).mps().map()[1].config.name@ == "Test Stream"@,
            final(self).mps().map()[1].config.description@ == "Default test stream (mountpoint 1)"@,
            final(self).mps().map()[1].config.audio_port == 5004,
            final(self).mps().map()[1].config.video_port == 5006,
            final(self).mps().map()[1].config.audio_pt == Some(111u8),
            final(self).mps().map()[1].config.video_pt == Some(96u8),
            !final(self).mps().map()[1].config.is_private,
            final(self).mps().map()[1].config.pin is None,
            !final(self).mps().map()[1].active,
            final(self).mps().map()[1].viewers@ == Map::<u64, ViewerInfo>::empty(),
    {
        let d = MountpointConfig::default();
        let config = MountpointConfig {
            name: "Test Stream".to_owned(),
            description: "Default test stream (mountpoint 1)".to_owned(),
            audio_port: 5004,
            video_port: 5006,
            ..d
        };
        self.mountpoints.create(Some(1), config);
    }

    /// Forgets every handle, as the plugin does when it is destroyed.
    pub fn clear_handles(&mut self)
        requires
            old(self).wf(),
        ensures
            final(self).wf(),
            final(self).mps() == old(self).mps(),
            final(self).handles() == Map::<HandleKey, HandleState>::empty(),
    {
        self.handle_states = Table::new();
    }

    /// A new handle starts with no state.
    pub fn create_session(&mut self, session: &PluginSession)
        requires
            old(self).wf(),
        ensures
            final(self).wf(),
            final(self).mps() == old(self).mps(),
            final(self).handles() == old(self).handles().insert(key_of(*session), HandleState::Idle),
    {
        self.handle_states.insert(handle_key(session), HandleState::Idle);
    }

    /// A handle goes away: its state is dropped and, if it was watching a
    /// mountpoint, it stops being one of its viewers.
    pub fn destroy_session(&mut self, session: &PluginSession)
        requires
            old(self).wf(),
        ensures
            final(self).wf(),
            final(self).handles() == old(self).handles().remove(key_of(*session)),
            final(self).mps().map().dom() == old(self).mps().map().dom(),
            watched(old(self).handles(), key_of(*session)) matches Some(mountpoint_id)
                ==> old(self).mps().map().contains_key(mountpoint_id)
                ==> final(self).mps().map()[mountpoint_id].viewers@ == old(self).mps().map()[mountpoint_id].viewers@.remove(session.handle_id.0),
            forall|k: u64| #[trigger] old(self).mps().map().contains_key(k)
                && watched(old(self).handles(), key_of(*session)) != Some(k)
                ==> final(self).mps().map()[k] == old(self).mps().map()[k],
    {
        let key = handle_key(session);
        match self.handle_states.remove(&key) {
            Some(HandleState::Viewer { mountpoint_id, .. }) => {
                self.mountpoints.remove_viewer(mountpoint_id, session.handle_id.0);
            },
            _ => {},
        }
    }

    /// What a handle's state is reported as.
    pub fn query_session(&self, session: &PluginSession) -> (r: Result<StreamingQuery, PluginError>)
        requires
            self.wf(),
        ensures
            !self.handles().contains_key(key_of(*session)) ==> is_session_not_found(r, session_text(*session)),
            self.handles().contains_key(key_of(*session)) ==> r == Ok::<StreamingQuery, PluginError>(match self.handles()[key_of(*session)] {
                HandleState::Idle => StreamingQuery::Idle,
                HandleState::Viewer { mountpoint_id, started } => StreamingQuery::Viewer { mountpoint_id, started },
            }),
    {
        match self.handle_states.get(&handle_key(session)) {
            Some(HandleState::Idle) => Ok(StreamingQuery::Idle),
            Some(HandleState::Viewer { mountpoint_id, started }) => Ok(StreamingQuery::Viewer { mountpoint_id: *mountpoint_id, started: *started }),
            None => Err(PluginError::SessionNotFound(session.to_string())),
        }
    }

    /// The public mountpoints, as list entries.
    fn list_entries(&self) -> (list: Vec<StreamListEntry>)
        requires
            self.wf(),
        ensures
            forall|i: int| 0 <= i < list@.len() ==> {
                let e = #[trigger] list@[i];
                &&& self.mps().map().contains_key(e.id)
                &&& !self.mps().map()[e.id].config.is_private
                &&& e.description == self.mps().map()[e.id].config.description
            },
            forall|k: u64| #[trigger] self.mps().map().contains_key(k) && !self.mps().map()[k].config.is_private
                ==> exists|i: int| 0 <= i < list@.len() && list@[i].id == k,
            list@.map_values(|e: StreamListEntry| e.id).no_duplicates(),
    {
        let ids = self.mountpoints.list();
        let mut out: Vec<StreamListEntry> = Vec::new();
        let mut i: usize = 0;
        while i < ids.len()
            invariant
                self.wf(),
                ids@.no_duplicates(),
                ids@.to_set() == self.mps().map().dom(),
                i <= ids@.len(),
                forall|j: int| 0 <= j < out@.len() ==> {
                    let e = #[trigger] out@[j];
                    &&& self.mps().map().contains_key(e.id)
                    &&& !self.mps().map()[e.id].config.is_private
                    &&& e.description == self.mps().map()[e.id].config.description
                },
                forall|j: int| 0 <= j < out@.len() ==> exists|m: int| 0 <= m < i && ids@[m] == #[trigger] out@[j].id,
                forall|m: int| 0 <= m < i && !self.mps().map()[#[trigger] ids@[m]].config.is_private
                    ==> exists|j: int| 0 <= j < out@.len() && out@[j].id == ids@[m],
                out@.map_values(|e: StreamListEntry| e.id).no_duplicates(),
            decreases ids@.len() - i,
        {
            let id = ids[i];
            assert(ids@.to_set().contains(id));
            let mp = self.mountpoints.get(id).unwrap();
            let ghost out0 = out@;
            if !mp.config.is_private {
                proof {
                    assert forall|j: int| 0 <= j < out0.len() implies out0[j].id != id by {
                        let m = choose|m: int| 0 <= m < i && ids@[m] == out0[j].id;
                        assert(m != i);
                    }
                }
                out.push(StreamListEntry { id, description: mp.config.description.clone() });
                assert(out@.map_values(|e: StreamListEntry| e.id) =~= out0.map_values(|e: StreamListEntry| e.id).push(id));
            }
            proof {
                assert forall|j: int| 0 <= j < out@.len() implies exists|m: int| 0 <= m < i + 1 && ids@[m] == #[trigger] out@[j].id by {
                    if j < out0.len() {
                        let m = choose|m: int| 0 <= m < i && ids@[m] == out0[j].id;
                        assert(ids@[m] == out@[j].id);
                    } else {
                        assert(ids@[i as int] == out@[j].id);
                    }
                }
                assert forall|m: int| 0 <= m < i + 1 && !self.mps().map()[#[trigger] ids@[m]].config.is_private
                    implies exists|j: int| 0 <= j < out@.len() && out@[j].id == ids@[m] by {
                    if m < i {
                        let j = choose|j: int| 0 <= j < out0.len() && out0[j].id == ids@[m];
                        assert(out@[j] == out0[j]);
                    } else {
                        assert(out@[out@.len() - 1].id == ids@[m]);
                    }
                }
            }
            i = i + 1;
        }
        proof {
            assert forall|k: u64| #[trigger] self.mps().map().contains_key(k) && !self.mps().map()[k].config.is_private
                implies exists|j: int| 0 <= j < out@.len() && out@[j].id == k by {
                assert(ids@.to_set().contains(k));
                let m = choose|m: int| 0 <= m < ids@.len() && ids@[m] == k;
            }
        }
        out
    }

    /// Handles a streaming request from handle `session`.
    pub fn handle_request(&mut self, session: &PluginSession, req: &StreamingRequest) -> (r: Result<StreamingReply, PluginError>)
        requires
            old(self).wf(),
        ensures
            final(self).wf(),
            // No "request" field: the body is refused and nothing changes.
            req.request is None ==> is_missing_field(r, "request"@)
                && final(self).mps() == old(self).mps() && final(self).handles() == old(self).handles(),
            req.request matches Some(q) ==> {
                let q = q@;
                let key = key_of(*session);
                let old_mps = old(self).mps().map();
                let new_mps = final(self).mps().map();
                &&& q == "list"@ ==> final(self).mps() == old(self).mps() && final(self).handles() == old(self).handles()
                    && (r matches Ok(StreamingReply::List { list }) && {
                        &&& forall|i: int| 0 <= i < list@.len() ==> {
                            let e = #[trigger] list@[i];
                            &&& old_mps.contains_key(e.id)
                            &&& !old_mps[e.id].config.is_private
                            &&& e.description == old_mps[e.id].config.description
                        }
                        &&& forall|k: u64| #[trigger] old_mps.contains_key(k) && !old_mps[k].config.is_private
                            ==> exists|i: int| 0 <= i < list@.len() && list@[i].id == k
                        &&& list@.map_values(|e: StreamListEntry| e.id).no_duplicates()
                    })
                &&& q == "info"@ ==> final(self).mps() == old(self).mps() && final(self).handles() == old(self).handles()
                    && (req.id is None ==> is_missing_field(r, "id"@))
                    && (req.id matches Some(id) ==> !old_mps.contains_key(id)
                        ==> is_plugin_error(r, no_such_mountpoint(id)))
                    && (req.id matches Some(id) ==> old_mps.contains_key(id) ==> (r matches Ok(StreamingReply::Info { id: rid, name, description, audio_port, video_port, viewers })
                        && rid == id && name == old_mps[id].config.name && description == old_mps[id].config.description
                        && audio_port == old_mps[id].config.audio_port && video_port == old_mps[id].config.video_port
                        && viewers == old_mps[id].viewers@.dom().len()))
                &&& q == "create"@ ==> final(self).handles() == old(self).handles() && ({
                    // An explicit id that is taken is refused.
                    if req.id is Some && old_mps.contains_key(req.id.unwrap()) {
                        &&& is_plugin_error(r, "Mountpoint "@ + decimal(req.id.unwrap() as nat) + " already exists"@)
                        &&& final(self).mps() == old(self).mps()
                    } else {
                        r matches Ok(StreamingReply::Created { id }) && {
                            &&& (req.id matches Some(i) ==> id == i)
                            &&& (req.id is None ==> id == old(self).mps().next_auto_id())
                            &&& new_mps.dom() == old_mps.dom().insert(id)
                            &&& requested_config(*req, new_mps[id].config)
                            &&& !new_mps[id].active
                            &&& new_mps[id].viewers@ == Map::<u64, ViewerInfo>::empty()
                            &&& forall|k: u64| k != id && #[trigger] old_mps.contains_key(k) ==> new_mps[k] == old_mps[k]
                        }
                    }
                })
                &&& q == "destroy"@ ==> final(self).handles() == old(self).handles() && ({
                    if req.id is None {
                        is_missing_field(r, "id"@) && final(self).mps() == old(self).mps()
                    } else if req.secret is Some && old_mps.contains_key(req.id.unwrap())
                        && old_mps[req.id.unwrap()].config.secret is Some
                        && old_mps[req.id.unwrap()].config.secret.unwrap()@ != req.secret.unwrap()@ {
                        is_plugin_error(r, "Unauthorized (wrong secret)"@) && final(self).mps() == old(self).mps()
                    } else if !old_mps.contains_key(req.id.unwrap()) {
                        is_plugin_error(r, no_such_mountpoint(req.id.unwrap())) && final(self).mps() == old(self).mps()
                    } else {
                        r == Ok::<StreamingReply, PluginError>(StreamingReply::Destroyed { id: req.id.unwrap() })
                            && new_mps == old_mps.remove(req.id.unwrap())
                    }
                })
                &&& q == "watch"@ ==> ({
                    if req.id is None {
                        is_missing_field(r, "id"@)
                            && final(self).mps() == old(self).mps() && final(self).handles() == old(self).handles()
                    } else if !old_mps.contains_key(req.id.unwrap()) {
                        is_plugin_error(r, no_such_mountpoint(req.id.unwrap()))
                            && final(self).mps() == old(self).mps() && final(self).handles() == old(self).handles()
                    } else if old_mps[req.id.unwrap()].config.pin is Some && old_mps[req.id.unwrap()].config.pin.unwrap()@
                        != (if let Some(p) = req.pin { p@ } else { Seq::<char>::empty() }) {
                        is_plugin_error(r, "Unauthorized (wrong pin)"@)
                            && final(self).mps() == old(self).mps() && final(self).handles() == old(self).handles()
                    } else {
                        let id = req.id.unwrap();
                        let c = old_mps[id].config;
                        &&& r matches Ok(StreamingReply::Preparing { offer_sdp }) && offer_sdp@ == watch_offer(
                            id,
                            if let Some(a) = c.audio_pt { a } else { 111u8 },
                            if let Some(v) = c.video_pt { v } else { 96u8 },
                        )
                        &&& new_mps.dom() == old_mps.dom()
                        &&& new_mps[id].viewers@ == old_mps[id].viewers@.insert(session.handle_id.0, ViewerInfo { handle_id: session.handle_id, paused: false })
                        &&& new_mps[id].config == old_mps[id].config
                        &&& new_mps[id].active == old_mps[id].active
                        &&& forall|k: u64| k != id && #[trigger] old_mps.contains_key(k) ==> new_mps[k] == old_mps[k]
                        &&& final(self).handles() == old(self).handles().insert(key, HandleState::Viewer { mountpoint_id: id, started: false })
                    }
                })
                &&& q == "start"@ ==> final(self).mps() == old(self).mps() && ({
                    if !old(self).handles().contains_key(key) {
                        is_session_not_found(r, session_text(*session)) && final(self).handles() == old(self).handles()
                    } else if let HandleState::Viewer { mountpoint_id, .. } = old(self).handles()[key] {
                        r == Ok::<StreamingReply, PluginError>(StreamingReply::Started)
                            && final(self).handles() == old(self).handles().insert(key, HandleState::Viewer { mountpoint_id, started: true })
                    } else {
                        is_plugin_error(r, "Not a viewer"@) && final(self).handles() == old(self).handles()
                    }
                })
                &&& q == "pause"@ ==> final(self).handles() == old(self).handles() && ({
                    if !old(self).handles().contains_key(key) {
                        is_session_not_found(r, session_text(*session)) && final(self).mps() == old(self).mps()
                    } else if let HandleState::Viewer { mountpoint_id, .. } = old(self).handles()[key] {
                        &&& r == Ok::<StreamingReply, PluginError>(StreamingReply::Pausing)
                        &&& new_mps.dom() == old_mps.dom()
                        &&& forall|k: u64| k != mountpoint_id && #[trigger] old_mps.contains_key(k) ==> new_mps[k] == old_mps[k]
                        &&& old_mps.contains_key(mountpoint_id) ==> {
                            let vs = old_mps[mountpoint_id].viewers@;
                            &&& new_mps[mountpoint_id].config == old_mps[mountpoint_id].config
                            &&& new_mps[mountpoint_id].active == old_mps[mountpoint_id].active
                            &&& new_mps[mountpoint_id].viewers@ == (if vs.contains_key(session.handle_id.0) {
                                vs.insert(session.handle_id.0, ViewerInfo { handle_id: vs[session.handle_id.0].handle_id, paused: true })
                            } else {
                                vs
                            })
                        }
                    } else {
                        is_plugin_error(r, "Not a viewer"@) && final(self).mps() == old(self).mps()
                    }
                })
                &&& q == "stop"@ ==> ({
                    &&& r == Ok::<StreamingReply, PluginError>(StreamingReply::Stopped)
                    &&& final(self).handles() == old(self).handles().insert(key, HandleState::Idle)
                    &&& new_mps.dom() == old_mps.dom()
                    &&& final(self).mps().next_auto_id() == old(self).mps().next_auto_id()
                    &&& match watched(old(self).handles(), key) {
                        Some(mountpoint_id) => {
                            &&& forall|k: u64| k != mountpoint_id && #[trigger] old_mps.contains_key(k) ==> new_mps[k] == old_mps[k]
                            &&& old_mps.contains_key(mountpoint_id) ==> {
                                &&& new_mps[mountpoint_id].viewers@ == old_mps[mountpoint_id].viewers@.remove(session.handle_id.0)
                                &&& new_mps[mountpoint_id].config == old_mps[mountpoint_id].config
                                &&& new_mps[mountpoint_id].active == old_mps[mountpoint_id].active
                            }
                        },
                        None => new_mps == old_mps,
                    }
                })
                &&& q != "list"@ && q != "info"@ && q != "create"@ && q != "destroy"@ && q != "watch"@
                    && q != "start"@ && q != "pause"@ && q != "stop"@
                    ==> is_invalid_request(r, "Unknown request: "@ + q)
                        && final(self).mps() == old(self).mps() && final(self).handles() == old(self).handles()
            },
    {
        let q: &str = match &req.request {
            Some(q) => q.as_str(),
            None => {
                return Err(PluginError::MissingField("request".to_owned()));
            },
        };
        let key = handle_key(session);
        proof {
            lemma_request_names_distinct();
        }
        if str_eq(q, "list") {
            let list = self.list_entries();
            return Ok(StreamingReply::List { list });
        }
        if str_eq(q, "info") {
            let id = match req.id {
                Some(id) => id,
                None => { return Err(PluginError::MissingField("id".to_owned())); },
            };
            return match self.mountpoints.get(id) {
                Some(mp) => Ok(StreamingReply::Info {
                    id: mp.id,
                    name: mp.config.name.clone(),
                    description: mp.config.description.clone(),
                    audio_port: mp.config.audio_port,
                    video_port: mp.config.video_port,
                    viewers: mp.viewers.len(),
                }),
                None => Err(no_such_mountpoint_error(id)),
            };
        }
        if str_eq(q, "create") {
            if let Some(id) = req.id {
                if self.mountpoints.contains(id) {
                    let mut m = "Mountpoint ".to_owned();
                    crate::text::push_decimal(&mut m, id);
                    m.append(" already exists");
                    return Err(PluginError::Plugin(m));
                }
            }
            let config = MountpointConfig {
                name: match &req.name { Some(n) => n.clone(), None => "Stream".to_owned() },
                description: match &req.description { Some(d) => d.clone(), None => "Streaming mountpoint".to_owned() },
                is_private: match req.is_private { Some(b) => b, None => false },
                pin: crate::text::clone_opt_string(&req.pin),
                secret: crate::text::clone_opt_string(&req.secret),
                audio_port: match req.audio_port { Some(p) => p as u16, None => 0 },
                video_port: match req.video_port { Some(p) => p as u16, None => 0 },
                audio_codec: match &req.audio_codec { Some(a) => Some(a.clone()), None => Some("opus".to_owned()) },
                video_codec: match &req.video_codec { Some(v) => Some(v.clone()), None => Some("vp8".to_owned()) },
                audio_pt: match req.audio_pt { Some(p) => Some(p as u8), None => Some(111) },
                video_pt: match req.video_pt { Some(p) => Some(p as u8), None => Some(96) },
            };
            let id = self.mountpoints.create(req.id, config);
            return Ok(StreamingReply::Created { id });
        }
        if str_eq(q, "destroy") {
            let id = match req.id {
                Some(id) => id,
                None => { return Err(PluginError::MissingField("id".to_owned())); },
            };
            if let Some(secret) = &req.secret {
                if let Some(mp) = self.mountpoints.get(id) {
                    if let Some(mp_secret) = &mp.config.secret {
                        if !str_eq(mp_secret.as_str(), secret.as_str()) {
                            return Err(PluginError::Plugin("Unauthorized (wrong secret)".to_owned()));
                        }
                    }
                }
            }
            return match self.mountpoints.destroy(id) {
                Some(_) => Ok(StreamingReply::Destroyed { id }),
                None => Err(no_such_mountpoint_error(id)),
            };
        }
        if str_eq(q, "watch") {
            let id = match req.id {
                Some(id) => id,
                None => { return Err(PluginError::MissingField("id".to_owned())); },
            };
            let (apt, vpt) = match self.mountpoints.get(id) {
                None => { return Err(no_such_mountpoint_error(id)); },
                Some(mp) => {
                    if let Some(mp_pin) = &mp.config.pin {
                        let provided: &str = match &req.pin { Some(p) => p.as_str(), None => "" };
                        proof {
                            reveal_strlit("");
                            assert(""@ =~= Seq::<char>::empty());
                        }
                        if !str_eq(provided, mp_pin.as_str()) {
                            return Err(PluginError::Plugin("Unauthorized (wrong pin)".to_owned()));
                        }
                    }
                    (match mp.config.audio_pt { Some(a) => a, None => 111 }, match mp.config.video_pt { Some(v) => v, None => 96 })
                },
            };
            self.mountpoints.set_viewer(id, ViewerInfo { handle_id: session.handle_id, paused: false });
            self.handle_states.insert(key, HandleState::Viewer { mountpoint_id: id, started: false });
            let offer_sdp = make_watch_offer(id, apt, vpt);
            return Ok(StreamingReply::Preparing { offer_sdp });
        }
        if str_eq(q, "start") {
            return match self.handle_states.get(&key) {
                None => Err(PluginError::SessionNotFound(session.to_string())),
                Some(HandleState::Viewer { mountpoint_id, .. }) => {
                    let mp_id = *mountpoint_id;
                    self.handle_states.insert(key, HandleState::Viewer { mountpoint_id: mp_id, started: true });
                    Ok(StreamingReply::Started)
                },
                Some(HandleState::Idle) => Err(PluginError::Plugin("Not a viewer".to_owned())),
            };
        }
        if str_eq(q, "pause") {
            return match self.handle_states.get(&key) {
                None => Err(PluginError::SessionNotFound(session.to_string())),
                Some(HandleState::Viewer { mountpoint_id, .. }) => {
                    let mp_id = *mountpoint_id;
                    let existing = match self.mountpoints.get(mp_id) {
                        Some(mp) => match mp.viewers.get(&session.handle_id.0) {
                            Some(v) => Some(v.handle_id),
                            None => None,
                        },
                        None => None,
                    };
                    if let Some(h) = existing {
                        self.mountpoints.set_viewer(mp_id, ViewerInfo { handle_id: h, paused: true });
                        proof {
                            let vs = old(self).mps().map()[mp_id].viewers@;
                            assert(vs[session.handle_id.0].handle_id == h);
                        }
                    }
                    Ok(StreamingReply::Pausing)
                },
                Some(HandleState::Idle) => Err(PluginError::Plugin("Not a viewer".to_owned())),
            };
        }
        if str_eq(q, "stop") {
            match self.handle_states.remove(&key) {
                Some(HandleState::Viewer { mountpoint_id, .. }) => {
                    self.mountpoints.remove_viewer(mountpoint_id, session.handle_id.0);
                },
                _ => {},
            }
            self.handle_states.insert(key, HandleState::Idle);
            return Ok(StreamingReply::Stopped);
        }
        Err(PluginError::InvalidRequest("Unknown request: ".to_owned().concat(q)))
    }

    /// The viewers of a mountpoint to which an RTP packet from its source is
    /// relayed: those not paused whose handle (the first one found with
    /// that handle id) is a started viewer.
    pub fn relay_targets(&self, mountpoint_id: MountpointId) -> (targets: Vec<PluginSession>)
        requires
            self.wf(),
        ensures
            !self.mps().map().contains_key(mountpoint_id) ==> targets@.len() == 0,
            forall|i: int| 0 <= i < targets@.len() ==> {
                let t = #[trigger] targets@[i];
                let vs = self.mps().map()[mountpoint_id].viewers@;
                &&& self.mps().map().contains_key(mountpoint_id)
                &&& vs.contains_key(t.handle_id.0)
                &&& !vs[t.handle_id.0].paused
                &&& started_first(self.handle_entries(), t.handle_id.0)
                &&& first_key(self.handle_entries(), t.handle_id.0) == key_of(t)
            },
            self.mps().map().contains_key(mountpoint_id) ==> forall|h: u64|
                #[trigger] self.mps().map()[mountpoint_id].viewers@.contains_key(h)
                    && !self.mps().map()[mountpoint_id].viewers@[h].paused
                    && started_first(self.handle_entries(), h)
                    ==> exists|i: int| 0 <= i < targets@.len() && targets@[i].handle_id.0 == h,
    {
        let mut out: Vec<PluginSession> = Vec::new();
        let mp = match self.mountpoints.get(mountpoint_id) {
            Some(mp) => mp,
            None => { return out; },
        };
        let ghost vs = mp.viewers@;
        let ghost es = self.handle_entries();
        let hids = mp.viewers.keys();
        let mut i: usize = 0;
        while i < hids.len()
            invariant
                self.wf(),
                es == self.handle_entries(),
                self.mps().map().contains_key(mountpoint_id),
                *mp == self.mps().map()[mountpoint_id],
                vs == mp.viewers@,
                mountpoint_wf(mountpoint_id, *mp),
                hids@.to_set() == vs.dom(),
                i <= hids@.len(),
                forall|j: int| 0 <= j < out@.len() ==> {
                    let t = #[trigger] out@[j];
                    &&& vs.contains_key(t.handle_id.0)
                    &&& !vs[t.handle_id.0].paused
                    &&& started_first(es, t.handle_id.0)
                    &&& first_key(es, t.handle_id.0) == key_of(t)
                },
                forall|m: int| 0 <= m < i ==> {
                    let h = #[trigger] hids@[m];
                    !vs[h].paused && started_first(es, h)
                    ==> exists|j: int| 0 <= j < out@.len() && out@[j].handle_id.0 == h
                },
            decreases hids@.len() - i,
        {
            let h = hids[i];
            assert(hids@.to_set().contains(h));
            let v = *mp.viewers.get(&h).unwrap();
            assert(v.handle_id.0 == h);
            let ghost out0 = out@;
            if !v.paused {
                if let Some(t) = self.started_viewer_session(h) {
                    out.push(t);
                }
            }
            proof {
                assert forall|m: int| 0 <= m < i + 1 implies {
                    let h2 = #[trigger] hids@[m];
                    !vs[h2].paused && started_first(es, h2)
                    ==> exists|j: int| 0 <= j < out@.len() && out@[j].handle_id.0 == h2
                } by {
                    let h2 = hids@[m];
                    if m < i {
                        if !vs[h2].paused && started_first(es, h2) {
                            let j = choose|j: int| 0 <= j < out0.len() && out0[j].handle_id.0 == h2;
                            assert(out@[j] == out0[j]);
                        }
                    } else {
                        if !vs[h2].paused && started_first(es, h2) {
                            assert(out@[out@.len() - 1].handle_id.0 == h2);
                        }
                    }
                }
            }
            i = i + 1;
        }
        proof {
            assert forall|h: u64| #[trigger] vs.contains_key(h) && !vs[h].paused && started_first(es, h)
                implies exists|i: int| 0 <= i < out@.len() && out@[i].handle_id.0 == h by {
                assert(hids@.to_set().contains(h));
                let m = choose|m: int| 0 <= m < hids@.len() && hids@[m] == h;
            }
        }
        out
    }

    /// The plugin session of the first handle entry with handle id `h`, if
    /// that handle is a started viewer.
    fn started_viewer_session(&self, h: u64) -> (r: Option<PluginSession>)
        requires
            self.wf(),
        ensures
            r is Some <==> started_first(self.handle_entries(), h),
            r matches Some(t) ==> t.handle_id.0 == h && key_of(t) == first_key(self.handle_entries(), h),
    {
        match self.first_entry_with_handle(h) {
            Some(j) => {
                let e = self.handle_states.entry_at(j);
                if let HandleState::Viewer { started: true, .. } = e.1 {
                    Some(PluginSession::new(SessionId(e.0.session), HandleId(e.0.handle)))
                } else {
                    None
                }
            },
            None => None,
        }
    }

    /// Position of the first handle entry whose handle id is `h`.
    fn first_entry_with_handle(&self, h: u64) -> (r: Option<usize>)
        requires
            self.wf(),
        ensures
            r matches Some(i) ==> first_with_handle(self.handle_entries(), h) == Some(i as int),
            r is None ==> first_with_handle(self.handle_entries(), h) is None,
            r matches Some(i) ==> i < self.handle_entries().len() && self.handle_entries()[i as int].0.handle == h,
    {
        let n = self.handle_states.len();
        let mut i: usize = 0;
        while i < n
            invariant
                n == self.handle_entries().len(),
                i <= n,
                forall|j: int| 0 <= j < i ==> self.handle_entries()[j].0.handle != h,
            decreases n - i,
        {
            if self.handle_states.entry_at(i).0.handle == h {
                proof { lemma_first_with_handle(self.handle_entries(), h, i as int); }
                return Some(i);
            }
            i = i + 1;
        }
        proof { lemma_first_with_handle_none(self.handle_entries(), h); }
        None
    }
}

proof fn lemma_request_names_distinct()
    ensures
        "list"@ != "info"@, "list"@ != "create"@, "list"@ != "destroy"@, "list"@ != "watch"@,
        "list"@ != "start"@, "list"@ != "pause"@, "list"@ != "stop"@,
        "info"@ != "create"@, "info"@ != "destroy"@, "info"@ != "watch"@, "info"@ != "start"@,
        "info"@ != "pause"@, "info"@ != "stop"@,
        "create"@ != "destroy"@, "create"@ != "watch"@, "create"@ != "start"@, "create"@ != "pause"@,
        "create"@ != "stop"@,
        "destroy"@ != "watch"@, "destroy"@ != "start"@, "destroy"@ != "pause"@, "destroy"@ != "stop"@,
        "watch"@ != "start"@, "watch"@ != "pause"@, "watch"@ != "stop"@,
        "start"@ != "pause"@, "start"@ != "stop"@,
        "pause"@ != "stop"@,
{
    reveal_strlit("list");
    reveal_strlit("info");
    reveal_strlit("create");
    reveal_strlit("destroy");
    reveal_strlit("watch");
    reveal_strlit("start");
    reveal_strlit("pause");
    reveal_strlit("stop");
    assert("list"@.len() == 4 && "info"@.len() == 4 && "stop"@.len() == 4);
    assert("watch"@.len() == 5 && "start"@.len() == 5 && "pause"@.len() == 5);
    assert("create"@.len() == 6 && "destroy"@.len() == 7);
    assert("list"@[0] != "info"@[0]);
    assert("list"@[0] != "stop"@[0]);
    assert("info"@[0] != "stop"@[0]);
    assert("watch"@[0] != "start"@[0]);
    assert("watch"@[0] != "pause"@[0]);
    assert("start"@[0] != "pause"@[0]);
}

/// The position of the first entry whose key has handle id `h`.
#[verifier::opaque]
pub open spec fn first_with_handle<V>(s: Seq<(HandleKey, V)>, h: u64) -> Option<int> {
    if exists|i: int| 0 <= i < s.len() && s[i].0.handle == h {
        Some(choose|i: int| 0 <= i < s.len() && s[i].0.handle == h && forall|j: int| 0 <= j < i ==> s[j].0.handle != h)
    } else {
        None
    }
}

/// The handle of the first entry with handle id `h` is a started viewer.
pub open spec fn started_first(s: Seq<(HandleKey, HandleState)>, h: u64) -> bool {
    match first_with_handle(s, h) {
        Some(j) => is_started_viewer(s[j].1),
        None => false,
    }
}

/// The key of the first entry with handle id `h`.
pub open spec fn first_key(s: Seq<(HandleKey, HandleState)>, h: u64) -> HandleKey {
    s[first_with_handle(s, h).unwrap()].0
}

proof fn lemma_first_with_handle<V>(s: Seq<(HandleKey, V)>, h: u64, i: int)
    requires
        0 <= i < s.len(),
        s[i].0.handle == h,
        forall|j: int| 0 <= j < i ==> s[j].0.handle != h,
    ensures
        first_with_handle(s, h) == Some(i),
{
    reveal(first_with_handle);
    let k = choose|k: int| 0 <= k < s.len() && s[k].0.handle == h && forall|j: int| 0 <= j < k ==> s[j].0.handle != h;
    assert(0 <= k < s.len() && s[k].0.handle == h && forall|j: int| 0 <= j < k ==> s[j].0.handle != h);
    if k < i {
        assert(s[k].0.handle != h);
    }
    if i < k {
        assert(s[i].0.handle != h);
    }
}

proof fn lemma_first_with_handle_none<V>(s: Seq<(HandleKey, V)>, h: u64)
    requires
        forall|j: int| 0 <= j < s.len() ==> s[j].0.handle != h,
    ensures
        first_with_handle(s, h) is None,
{
    reveal(first_with_handle);
}

/// Creating a mountpoint under an id that was free and then destroying it
/// leaves the mountpoints as they were.
pub proof fn lemma_mountpoint_create_then_destroy(a: MountpointRegistry, b: MountpointRegistry, c: MountpointRegistry, mp_id: u64)
    requires
        a.wf(),
        !a.map().contains_key(mp_id),
        b.map().dom() == a.map().dom().insert(mp_id),
        forall|k: u64| k != mp_id && #[trigger] a.map().contains_key(k) ==> b.map()[k] == a.map()[k],
        c.map() == b.map().remove(mp_id),
    ensures
        c.map() == a.map(),
{
    assert(c.map() =~= a.map());
}

/// Two mountpoints created in a row with automatic ids get different ids.
pub proof fn lemma_mountpoint_auto_ids_differ(a: MountpointRegistry, b: MountpointRegistry, first: u64, second: u64)
    requires
        first == a.next_auto_id(),
        b.next_auto_id() == vstd::wrapping::u64_specs::wrapping_add(a.next_auto_id(), 1),
        second == b.next_auto_id(),
    ensures
        first != second,
{
}

/// The offer sent to a new viewer carries the mountpoint's audio payload
/// type on its audio media line and its video payload type on its video
/// media line.
pub proof fn lemma_watch_offer_media_lines(id: u64, audio_pt: u8, video_pt: u8, offer: Seq<char>)
    requires
        offer == watch_offer(id, audio_pt, video_pt),
    ensures
        crate::text::contains_seq(offer, "m=audio 9 UDP/TLS/RTP/SAVPF "@ + decimal(audio_pt as nat) + "\r\n"@),
        crate::text::contains_seq(offer, "m=video 9 UDP/TLS/RTP/SAVPF "@ + decimal(video_pt as nat) + "\r\n"@),
{
    reveal_strlit("v=0\r\no=- 0 0 IN IP4 127.0.0.1\r\ns=Streaming ");
    reveal_strlit("\r\nt=0 0\r\nm=audio 9 UDP/TLS/RTP/SAVPF ");
    reveal_strlit("\r\na=recvonly\r\nm=video 9 UDP/TLS/RTP/SAVPF ");
    reveal_strlit("\r\na=recvonly\r\n");
    reveal_strlit("\r\nt=0 0\r\n");
    reveal_strlit("m=audio 9 UDP/TLS/RTP/SAVPF ");
    reveal_strlit("\r\na=recvonly\r\n");
    reveal_strlit("m=video 9 UDP/TLS/RTP/SAVPF ");
    reveal_strlit("\r\n");
    reveal_strlit("a=recvonly\r\n");
    let da = decimal(audio_pt as nat);
    let dv = decimal(video_pt as nat);
    let head = "v=0\r\no=- 0 0 IN IP4 127.0.0.1\r\ns=Streaming "@ + decimal(id as nat);
    assert("\r\nt=0 0\r\nm=audio 9 UDP/TLS/RTP/SAVPF "@ =~= "\r\nt=0 0\r\n"@ + "m=audio 9 UDP/TLS/RTP/SAVPF "@);
    assert("\r\na=recvonly\r\nm=video 9 UDP/TLS/RTP/SAVPF "@ =~= "\r\n"@ + "a=recvonly\r\n"@ + "m=video 9 UDP/TLS/RTP/SAVPF "@);
    assert("\r\na=recvonly\r\n"@ =~= "\r\n"@ + "a=recvonly\r\n"@);
    let audio = "m=audio 9 UDP/TLS/RTP/SAVPF "@ + da + "\r\n"@;
    let video = "m=video 9 UDP/TLS/RTP/SAVPF "@ + dv + "\r\n"@;
    let x1 = head + "\r\nt=0 0\r\n"@;
    let y1 = "a=recvonly\r\n"@ + video + "a=recvonly\r\n"@;
    assert(offer =~= x1 + audio + y1);
    assert((x1 + audio + y1).subrange(x1.len() as int, (x1.len() + audio.len()) as int) =~= audio);
    assert(crate::text::occurs_at(offer, audio, x1.len() as int));
    let x2 = x1 + audio + "a=recvonly\r\n"@;
    let y2 = "a=recvonly\r\n"@;
    assert(offer =~= x2 + video + y2);
    assert((x2 + video + y2).subrange(x2.len() as int, (x2.len() + video.len()) as int) =~= video);
    assert(crate::text::occurs_at(offer, video, x2.len() as int));
}

} // verus!
