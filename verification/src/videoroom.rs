//! VideoRoom plugin: SFU rooms with publishers and subscribers.
//!
//! `VideoRoomState::handle_request` holds the plugin's request logic. It
//! answers with a reply and, where the plugin tells other publishers of a
//! change in the room, with the notice to send them.
use vstd::prelude::*;
use vstd::string::StringExecFns;
use crate::idmap::{HandleKey, Table, has_key, key_seq};
use crate::plugin_api::{PluginError, is_plugin_error, is_session_not_found};
use crate::text::{decimal, str_eq};
use crate::types::{HandleId, Jsep, JsepType, PluginSession, SessionId, session_text, key_of, handle_key};

use crate::plugin_api::{PluginInfo, info_is};

verus! {

/// Unique room identifier.
pub type RoomId = u64;

/// Configuration for a video room.
#[derive(Clone, Debug)]
pub struct RoomConfig {
    pub description: String,
    pub max_publishers: u32,
    pub bitrate: u64,
    pub is_private: bool,
    pub pin: Option<String>,
    pub secret: Option<String>,
}

impl Default for RoomConfig {
    fn default() -> (c: Self)
        ensures
            c.description@ == "VideoRoom"@,
            c.max_publishers == 6,
            c.bitrate == 0,
            !c.is_private,
            c.pin is None,
            c.secret is None,
    {
        RoomConfig {
            description: "VideoRoom".to_owned(),
            max_publishers: 6,
            bitrate: 0,
            is_private: false,
            pin: None,
            secret: None,
        }
    }
}

/// Information about a publisher in a room.
#[derive(Clone, Debug)]
pub struct PublisherInfo {
    pub user_id: u64,
    pub display: Option<String>,
    pub audio_codec: Option<String>,
    pub video_codec: Option<String>,
    pub talking: bool,
}

/// Information about a subscriber in a room.
#[derive(Clone, Copy, Debug)]
pub struct SubscriberInfo {
    pub user_id: u64,
    /// The publisher feed this subscriber is watching.
    pub feed: u64,
    pub paused: bool,
}

/// A video room instance.
#[derive(Debug)]
pub struct Room {
    pub id: RoomId,
    pub config: RoomConfig,
    /// Publishers currently in the room, by user id.
    pub publishers: Table<u64, PublisherInfo>,
    /// Subscribers currently in the room, by user id.
    pub subscribers: Table<u64, SubscriberInfo>,
}

/// Well-formedness of a room stored under key `k`.
pub open spec fn room_wf(k: u64, r: Room) -> bool {
    &&& r.id == k
    &&& r.publishers.wf()
    &&& r.subscribers.wf()
    &&& forall|u: u64| #[trigger] r.publishers@.contains_key(u) ==> r.publishers@[u].user_id == u
    &&& forall|u: u64| #[trigger] r.subscribers@.contains_key(u) ==> r.subscribers@[u].user_id == u
}

impl Room {
    /// A room with no participants.
    pub fn new(id: RoomId, config: RoomConfig) -> (r: Room)
        ensures
            room_wf(id, r),
            r.config == config,
            r.publishers@ == Map::<u64, PublisherInfo>::empty(),
            r.subscribers@ == Map::<u64, SubscriberInfo>::empty(),
            r.publishers.entries() == Seq::<(u64, PublisherInfo)>::empty(),
            r.subscribers.entries() == Seq::<(u64, SubscriberInfo)>::empty(),
    {
        Room { id, config, publishers: Table::new(), subscribers: Table::new() }
    }
}

/// Registry of all rooms.
#[derive(Debug)]
pub struct RoomRegistry {
    rooms: Table<u64, Room>,
    next_id: u64,
}

impl RoomRegistry {
    /// Rooms by id.
    pub closed spec fn map(&self) -> Map<u64, Room> {
        self.rooms@
    }

    /// The rooms in the order they were stored.
    pub closed spec fn entries(&self) -> Seq<(u64, Room)> {
        self.rooms.entries()
    }

    /// The next automatically assigned id.
    pub closed spec fn next_auto_id(&self) -> u64 {
        self.next_id
    }

    pub closed spec fn wf(&self) -> bool {
        &&& self.rooms.wf()
        &&& forall|k: u64| #[trigger] self.rooms@.contains_key(k) ==> room_wf(k, self.rooms@[k])
    }

    /// Facts that hold of a well-formed registry.
    pub proof fn lemma_wf(&self)
        requires
            self.wf(),
        ensures
            forall|k: u64| #[trigger] self.map().contains_key(k) ==> room_wf(k, self.map()[k]),
            forall|i: int| 0 <= i < self.entries().len() ==> #[trigger] self.map().contains_key(self.entries()[i].0)
                && self.map()[self.entries()[i].0] == self.entries()[i].1,
            self.map().dom().finite(),
            self.map().dom().len() == self.entries().len(),
    {
        assert forall|i: int| 0 <= i < self.entries().len() implies #[trigger] self.map().contains_key(self.entries()[i].0)
            && self.map()[self.entries()[i].0] == self.entries()[i].1 by {
            crate::idmap::lemma_entries_map_at(self.rooms.entries(), i);
        }
        crate::idmap::lemma_entries_map_len(self.rooms.entries());
    }

    /// An empty registry; automatic ids start at 1000.
    pub fn new() -> (r: Self)
        ensures
            r.wf(),
            r.map() == Map::<u64, Room>::empty(),
            r.entries() == Seq::<(u64, Room)>::empty(),
            r.next_auto_id() == 1000,
    {
        RoomRegistry { rooms: Table::new(), next_id: 1000 }
    }

    /// Creates a room with the given id, or the next automatic id, and returns
    /// its id. An existing room with that id is replaced by the new one.
    pub fn create(&mut self, id: Option<RoomId>, config: RoomConfig) -> (room_id: RoomId)
        requires
            old(self).wf(),
        ensures
            final(self).wf(),
            id matches Some(i) ==> room_id == i && final(self).next_auto_id() == old(self).next_auto_id(),
            id is None ==> room_id == old(self).next_auto_id()
                && final(self).next_auto_id() == vstd::wrapping::u64_specs::wrapping_add(old(self).next_auto_id(), 1),
            final(self).map() == old(self).map().insert(room_id, final(self).map()[room_id]),
            final(self).map()[room_id].config == config,
            final(self).map()[room_id].publishers@ == Map::<u64, PublisherInfo>::empty(),
            final(self).map()[room_id].subscribers@ == Map::<u64, SubscriberInfo>::empty(),
            final(self).map()[room_id].publishers.entries() == Seq::<(u64, PublisherInfo)>::empty(),
            final(self).map()[room_id].subscribers.entries() == Seq::<(u64, SubscriberInfo)>::empty(),
    {
        let room_id = match id {
            Some(i) => i,
            None => {
                let i = self.next_id;
                self.next_id = self.next_id.wrapping_add(1);
                i
            },
        };
        let room = Room::new(room_id, config);
        self.rooms.insert(room_id, room);
        room_id
    }

    /// The room with the given id.
    pub fn get(&self, id: RoomId) -> (r: Option<&Room>)
        requires
            self.wf(),
        ensures
            r matches Some(room) ==> self.map().contains_key(id) && *room == self.map()[id],
            r is None ==> !self.map().contains_key(id),
    {
        self.rooms.get(&id)
    }

    /// Whether a room exists.
    pub fn contains(&self, id: RoomId) -> (b: bool)
        ensures
            b == self.map().contains_key(id),
    {
        self.rooms.contains_key(&id)
    }

    /// Removes a room, returning it.
    pub fn destroy(&mut self, id: RoomId) -> (r: Option<Room>)
        requires
            old(self).wf(),
        ensures
            final(self).wf(),
            final(self).map() == old(self).map().remove(id),
            final(self).next_auto_id() == old(self).next_auto_id(),
            r matches Some(room) ==> old(self).map().contains_key(id) && room == old(self).map()[id],
            r is None ==> !old(self).map().contains_key(id) && *final(self) == *old(self),
    {
        self.rooms.remove(&id)
    }

    /// The ids of all rooms, in the order they were stored.
    pub fn list(&self) -> (ids: Vec<RoomId>)
        requires
            self.wf(),
        ensures
            ids@ == key_seq(self.entries()),
            ids@.no_duplicates(),
            ids@.to_set() == self.map().dom(),
    {
        self.rooms.keys()
    }

    /// Number of rooms.
    pub fn len(&self) -> (n: usize)
        requires
            self.wf(),
        ensures
            n == self.map().dom().len(),
    {
        self.rooms.len()
    }

    /// Whether the registry is empty.
    pub fn is_empty(&self) -> (b: bool)
        requires
            self.wf(),
        ensures
            b == (self.map().dom().len() == 0),
    {
        self.rooms.is_empty()
    }

    /// The room `id` out of the registry, leaving an empty room with the same
    /// id and configuration in its place; `None` if there is no such room.
    fn take(&mut self, id: RoomId) -> (r: Option<(usize, Room)>)
        requires
            old(self).wf(),
        ensures
            r is None ==> !old(self).map().contains_key(id) && *final(self) == *old(self),
            r matches Some(p) ==> {
                &&& old(self).map().contains_key(id)
                &&& p.1 == old(self).map()[id]
                &&& p.0 < old(self).entries().len()
                &&& old(self).entries()[p.0 as int].0 == id
                &&& final(self).entries().len() == old(self).entries().len()
                &&& key_seq(final(self).entries()) == key_seq(old(self).entries())
                &&& final(self).next_auto_id() == old(self).next_auto_id()
                &&& final(self).rooms.wf()
                &&& final(self).rooms@.dom() == old(self).rooms@.dom()
                &&& forall|k: u64| k != id && #[trigger] old(self).map().contains_key(k) ==> final(self).map()[k] == old(self).map()[k]
                &&& forall|j: int| 0 <= j < old(self).entries().len() && j != p.0 ==> #[trigger] final(self).entries()[j] == old(self).entries()[j]
                &&& forall|k: u64| #[trigger] final(self).rooms@.contains_key(k) && k != id ==> room_wf(k, final(self).rooms@[k])
            },
    {
        match self.rooms.index_of(&id) {
            Some(i) => {
                let placeholder = Room::new(id, RoomConfig::default());
                let room = self.rooms.replace_at(i, placeholder);
                proof {
                    assert(key_seq(self.rooms.entries()) =~= key_seq(old(self).rooms.entries()));
                    assert(self.rooms@.dom() =~= old(self).rooms@.dom());
                }
                Some((i, room))
            },
            None => None,
        }
    }

    /// Puts a room back where `take` took it from.
    fn put(&mut self, i: usize, room: Room)
        requires
            old(self).rooms.wf(),
            i < old(self).entries().len(),
            room_wf(old(self).entries()[i as int].0, room),
            forall|k: u64| #[trigger] old(self).rooms@.contains_key(k) && k != old(self).entries()[i as int].0
                ==> room_wf(k, old(self).rooms@[k]),
        ensures
            final(self).wf(),
            final(self).map() == old(self).map().insert(old(self).entries()[i as int].0, room),
            key_seq(final(self).entries()) == key_seq(old(self).entries()),
            final(self).entries() == old(self).entries().update(i as int, (old(self).entries()[i as int].0, room)),
            final(self).next_auto_id() == old(self).next_auto_id(),
    {
        self.rooms.replace_at(i, room);
        proof {
            assert(key_seq(self.rooms.entries()) =~= key_seq(old(self).rooms.entries()));
        }
    }
}

/// Per-handle state.
#[derive(Clone, Debug)]
pub enum HandleState {
    /// Not yet joined any room.
    Idle,
    /// Joined as publisher.
    Publisher { room_id: RoomId, user_id: u64, display: Option<String>, active: bool },
    /// Joined as subscriber.
    Subscriber { room_id: RoomId, user_id: u64, feed: u64, active: bool },
}

/// A copy of a handle state.
fn copy_state(s: &HandleState) -> (c: HandleState)
    ensures
        c == *s,
{
    match s {
        HandleState::Idle => HandleState::Idle,
        HandleState::Publisher { room_id, user_id, display, active } => HandleState::Publisher {
            room_id: *room_id,
            user_id: *user_id,
            display: crate::text::clone_opt_string(display),
            active: *active,
        },
        HandleState::Subscriber { room_id, user_id, feed, active } => HandleState::Subscriber {
            room_id: *room_id,
            user_id: *user_id,
            feed: *feed,
            active: *active,
        },
    }
}

/// A copy of a publisher's information.
fn copy_publisher(p: &PublisherInfo) -> (c: PublisherInfo)
    ensures
        c == *p,
{
    PublisherInfo {
        user_id: p.user_id,
        display: crate::text::clone_opt_string(&p.display),
        audio_codec: crate::text::clone_opt_string(&p.audio_codec),
        video_codec: crate::text::clone_opt_string(&p.video_codec),
        talking: p.talking,
    }
}

/// The state with its `active` flag set to `a`; a handle that has joined no
/// room is left as it is.
pub open spec fn with_active(s: HandleState, a: bool) -> HandleState {
    match s {
        HandleState::Idle => HandleState::Idle,
        HandleState::Publisher { room_id, user_id, display, .. } => HandleState::Publisher { room_id, user_id, display, active: a },
        HandleState::Subscriber { room_id, user_id, feed, .. } => HandleState::Subscriber { room_id, user_id, feed, active: a },
    }
}

/// A videoroom request body, as the fields the plugin reads from it.
#[derive(Clone, Debug)]
pub struct VideoRoomRequest {
    pub request: String,
    pub room: Option<RoomId>,
    pub ptype: Option<String>,
    pub feed: Option<u64>,
    pub display: Option<String>,
    pub description: Option<String>,
    pub max_publishers: Option<u32>,
    pub bitrate: Option<u64>,
    pub is_private: Option<bool>,
    pub pin: Option<String>,
    pub secret: Option<String>,
    /// Audio toggle of `configure` (true when absent).
    pub audio: bool,
    /// Video toggle of `configure` (true when absent).
    pub video: bool,
}

/// Default of the audio and video toggles of a request.
pub fn default_true() -> (b: bool)
    ensures
        b,
{
    true
}

/// An entry of the room list.
#[derive(Clone, Debug)]
pub struct RoomListEntry {
    pub room: RoomId,
    pub description: String,
    pub max_publishers: u32,
    pub bitrate: u64,
    pub num_participants: usize,
}

/// A participant of a room, as `listparticipants` reports it.
#[derive(Clone, Debug)]
pub struct Participant {
    pub id: u64,
    pub display: Option<String>,
    pub talking: bool,
}

/// What a videoroom request is answered.
#[derive(Clone, Debug)]
pub enum VideoRoomReply {
    Created { room: RoomId },
    Destroyed { room: RoomId },
    Exists { room: RoomId, exists: bool },
    /// Public rooms.
    List { list: Vec<RoomListEntry> },
    Participants { room: RoomId, participants: Vec<Participant> },
    /// A publisher joined; `publishers` are the others in the room.
    Joined { room: RoomId, id: u64, description: String, publishers: Vec<PublisherInfo> },
    /// A subscriber attached to a feed; `display` is the feed's display name.
    /// With `wait`, the plugin pushes this as an event and answers that it is
    /// waiting.
    Attached { room: RoomId, id: u64, display: Option<String>, wait: bool },
    /// Publisher configured; with an answer, the plugin pushes it with this
    /// event and answers that it is processing the publish.
    Configured { audio: bool, video: bool, answer: Option<Jsep> },
    Started,
    Unpublished,
    Leaving,
}

/// An event the plugin sends to publishers of a room.
#[derive(Clone, Debug)]
pub enum RoomEvent {
    /// A new publisher joined.
    PublisherJoined { room: RoomId, id: u64, display: Option<String> },
    /// A publisher stopped publishing or left.
    PublisherLeft { room: RoomId, id: u64 },
}

/// An event and the handles it goes to.
#[derive(Clone, Debug)]
pub struct RoomNotice {
    pub targets: Vec<PluginSession>,
    pub event: RoomEvent,
}

/// The sessions of the publishers in `pubs` (but `skip`) that have a known
/// handle, in the order of `pubs`.
pub open spec fn notice_targets(pubs: Seq<(u64, PublisherInfo)>, skip: Option<u64>, handles: Map<u64, PluginSession>) -> Seq<PluginSession> {
    pubs.filter_map(notice_pick(skip, handles))
}

/// The session an entry of the publisher table contributes to a notice.
pub open spec fn notice_pick(skip: Option<u64>, handles: Map<u64, PluginSession>) -> spec_fn((u64, PublisherInfo)) -> Option<PluginSession> {
    |e: (u64, PublisherInfo)| if Some(e.0) != skip && handles.contains_key(e.0) { Some(handles[e.0]) } else { None }
}

/// The publishers in `pubs` other than `user`, in order.
pub open spec fn other_publishers(pubs: Seq<(u64, PublisherInfo)>, user: u64) -> Seq<PublisherInfo> {
    pubs.filter_map(other_pick(user))
}

/// What an entry of the publisher table contributes to the other publishers.
pub open spec fn other_pick(user: u64) -> spec_fn((u64, PublisherInfo)) -> Option<PublisherInfo> {
    |e: (u64, PublisherInfo)| if e.0 != user { Some(e.1) } else { None }
}

/// The list entry of a room.
pub open spec fn list_entry(r: Room) -> RoomListEntry {
    RoomListEntry {
        room: r.id,
        description: r.config.description,
        max_publishers: r.config.max_publishers,
        bitrate: r.config.bitrate,
        num_participants: r.publishers@.dom().len() as usize,
    }
}

/// The list entries of the public rooms, in order.
pub open spec fn room_list(rooms: Seq<(u64, Room)>) -> Seq<RoomListEntry> {
    rooms.filter_map(list_pick())
}

/// What an entry of the room table contributes to the room list.
pub open spec fn list_pick() -> spec_fn((u64, Room)) -> Option<RoomListEntry> {
    |e: (u64, Room)| if !e.1.config.is_private { Some(list_entry(e.1)) } else { None }
}

/// The participants of a room, in order.
pub open spec fn participants(pubs: Seq<(u64, PublisherInfo)>) -> Seq<Participant> {
    pubs.map_values(|e: (u64, PublisherInfo)| Participant { id: e.1.user_id, display: e.1.display, talking: e.1.talking })
}

/// The sessions of the active subscriber handles of user `uid`, in order.
pub open spec fn subscriber_sessions(hs: Seq<(HandleKey, HandleState)>, uid: u64) -> Seq<PluginSession> {
    hs.filter_map(subscriber_pick(uid))
}

/// What an entry of the handle table contributes to the sessions of user `uid`.
pub open spec fn subscriber_pick(uid: u64) -> spec_fn((HandleKey, HandleState)) -> Option<PluginSession> {
    |e: (HandleKey, HandleState)|
        if e.1 matches HandleState::Subscriber { user_id, active: true, .. } && user_id == uid {
            Some(PluginSession { session_id: SessionId(e.0.session), handle_id: HandleId(e.0.handle) })
        } else {
            None
        }
}

/// Where media of publisher `user` goes: for each subscriber of its feed that
/// is not paused, in order, the sessions of that subscriber's active handles.
pub open spec fn fanout(subs: Seq<(u64, SubscriberInfo)>, user: u64, hs: Seq<(HandleKey, HandleState)>) -> Seq<PluginSession> {
    subs.map_values(|e: (u64, SubscriberInfo)|
        if e.1.feed == user && !e.1.paused { subscriber_sessions(hs, e.0) } else { Seq::<PluginSession>::empty() }).flatten()
}

/// What a handle's state is reported as.
#[derive(Clone, Debug)]
pub enum VideoRoomQuery {
    Idle,
    Publisher { room: RoomId, id: u64, display: Option<String>, active: bool },
    Subscriber { room: RoomId, id: u64, feed: u64, active: bool },
}

/// The room and user id of the handle under `key` if it is an active
/// publisher.
pub open spec fn media_source(handles: Map<HandleKey, HandleState>, key: HandleKey) -> Option<(u64, u64)> {
    if handles.contains_key(key) {
        match handles[key] {
            HandleState::Publisher { room_id, user_id, active: true, .. } => Some((room_id, user_id)),
            _ => None,
        }
    } else {
        None
    }
}


/// Nothing but the rooms changed.
pub open spec fn same_handles(a: VideoRoomState, b: VideoRoomState) -> bool {
    &&& b.handles() == a.handles()
    &&& b.pub_handles() == a.pub_handles()
    &&& b.next_user() == a.next_user()
}

/// Nothing changed.
pub open spec fn unchanged(a: VideoRoomState, b: VideoRoomState) -> bool {
    same_handles(a, b) && b.reg() == a.reg()
}

/// The configuration a `create` request describes.
pub open spec fn requested_config(req: VideoRoomRequest, c: RoomConfig) -> bool {
    &&& (req.description matches Some(d) ==> c.description == d)
    &&& (req.description is None ==> c.description@ == "VideoRoom"@)
    &&& c.max_publishers == (if let Some(m) = req.max_publishers { m } else { 6u32 })
    &&& c.bitrate == (if let Some(b) = req.bitrate { b } else { 0u64 })
    &&& c.is_private == (if let Some(p) = req.is_private { p } else { false })
    &&& c.pin == req.pin
    &&& c.secret == req.secret
}

/// The message of an error about a missing room.
pub open spec fn no_such_room(id: u64) -> Seq<char> {
    "No such room "@ + decimal(id as nat)
}

/// The message of an error about a missing feed.
pub open spec fn no_such_feed(feed: u64, room: u64) -> Seq<char> {
    "No such feed "@ + decimal(feed as nat) + " in room "@ + decimal(room as nat)
}

/// The entry of a new publisher.
pub open spec fn new_publisher(user: u64, display: Option<String>, p: PublisherInfo) -> bool {
    &&& p.user_id == user
    &&& p.display == display
    &&& p.audio_codec matches Some(a) && a@ == "opus"@
    &&& p.video_codec matches Some(v) && v@ == "vp8"@
    &&& !p.talking
}

/// The subscribers of `m` that do not watch `feed`.
pub open spec fn without_watchers(m: Map<u64, SubscriberInfo>, feed: u64) -> Map<u64, SubscriberInfo> {
    Map::new(|u: u64| m.contains_key(u) && m[u].feed != feed, |u: u64| m[u])
}

/// A publisher joins room `room_id` with `display`.
pub open spec fn join_publisher_post(
    old: VideoRoomState,
    new: VideoRoomState,
    session: PluginSession,
    room_id: u64,
    display: Option<String>,
    out: (Result<VideoRoomReply, PluginError>, Option<RoomNotice>),
) -> bool {
    let rooms = old.reg().map();
    if !rooms.contains_key(room_id) {
        is_plugin_error(out.0, no_such_room(room_id)) && out.1 is None && unchanged(old, new)
    } else if rooms[room_id].publishers@.dom().len() as u32 >= rooms[room_id].config.max_publishers {
        is_plugin_error(out.0, "Room is full"@) && out.1 is None && unchanged(old, new)
    } else {
        let user = old.next_user();
        let room = new.reg().map()[room_id];
        &&& new.next_user() == vstd::wrapping::u64_specs::wrapping_add(user, 1)
        &&& new.reg().next_auto_id() == old.reg().next_auto_id()
        &&& new.reg().map() == rooms.insert(room_id, room)
        &&& room.id == room_id
        &&& room.config == rooms[room_id].config
        &&& room.subscribers == rooms[room_id].subscribers
        &&& room.publishers@.dom() == rooms[room_id].publishers@.dom().insert(user)
        &&& forall|u: u64| u != user && #[trigger] rooms[room_id].publishers@.contains_key(u)
            ==> room.publishers@[u] == rooms[room_id].publishers@[u]
        &&& new_publisher(user, display, room.publishers@[user])
        &&& new.handles() == old.handles().insert(key_of(session),
            HandleState::Publisher { room_id, user_id: user, display, active: false })
        &&& new.pub_handles() == old.pub_handles().insert(user, session)
        &&& out.0 matches Ok(VideoRoomReply::Joined { room: r, id, description, publishers })
            && r == room_id && id == user && description == room.config.description
            && publishers@ == other_publishers(room.publishers.entries(), user)
        &&& out.1 matches Some(n) && n.targets@ == notice_targets(room.publishers.entries(), Some(user), new.pub_handles())
            && n.event == (RoomEvent::PublisherJoined { room: room_id, id: user, display })
    }
}

/// A subscriber attaches to `feed` in room `room_id`.
pub open spec fn join_subscriber_post(
    old: VideoRoomState,
    new: VideoRoomState,
    session: PluginSession,
    room_id: u64,
    feed: u64,
    wait: bool,
    out: (Result<VideoRoomReply, PluginError>, Option<RoomNotice>),
) -> bool {
    let rooms = old.reg().map();
    if !rooms.contains_key(room_id) {
        is_plugin_error(out.0, no_such_room(room_id)) && out.1 is None && unchanged(old, new)
    } else if !rooms[room_id].publishers@.contains_key(feed) {
        is_plugin_error(out.0, no_such_feed(feed, room_id)) && out.1 is None && unchanged(old, new)
    } else {
        let user = old.next_user();
        let room = new.reg().map()[room_id];
        &&& new.next_user() == vstd::wrapping::u64_specs::wrapping_add(user, 1)
        &&& new.reg().next_auto_id() == old.reg().next_auto_id()
        &&& new.reg().map() == rooms.insert(room_id, room)
        &&& room.id == room_id
        &&& room.config == rooms[room_id].config
        &&& room.publishers == rooms[room_id].publishers
        &&& room.subscribers@ == rooms[room_id].subscribers@.insert(user, SubscriberInfo { user_id: user, feed, paused: false })
        &&& new.handles() == old.handles().insert(key_of(session),
            HandleState::Subscriber { room_id, user_id: user, feed, active: false })
        &&& new.pub_handles() == old.pub_handles()
        &&& out.0 == Ok::<VideoRoomReply, PluginError>(VideoRoomReply::Attached {
            room: room_id,
            id: user,
            display: rooms[room_id].publishers@[feed].display,
            wait,
        })
        &&& out.1 is None
    }
}

/// A handle leaves its room.
pub open spec fn leave_post(
    old: VideoRoomState,
    new: VideoRoomState,
    session: PluginSession,
    out: (Result<VideoRoomReply, PluginError>, Option<RoomNotice>),
) -> bool {
    let key = key_of(session);
    let rooms = old.reg().map();
    if !old.handles().contains_key(key) {
        is_plugin_error(out.0, "Not in a room"@) && out.1 is None && unchanged(old, new)
    } else {
        &&& out.0 == Ok::<VideoRoomReply, PluginError>(VideoRoomReply::Leaving)
        &&& new.handles() == old.handles().remove(key)
        &&& new.next_user() == old.next_user()
        &&& new.reg().next_auto_id() == old.reg().next_auto_id()
        &&& match old.handles()[key] {
            HandleState::Publisher { room_id, user_id, .. } => {
                &&& new.pub_handles() == old.pub_handles().remove(user_id)
                &&& if rooms.contains_key(room_id) {
                    let room = new.reg().map()[room_id];
                    &&& new.reg().map() == rooms.insert(room_id, room)
                    &&& room.id == room_id
                    &&& room.config == rooms[room_id].config
                    &&& room.publishers@ == rooms[room_id].publishers@.remove(user_id)
                    &&& room.subscribers@ == without_watchers(rooms[room_id].subscribers@, user_id)
                    &&& out.1 matches Some(n)
                        && n.targets@ == notice_targets(room.publishers.entries(), None, new.pub_handles())
                        && n.event == (RoomEvent::PublisherLeft { room: room_id, id: user_id })
                } else {
                    new.reg() == old.reg() && out.1 is None
                }
            },
            HandleState::Subscriber { room_id, user_id, .. } => {
                &&& new.pub_handles() == old.pub_handles()
                &&& out.1 is None
                &&& if rooms.contains_key(room_id) {
                    let room = new.reg().map()[room_id];
                    &&& new.reg().map() == rooms.insert(room_id, room)
                    &&& room.id == room_id
                    &&& room.config == rooms[room_id].config
                    &&& room.publishers == rooms[room_id].publishers
                    &&& room.subscribers@ == rooms[room_id].subscribers@.remove(user_id)
                } else {
                    new.reg() == old.reg()
                }
            },
            HandleState::Idle => new.pub_handles() == old.pub_handles() && new.reg() == old.reg() && out.1 is None,
        }
    }
}

/// The answer to a publisher's offer: the same SDP, as an answer.
pub open spec fn answer_to(jsep: Option<Jsep>) -> Option<Jsep> {
    match jsep {
        Some(j) => if j.jsep_type == JsepType::Offer {
            Some(Jsep { jsep_type: JsepType::Answer, sdp: j.sdp, trickle: j.trickle })
        } else {
            None
        },
        None => None,
    }
}


/// A handle configures its publishing.
pub open spec fn configure_post(
    old: VideoRoomState,
    new: VideoRoomState,
    session: PluginSession,
    audio: bool,
    video: bool,
    jsep: Option<Jsep>,
    out: (Result<VideoRoomReply, PluginError>, Option<RoomNotice>),
) -> bool {
    let key = key_of(session);
    if old.handles().contains_key(key) && !(old.handles()[key] is Publisher) {
        is_plugin_error(out.0, "Not a publisher"@) && out.1 is None && unchanged(old, new)
    } else {
        &&& new.reg() == old.reg()
        &&& new.pub_handles() == old.pub_handles()
        &&& new.next_user() == old.next_user()
        &&& (old.handles().contains_key(key) ==> new.handles() == old.handles().insert(key, with_active(old.handles()[key], true)))
        &&& (!old.handles().contains_key(key) ==> new.handles() == old.handles())
        &&& out.0 == Ok::<VideoRoomReply, PluginError>(VideoRoomReply::Configured { audio, video, answer: answer_to(jsep) })
        &&& out.1 is None
    }
}

/// A subscriber starts.
pub open spec fn start_post(
    old: VideoRoomState,
    new: VideoRoomState,
    session: PluginSession,
    out: (Result<VideoRoomReply, PluginError>, Option<RoomNotice>),
) -> bool {
    let key = key_of(session);
    &&& new.reg() == old.reg()
    &&& new.pub_handles() == old.pub_handles()
    &&& new.next_user() == old.next_user()
    &&& (old.handles().contains_key(key) && old.handles()[key] is Subscriber
        ==> new.handles() == old.handles().insert(key, with_active(old.handles()[key], true)))
    &&& (!(old.handles().contains_key(key) && old.handles()[key] is Subscriber) ==> new.handles() == old.handles())
    &&& out.0 == Ok::<VideoRoomReply, PluginError>(VideoRoomReply::Started)
    &&& out.1 is None
}

/// A publisher unpublishes.
pub open spec fn unpublish_post(
    old: VideoRoomState,
    new: VideoRoomState,
    session: PluginSession,
    out: (Result<VideoRoomReply, PluginError>, Option<RoomNotice>),
) -> bool {
    let key = key_of(session);
    &&& out.0 == Ok::<VideoRoomReply, PluginError>(VideoRoomReply::Unpublished)
    &&& new.reg() == old.reg()
    &&& new.pub_handles() == old.pub_handles()
    &&& new.next_user() == old.next_user()
    &&& if old.handles().contains_key(key) && old.handles()[key] is Publisher {
        let room_id = old.handles()[key]->Publisher_room_id;
        let user_id = old.handles()[key]->Publisher_user_id;
        &&& new.handles() == old.handles().insert(key, with_active(old.handles()[key], false))
        &&& if old.reg().map().contains_key(room_id) {
            out.1 matches Some(n)
                && n.targets@ == notice_targets(old.reg().map()[room_id].publishers.entries(), None, old.pub_handles())
                && n.event == (RoomEvent::PublisherLeft { room: room_id, id: user_id })
        } else {
            out.1 is None
        }
    } else {
        new.handles() == old.handles() && out.1 is None
    }
}

/// The requests the plugin knows.
pub open spec fn is_videoroom_request(q: Seq<char>) -> bool {
    q == "create"@ || q == "destroy"@ || q == "exists"@ || q == "list"@ || q == "listparticipants"@ || q == "join"@
        || q == "publish"@ || q == "configure"@ || q == "start"@ || q == "unpublish"@ || q == "leave"@
}

proof fn lemma_videoroom_requests_distinct()
    ensures
        "create"@ != "destroy"@, "create"@ != "exists"@, "create"@ != "list"@, "create"@ != "listparticipants"@,
        "create"@ != "join"@, "create"@ != "publish"@, "create"@ != "configure"@, "create"@ != "start"@,
        "create"@ != "unpublish"@, "create"@ != "leave"@,
        "destroy"@ != "exists"@, "destroy"@ != "list"@, "destroy"@ != "listparticipants"@, "destroy"@ != "join"@,
        "destroy"@ != "publish"@, "destroy"@ != "configure"@, "destroy"@ != "start"@, "destroy"@ != "unpublish"@,
        "destroy"@ != "leave"@,
        "exists"@ != "list"@, "exists"@ != "listparticipants"@, "exists"@ != "join"@, "exists"@ != "publish"@,
        "exists"@ != "configure"@, "exists"@ != "start"@, "exists"@ != "unpublish"@, "exists"@ != "leave"@,
        "list"@ != "listparticipants"@, "list"@ != "join"@, "list"@ != "publish"@, "list"@ != "configure"@,
        "list"@ != "start"@, "list"@ != "unpublish"@, "list"@ != "leave"@,
        "listparticipants"@ != "join"@, "listparticipants"@ != "publish"@, "listparticipants"@ != "configure"@,
        "listparticipants"@ != "start"@, "listparticipants"@ != "unpublish"@, "listparticipants"@ != "leave"@,
        "join"@ != "publish"@, "join"@ != "configure"@, "join"@ != "start"@, "join"@ != "unpublish"@, "join"@ != "leave"@,
        "publish"@ != "configure"@, "publish"@ != "start"@, "publish"@ != "unpublish"@, "publish"@ != "leave"@,
        "configure"@ != "start"@, "configure"@ != "unpublish"@, "configure"@ != "leave"@,
        "start"@ != "unpublish"@, "start"@ != "leave"@,
        "unpublish"@ != "leave"@,
        "publisher"@ != "subscriber"@, "publisher"@ != "listener"@,
{
    reveal_strlit("create");
    reveal_strlit("destroy");
    reveal_strlit("exists");
    reveal_strlit("list");
    reveal_strlit("listparticipants");
    reveal_strlit("join");
    reveal_strlit("publish");
    reveal_strlit("configure");
    reveal_strlit("start");
    reveal_strlit("unpublish");
    reveal_strlit("leave");
    reveal_strlit("publisher");
    reveal_strlit("subscriber");
    reveal_strlit("listener");
    assert("create"@.len() == 6 && "destroy"@.len() == 7 && "exists"@.len() == 6 && "list"@.len() == 4);
    assert("listparticipants"@.len() == 16 && "join"@.len() == 4 && "publish"@.len() == 7);
    assert("configure"@.len() == 9 && "start"@.len() == 5 && "unpublish"@.len() == 9 && "leave"@.len() == 5);
    assert("publisher"@.len() == 9 && "subscriber"@.len() == 10 && "listener"@.len() == 8);
    assert("create"@[0] != "exists"@[0]);
    assert("destroy"@[0] != "publish"@[0]);
    assert("list"@[0] != "join"@[0]);
    assert("configure"@[0] != "unpublish"@[0]);
    assert("start"@[0] != "leave"@[0]);
}

/// The report of a handle state.
pub open spec fn query_of(s: HandleState) -> VideoRoomQuery {
    match s {
        HandleState::Idle => VideoRoomQuery::Idle,
        HandleState::Publisher { room_id, user_id, display, active } => VideoRoomQuery::Publisher { room: room_id, id: user_id, display, active },
        HandleState::Subscriber { room_id, user_id, feed, active } => VideoRoomQuery::Subscriber { room: room_id, id: user_id, feed, active },
    }
}

/// Removes the subscribers that watch `feed`.
fn drop_watchers(subs: &mut Table<u64, SubscriberInfo>, feed: u64)
    requires
        old(subs).wf(),
    ensures
        final(subs).wf(),
        final(subs)@ == without_watchers(old(subs)@, feed),
{
    let ks = subs.keys();
    let ghost m0 = old(subs)@;
    let mut i: usize = 0;
    while i < ks.len()
        invariant
            subs.wf(),
            ks@.to_set() == m0.dom(),
            ks@.no_duplicates(),
            i <= ks@.len(),
            subs@ == Map::new(|u: u64| m0.contains_key(u) && !(ks@.take(i as int).contains(u) && m0[u].feed == feed), |u: u64| m0[u]),
        decreases ks@.len() - i,
    {
        let k = ks[i];
        proof {
            assert(ks@.to_set().contains(k));
            assert(ks@.take(i + 1) =~= ks@.take(i as int).push(k));
            assert(!ks@.take(i as int).contains(k)) by {
                if ks@.take(i as int).contains(k) {
                    let j = choose|j: int| 0 <= j < i && ks@.take(i as int)[j] == k;
                    assert(ks@[j] == ks@[i as int]);
                }
            }
            assert(subs@.contains_key(k) && subs@[k] == m0[k]);
        }
        let ghost before = subs@;
        let watching = match subs.get(&k) {
            Some(v) => v.feed == feed,
            None => false,
        };
        if watching {
            subs.remove(&k);
        }
        proof {
            let target = Map::new(|u: u64| m0.contains_key(u) && !(ks@.take(i + 1).contains(u) && m0[u].feed == feed), |u: u64| m0[u]);
            assert forall|u: u64| #[trigger] subs@.contains_key(u) == target.contains_key(u) by {
                if u != k {
                    assert(ks@.take(i + 1).contains(u) == ks@.take(i as int).contains(u));
                } else {
                    assert(ks@.take(i + 1)[i as int] == k);
                }
            }
            assert(subs@ =~= target);
        }
        i = i + 1;
    }
    proof {
        assert(ks@.take(ks@.len() as int) =~= ks@);
        assert forall|u: u64| #[trigger] m0.contains_key(u) implies ks@.contains(u) by {
            assert(ks@.to_set().contains(u));
        }
        assert(subs@ =~= without_watchers(m0, feed));
    }
}

/// The message of an error about a missing room.
fn no_such_room_text(id: u64) -> (m: String)
    ensures
        m@ == no_such_room(id),
{
    let mut m = "No such room ".to_owned();
    crate::text::push_decimal(&mut m, id);
    m
}

/// What a request does: the post-condition of `handle_request`.
pub open spec fn request_post(
    old: VideoRoomState,
    new: VideoRoomState,
    session: PluginSession,
    req: VideoRoomRequest,
    jsep: Option<Jsep>,
    out: (Result<VideoRoomReply, PluginError>, Option<RoomNotice>),
) -> bool {
    let q = req.request@;
    let rooms = old.reg().map();
    &&& q == "create"@ ==> same_handles(old, new) && out.1 is None && (out.0 matches Ok(VideoRoomReply::Created { room }) && {
        &&& (req.room matches Some(i) ==> room == i && new.reg().next_auto_id() == old.reg().next_auto_id())
        &&& (req.room is None ==> room == old.reg().next_auto_id()
            && new.reg().next_auto_id() == vstd::wrapping::u64_specs::wrapping_add(old.reg().next_auto_id(), 1))
        &&& new.reg().map() == rooms.insert(room, new.reg().map()[room])
        &&& requested_config(req, new.reg().map()[room].config)
        &&& new.reg().map()[room].publishers@ == Map::<u64, PublisherInfo>::empty()
        &&& new.reg().map()[room].subscribers@ == Map::<u64, SubscriberInfo>::empty()
    })
    &&& q == "destroy"@ ==> same_handles(old, new) && out.1 is None && (match req.room {
        None => is_plugin_error(out.0, "Missing room ID"@) && unchanged(old, new),
        Some(id) => if rooms.contains_key(id) {
            out.0 == Ok::<VideoRoomReply, PluginError>(VideoRoomReply::Destroyed { room: id })
                && new.reg().map() == rooms.remove(id)
                && new.reg().next_auto_id() == old.reg().next_auto_id()
        } else {
            is_plugin_error(out.0, no_such_room(id)) && unchanged(old, new)
        },
    })
    &&& q == "exists"@ ==> unchanged(old, new) && out.1 is None && (match req.room {
        None => is_plugin_error(out.0, "Missing room ID"@),
        Some(id) => out.0 == Ok::<VideoRoomReply, PluginError>(VideoRoomReply::Exists { room: id, exists: rooms.contains_key(id) }),
    })
    &&& q == "list"@ ==> unchanged(old, new) && out.1 is None
        && (out.0 matches Ok(VideoRoomReply::List { list }) && list@ == room_list(old.reg().entries()))
    &&& q == "listparticipants"@ ==> unchanged(old, new) && out.1 is None && (match req.room {
        None => is_plugin_error(out.0, "Missing room ID"@),
        Some(id) => if rooms.contains_key(id) {
            out.0 matches Ok(VideoRoomReply::Participants { room, participants: ps })
                && room == id && ps@ == participants(rooms[id].publishers.entries())
        } else {
            is_plugin_error(out.0, no_such_room(id))
        },
    })
    &&& q == "join"@ ==> (match req.room {
        None => is_plugin_error(out.0, "Missing room ID"@) && out.1 is None && unchanged(old, new),
        Some(id) => {
            let p = if let Some(t) = req.ptype { t@ } else { "publisher"@ };
            if p == "publisher"@ {
                join_publisher_post(old, new, session, id, req.display, out)
            } else if p == "subscriber"@ || p == "listener"@ {
                match req.feed {
                    None => is_plugin_error(out.0, "Missing feed ID for subscriber"@) && out.1 is None
                        && unchanged(old, new),
                    Some(f) => join_subscriber_post(old, new, session, id, f, jsep is Some, out),
                }
            } else {
                is_plugin_error(out.0, "Unknown ptype: "@ + p) && out.1 is None && unchanged(old, new)
            }
        },
    })
    &&& (q == "publish"@ || q == "configure"@) ==> configure_post(old, new, session, req.audio, req.video, jsep, out)
    &&& q == "start"@ ==> start_post(old, new, session, out)
    &&& q == "unpublish"@ ==> unpublish_post(old, new, session, out)
    &&& q == "leave"@ ==> leave_post(old, new, session, out)
    &&& !is_videoroom_request(q) ==> is_plugin_error(out.0, "Unknown request: "@ + q) && out.1 is None
        && unchanged(old, new)

}

/// The videoroom plugin's state: its rooms, the state of each handle, the
/// handle of each publisher, and the next user id to hand out.
#[derive(Debug)]
pub struct VideoRoomState {
    rooms: RoomRegistry,
    handles: Table<HandleKey, HandleState>,
    publisher_handles: Table<u64, PluginSession>,
    next_user_id: u64,
}

impl VideoRoomState {
    /// The plugin's name, package, version, description and author.
    pub fn info() -> (i: PluginInfo)
        ensures
            info_is(i, "Janus VideoRoom plugin"@, "janus.plugin.videoroom"@, 1, "0.1.0"@, "SFU-based multi-party video conferencing room."@, "Steve Seguin"@),
    {
        PluginInfo {
            name: "Janus VideoRoom plugin",
            package: "janus.plugin.videoroom",
            version: 1,
            version_string: "0.1.0",
            description: "SFU-based multi-party video conferencing room.",
            author: "Steve Seguin",
        }
    }

    pub closed spec fn reg(&self) -> RoomRegistry {
        self.rooms
    }

    pub closed spec fn handles(&self) -> Map<HandleKey, HandleState> {
        self.handles@
    }

    pub closed spec fn handle_entries(&self) -> Seq<(HandleKey, HandleState)> {
        self.handles.entries()
    }

    pub closed spec fn pub_handles(&self) -> Map<u64, PluginSession> {
        self.publisher_handles@
    }

    pub closed spec fn next_user(&self) -> u64 {
        self.next_user_id
    }

    pub closed spec fn wf(&self) -> bool {
        self.rooms.wf() && self.handles.wf() && self.publisher_handles.wf()
    }

    /// A plugin with no rooms and no handles; user ids start at 1.
    pub fn new() -> (s: Self)
        ensures
            s.wf(),
            s.reg().map() == Map::<u64, Room>::empty(),
            feeds_present(s.reg().map()),
            ids_below(s.reg().map(), s.next_user()),
            s.reg().next_auto_id() == 1000,
            s.handles() == Map::<HandleKey, HandleState>::empty(),
            s.pub_handles() == Map::<u64, PluginSession>::empty(),
            s.next_user() == 1,
    {
        VideoRoomState { rooms: RoomRegistry::new(), handles: Table::new(), publisher_handles: Table::new(), next_user_id: 1 }
    }

    /// The room registry.
    pub fn rooms(&self) -> (r: &RoomRegistry)
        requires
            self.wf(),
        ensures
            *r == self.reg(),
            r.wf(),
    {
        &self.rooms
    }

    /// Creates the demo room 1234 ("Demo Room", at most six publishers), as
    /// the plugin does when it starts.
    pub fn init_default_room(&mut self)
        requires
            old(self).wf(),
        ensures
            final(self).wf(),
            final(self).handles() == old(self).handles(),
            final(self).pub_handles() == old(self).pub_handles(),
            final(self).next_user() == old(self).next_user(),
            final(self).reg().next_auto_id() == old(self).reg().next_auto_id(),
            final(self).reg().map() == old(self).reg().map().insert(1234, final(self).reg().map()[1234]),
            final(self).reg().map()[1234].config.description@ == "Demo Room"@,
            final(self).reg().map()[1234].config.max_publishers == 6,
            final(self).reg().map()[1234].config.bitrate == 0,
            !final(self).reg().map()[1234].config.is_private,
            final(self).reg().map()[1234].config.pin is None,
            final(self).reg().map()[1234].config.secret is None,
            final(self).reg().map()[1234].publishers@ == Map::<u64, PublisherInfo>::empty(),
            final(self).reg().map()[1234].subscribers@ == Map::<u64, SubscriberInfo>::empty(),
    {
        let d = RoomConfig::default();
        let config = RoomConfig { description: "Demo Room".to_owned(), max_publishers: 6, ..d };
        self.rooms.create(Some(1234), config);
    }

    /// Forgets every handle and publisher handle, as the plugin does when it
    /// is destroyed.
    pub fn clear_handles(&mut self)
        requires
            old(self).wf(),
        ensures
            final(self).wf(),
            final(self).reg() == old(self).reg(),
            final(self).next_user() == old(self).next_user(),
            final(self).handles() == Map::<HandleKey, HandleState>::empty(),
            final(self).pub_handles() == Map::<u64, PluginSession>::empty(),
    {
        self.handles = Table::new();
        self.publisher_handles = Table::new();
    }

    /// A new handle starts with no state.
    pub fn create_session(&mut self, session: &PluginSession)
        requires
            old(self).wf(),
        ensures
            final(self).wf(),
            final(self).reg() == old(self).reg(),
            final(self).pub_handles() == old(self).pub_handles(),
            final(self).next_user() == old(self).next_user(),
            final(self).handles() == old(self).handles().insert(key_of(*session), HandleState::Idle),
    {
        self.handles.insert(handle_key(session), HandleState::Idle);
    }

    /// What a handle's state is reported as.
    pub fn query_session(&self, session: &PluginSession) -> (r: Result<VideoRoomQuery, PluginError>)
        requires
            self.wf(),
        ensures
            !self.handles().contains_key(key_of(*session)) ==> is_session_not_found(r, session_text(*session)),
            self.handles().contains_key(key_of(*session))
                ==> r == Ok::<VideoRoomQuery, PluginError>(query_of(self.handles()[key_of(*session)])),
    {
        match self.handles.get(&handle_key(session)) {
            Some(HandleState::Idle) => Ok(VideoRoomQuery::Idle),
            Some(HandleState::Publisher { room_id, user_id, display, active }) => Ok(VideoRoomQuery::Publisher {
                room: *room_id,
                id: *user_id,
                display: crate::text::clone_opt_string(display),
                active: *active,
            }),
            Some(HandleState::Subscriber { room_id, user_id, feed, active }) => Ok(VideoRoomQuery::Subscriber {
                room: *room_id,
                id: *user_id,
                feed: *feed,
                active: *active,
            }),
            None => Err(PluginError::SessionNotFound(session.to_string())),
        }
    }

    /// Sets the `active` flag of a handle that has joined a room.
    fn set_active(&mut self, key: HandleKey, a: bool)
        requires
            old(self).wf(),
        ensures
            final(self).wf(),
            final(self).reg() == old(self).reg(),
            final(self).pub_handles() == old(self).pub_handles(),
            final(self).next_user() == old(self).next_user(),
            old(self).handles().contains_key(key)
                ==> final(self).handles() == old(self).handles().insert(key, with_active(old(self).handles()[key], a)),
            !old(self).handles().contains_key(key) ==> final(self).handles() == old(self).handles(),
            key_seq(final(self).handle_entries()) == key_seq(old(self).handle_entries()),
    {
        let next = match self.handles.get(&key) {
            Some(HandleState::Publisher { room_id, user_id, display, .. }) => Some(HandleState::Publisher {
                room_id: *room_id,
                user_id: *user_id,
                display: crate::text::clone_opt_string(display),
                active: a,
            }),
            Some(HandleState::Subscriber { room_id, user_id, feed, .. }) => Some(HandleState::Subscriber {
                room_id: *room_id,
                user_id: *user_id,
                feed: *feed,
                active: a,
            }),
            _ => None,
        };
        if let Some(st) = next {
            self.handles.insert(key, st);
            proof {
                assert(has_key(old(self).handles.entries(), key));
            }
        } else {
            proof {
                if old(self).handles().contains_key(key) {
                    assert(old(self).handles().insert(key, with_active(old(self).handles()[key], a)) =~= old(self).handles());
                }
            }
        }
    }

    /// The sessions of the active subscriber handles of user `uid`.
    fn subscriber_handles(&self, uid: u64) -> (r: Vec<PluginSession>)
        requires
            self.wf(),
        ensures
            r@ == subscriber_sessions(self.handle_entries(), uid),
    {
        let ghost hs = self.handle_entries();
        let n = self.handles.len();
        let mut out: Vec<PluginSession> = Vec::new();
        let mut i: usize = 0;
        while i < n
            invariant
                self.wf(),
                hs == self.handle_entries(),
                n == hs.len(),
                i <= n,
                out@ == subscriber_sessions(hs.take(i as int), uid),
            decreases n - i,
        {
            let e = self.handles.entry_at(i);
            proof {
                hs.lemma_filter_map_take_succ(subscriber_pick(uid), i as int);
            }
            if let HandleState::Subscriber { user_id, active: true, .. } = &e.1 {
                if *user_id == uid {
                    out.push(PluginSession::new(SessionId(e.0.session), HandleId(e.0.handle)));
                }
            }
            i = i + 1;
        }
        proof {
            assert(hs.take(n as int) =~= hs);
        }
        out
    }

    /// Where an RTP or RTCP packet from `session` is relayed: nowhere unless
    /// the handle is an active publisher; then to every active handle of each
    /// subscriber of its feed that is not paused.
    pub fn fanout_targets(&self, session: &PluginSession) -> (targets: Vec<PluginSession>)
        requires
            self.wf(),
        ensures
            targets@ == (match media_source(self.handles(), key_of(*session)) {
                Some((room, user)) => if self.reg().map().contains_key(room) {
                    fanout(self.reg().map()[room].subscribers.entries(), user, self.handle_entries())
                } else {
                    Seq::<PluginSession>::empty()
                },
                None => Seq::<PluginSession>::empty(),
            }),
    {
        let mut out: Vec<PluginSession> = Vec::new();
        let (room_id, user_id) = match self.handles.get(&handle_key(session)) {
            Some(HandleState::Publisher { room_id, user_id, active: true, .. }) => (*room_id, *user_id),
            _ => { return out; },
        };
        let room = match self.rooms.get(room_id) {
            Some(r) => r,
            None => { return out; },
        };
        proof {
            self.rooms.lemma_wf();
        }
        let ghost subs = room.subscribers.entries();
        let ghost hs = self.handle_entries();
        let ghost f = |e: (u64, SubscriberInfo)|
            if e.1.feed == user_id && !e.1.paused { subscriber_sessions(hs, e.0) } else { Seq::<PluginSession>::empty() };
        let n = room.subscribers.len();
        let mut i: usize = 0;
        while i < n
            invariant
                self.wf(),
                hs == self.handle_entries(),
                subs == room.subscribers.entries(),
                room.subscribers.wf(),
                n == subs.len(),
                i <= n,
                f == (|e: (u64, SubscriberInfo)|
                    if e.1.feed == user_id && !e.1.paused { subscriber_sessions(hs, e.0) } else { Seq::<PluginSession>::empty() }),
                out@ == subs.take(i as int).map_values(f).flatten(),
            decreases n - i,
        {
            let e = room.subscribers.entry_at(i);
            proof {
                assert(subs.take(i + 1) =~= subs.take(i as int).push(subs[i as int]));
                assert(subs.take(i + 1).map_values(f) =~= subs.take(i as int).map_values(f).push(f(subs[i as int])));
                subs.take(i as int).map_values(f).lemma_flatten_push(f(subs[i as int]));
            }
            if e.1.feed == user_id && !e.1.paused {
                let mut more = self.subscriber_handles(e.0);
                out.append(&mut more);
            }
            i = i + 1;
        }
        proof {
            assert(subs.take(n as int) =~= subs);
        }
        out
    }

    /// The sessions of the publishers of room `room_id` (but `skip`) that have
    /// a known handle.
    fn notice_sessions(&self, room_id: RoomId, skip: Option<u64>) -> (r: Vec<PluginSession>)
        requires
            self.wf(),
            self.reg().map().contains_key(room_id),
        ensures
            r@ == notice_targets(self.reg().map()[room_id].publishers.entries(), skip, self.pub_handles()),
    {
        let room = self.rooms.get(room_id).unwrap();
        proof {
            self.rooms.lemma_wf();
        }
        let ghost ps = room.publishers.entries();
        let n = room.publishers.len();
        let mut out: Vec<PluginSession> = Vec::new();
        let mut i: usize = 0;
        while i < n
            invariant
                self.wf(),
                ps == room.publishers.entries(),
                room.publishers.wf(),
                n == ps.len(),
                i <= n,
                out@ == notice_targets(ps.take(i as int), skip, self.pub_handles()),
            decreases n - i,
        {
            let e = room.publishers.entry_at(i);
            proof {
                ps.lemma_filter_map_take_succ(notice_pick(skip, self.pub_handles()), i as int);
            }
            let skipped = match skip {
                Some(k) => k == e.0,
                None => false,
            };
            if !skipped {
                if let Some(ps2) = self.publisher_handles.get(&e.0) {
                    out.push(*ps2);
                }
            }
            i = i + 1;
        }
        proof {
            assert(ps.take(n as int) =~= ps);
        }
        out
    }

    /// The publishers of a room other than `user`.
    fn others(room: &Room, user: u64) -> (r: Vec<PublisherInfo>)
        requires
            room.publishers.wf(),
        ensures
            r@ == other_publishers(room.publishers.entries(), user),
    {
        let ghost ps = room.publishers.entries();
        let n = room.publishers.len();
        let mut out: Vec<PublisherInfo> = Vec::new();
        let mut i: usize = 0;
        while i < n
            invariant
                ps == room.publishers.entries(),
                n == ps.len(),
                i <= n,
                out@ == other_publishers(ps.take(i as int), user),
            decreases n - i,
        {
            let e = room.publishers.entry_at(i);
            proof {
                ps.lemma_filter_map_take_succ(other_pick(user), i as int);
            }
            let ghost out0 = out@;
            if e.0 != user {
                out.push(copy_publisher(&e.1));
                assert(out@ =~= out0 + seq![ps[i as int].1]);
            } else {
                assert(out@ =~= out0 + Seq::<PublisherInfo>::empty());
            }
            i = i + 1;
        }
        proof {
            assert(ps.take(n as int) =~= ps);
        }
        out
    }

    /// The next user id; the counter moves on.
    fn fresh_user(&mut self) -> (u: u64)
        ensures
            u == old(self).next_user(),
            final(self).next_user() == vstd::wrapping::u64_specs::wrapping_add(old(self).next_user(), 1),
            final(self).reg() == old(self).reg(),
            final(self).handles == old(self).handles,
            final(self).publisher_handles == old(self).publisher_handles,
    {
        let u = self.next_user_id;
        self.next_user_id = self.next_user_id.wrapping_add(1);
        u
    }

    /// A publisher joins room `room_id` with `display`.
    fn join_publisher(&mut self, session: &PluginSession, room_id: RoomId, display: Option<String>)
        -> (out: (Result<VideoRoomReply, PluginError>, Option<RoomNotice>))
        requires
            old(self).wf(),
        ensures
            final(self).wf(),
            join_publisher_post(*old(self), *final(self), *session, room_id, display, out),
    {
        let (n, max, description) = match self.rooms.get(room_id) {
            None => {
                return (Err(PluginError::Plugin(no_such_room_text(room_id))), None);
            },
            Some(room) => (room.publishers.len(), room.config.max_publishers, room.config.description.clone()),
        };
        if n as u32 >= max {
            return (Err(PluginError::Plugin("Room is full".to_owned())), None);
        }
        let user = self.fresh_user();
        let (i, mut room) = self.rooms.take(room_id).unwrap();
        proof {
            old(self).rooms.lemma_wf();
        }
        let info = PublisherInfo {
            user_id: user,
            display: crate::text::clone_opt_string(&display),
            audio_codec: Some("opus".to_owned()),
            video_codec: Some("vp8".to_owned()),
            talking: false,
        };
        room.publishers.insert(user, info);
        proof {
            assert(room.publishers@.dom() =~= old(self).reg().map()[room_id].publishers@.dom().insert(user));
        }
        self.rooms.put(i, room);
        proof {
            assert(self.rooms.map() =~= old(self).rooms.map().insert(room_id, self.rooms.map()[room_id]));
        }
        let key = handle_key(session);
        self.handles.insert(key, HandleState::Publisher { room_id, user_id: user, display: crate::text::clone_opt_string(&display), active: false });
        self.publisher_handles.insert(user, *session);
        let room = self.rooms.get(room_id).unwrap();
        let publishers = Self::others(room, user);
        let targets = self.notice_sessions(room_id, Some(user));
        (
            Ok(VideoRoomReply::Joined { room: room_id, id: user, description, publishers }),
            Some(RoomNotice { targets, event: RoomEvent::PublisherJoined { room: room_id, id: user, display } }),
        )
    }

    /// A subscriber attaches to `feed` in room `room_id`.
    fn join_subscriber(&mut self, session: &PluginSession, room_id: RoomId, feed: u64, wait: bool)
        -> (out: (Result<VideoRoomReply, PluginError>, Option<RoomNotice>))
        requires
            old(self).wf(),
        ensures
            final(self).wf(),
            join_subscriber_post(*old(self), *final(self), *session, room_id, feed, wait, out),
    {
        let display = match self.rooms.get(room_id) {
            None => {
                return (Err(PluginError::Plugin(no_such_room_text(room_id))), None);
            },
            Some(room) => match room.publishers.get(&feed) {
                None => {
                    let mut m = "No such feed ".to_owned();
                    crate::text::push_decimal(&mut m, feed);
                    m.append(" in room ");
                    crate::text::push_decimal(&mut m, room_id);
                    return (Err(PluginError::Plugin(m)), None);
                },
                Some(p) => crate::text::clone_opt_string(&p.display),
            },
        };
        let user = self.fresh_user();
        let (i, mut room) = self.rooms.take(room_id).unwrap();
        proof {
            old(self).rooms.lemma_wf();
        }
        room.subscribers.insert(user, SubscriberInfo { user_id: user, feed, paused: false });
        self.rooms.put(i, room);
        proof {
            assert(self.rooms.map() =~= old(self).rooms.map().insert(room_id, self.rooms.map()[room_id]));
        }
        self.handles.insert(handle_key(session), HandleState::Subscriber { room_id, user_id: user, feed, active: false });
        (Ok(VideoRoomReply::Attached { room: room_id, id: user, display, wait }), None)
    }

    /// A handle leaves its room.
    fn leave(&mut self, session: &PluginSession) -> (out: (Result<VideoRoomReply, PluginError>, Option<RoomNotice>))
        requires
            old(self).wf(),
        ensures
            final(self).wf(),
            leave_post(*old(self), *final(self), *session, out),
    {
        let key = handle_key(session);
        let state = match self.handles.remove(&key) {
            None => {
                return (Err(PluginError::Plugin("Not in a room".to_owned())), None);
            },
            Some(st) => st,
        };
        proof {
            old(self).rooms.lemma_wf();
        }
        match state {
            HandleState::Publisher { room_id, user_id, .. } => {
                let notice = match self.rooms.take(room_id) {
                    Some((i, mut room)) => {
                        room.publishers.remove(&user_id);
                        drop_watchers(&mut room.subscribers, user_id);
                        self.rooms.put(i, room);
                        proof {
                            assert(self.rooms.map() =~= old(self).rooms.map().insert(room_id, self.rooms.map()[room_id]));
                        }
                        true
                    },
                    None => false,
                };
                self.publisher_handles.remove(&user_id);
                if notice {
                    let targets = self.notice_sessions(room_id, None);
                    (Ok(VideoRoomReply::Leaving), Some(RoomNotice { targets, event: RoomEvent::PublisherLeft { room: room_id, id: user_id } }))
                } else {
                    (Ok(VideoRoomReply::Leaving), None)
                }
            },
            HandleState::Subscriber { room_id, user_id, .. } => {
                match self.rooms.take(room_id) {
                    Some((i, mut room)) => {
                        room.subscribers.remove(&user_id);
                        self.rooms.put(i, room);
                        proof {
                            assert(self.rooms.map() =~= old(self).rooms.map().insert(room_id, self.rooms.map()[room_id]));
                        }
                    },
                    None => {},
                }
                (Ok(VideoRoomReply::Leaving), None)
            },
            HandleState::Idle => (Ok(VideoRoomReply::Leaving), None),
        }
    }

    /// The entries of the public rooms.
    fn list_rooms(&self) -> (r: Vec<RoomListEntry>)
        requires
            self.wf(),
        ensures
            r@ == room_list(self.reg().entries()),
    {
        let ghost rs = self.reg().entries();
        let n = self.rooms.rooms.len();
        proof {
            self.rooms.lemma_wf();
            assert forall|j: int| 0 <= j < rs.len() implies room_wf(#[trigger] rs[j].0, rs[j].1) by {
                assert(self.reg().map().contains_key(rs[j].0));
            }
        }
        let mut out: Vec<RoomListEntry> = Vec::new();
        let mut i: usize = 0;
        while i < n
            invariant
                self.wf(),
                rs == self.reg().entries(),
                rs == self.rooms.rooms.entries(),
                n == rs.len(),
                i <= n,
                forall|j: int| 0 <= j < rs.len() ==> room_wf(#[trigger] rs[j].0, rs[j].1),
                out@ == room_list(rs.take(i as int)),
            decreases n - i,
        {
            let e = self.rooms.rooms.entry_at(i);
            proof {
                rs.lemma_filter_map_take_succ(list_pick(), i as int);
                crate::idmap::lemma_entries_map_len(e.1.publishers.entries());
            }
            if !e.1.config.is_private {
                out.push(RoomListEntry {
                    room: e.1.id,
                    description: e.1.config.description.clone(),
                    max_publishers: e.1.config.max_publishers,
                    bitrate: e.1.config.bitrate,
                    num_participants: e.1.publishers.len(),
                });
            }
            i = i + 1;
        }
        proof {
            assert(rs.take(n as int) =~= rs);
        }
        out
    }

    /// The participants of a room.
    fn participant_list(room: &Room) -> (r: Vec<Participant>)
        requires
            room.publishers.wf(),
        ensures
            r@ == participants(room.publishers.entries()),
    {
        let ghost ps = room.publishers.entries();
        let n = room.publishers.len();
        let mut out: Vec<Participant> = Vec::new();
        let mut i: usize = 0;
        while i < n
            invariant
                ps == room.publishers.entries(),
                n == ps.len(),
                i <= n,
                out@ == participants(ps.take(i as int)),
            decreases n - i,
        {
            let e = room.publishers.entry_at(i);
            out.push(Participant { id: e.1.user_id, display: crate::text::clone_opt_string(&e.1.display), talking: e.1.talking });
            proof {
                assert(ps.take(i + 1) =~= ps.take(i as int).push(ps[i as int]));
                assert(participants(ps.take(i + 1)) =~= participants(ps.take(i as int)).push(participants(ps.take(i + 1))[i as int]));
            }
            i = i + 1;
        }
        proof {
            assert(ps.take(n as int) =~= ps);
        }
        out
    }

    /// A publisher (re)configures its media; any other joined handle is
    /// refused.
    fn configure(&mut self, session: &PluginSession, audio: bool, video: bool, jsep: &Option<Jsep>)
        -> (out: (Result<VideoRoomReply, PluginError>, Option<RoomNotice>))
        requires
            old(self).wf(),
        ensures
            final(self).wf(),
            configure_post(*old(self), *final(self), *session, audio, video, *jsep, out),
    {
        let key = handle_key(session);
        match self.handles.get(&key) {
            Some(HandleState::Publisher { .. }) => {
                self.set_active(key, true);
            },
            Some(_) => {
                return (Err(PluginError::Plugin("Not a publisher".to_owned())), None);
            },
            None => {},
        }
        let answer = match jsep {
            Some(j) => if j.jsep_type == JsepType::Offer {
                Some(Jsep { jsep_type: JsepType::Answer, sdp: j.sdp.clone(), trickle: j.trickle })
            } else {
                None
            },
            None => None,
        };
        (Ok(VideoRoomReply::Configured { audio, video, answer }), None)
    }

    /// A subscriber starts receiving media.
    fn start(&mut self, session: &PluginSession) -> (out: (Result<VideoRoomReply, PluginError>, Option<RoomNotice>))
        requires
            old(self).wf(),
        ensures
            final(self).wf(),
            start_post(*old(self), *final(self), *session, out),
    {
        let key = handle_key(session);
        if let Some(HandleState::Subscriber { .. }) = self.handles.get(&key) {
            self.set_active(key, true);
        }
        (Ok(VideoRoomReply::Started), None)
    }

    /// A publisher stops publishing; the other publishers of its room are told.
    fn unpublish(&mut self, session: &PluginSession) -> (out: (Result<VideoRoomReply, PluginError>, Option<RoomNotice>))
        requires
            old(self).wf(),
        ensures
            final(self).wf(),
            unpublish_post(*old(self), *final(self), *session, out),
    {
        let key = handle_key(session);
        let (room_id, user_id) = match self.handles.get(&key) {
            Some(HandleState::Publisher { room_id, user_id, .. }) => (*room_id, *user_id),
            _ => {
                return (Ok(VideoRoomReply::Unpublished), None);
            },
        };
        self.set_active(key, false);
        if self.rooms.contains(room_id) {
            let targets = self.notice_sessions(room_id, None);
            (Ok(VideoRoomReply::Unpublished), Some(RoomNotice { targets, event: RoomEvent::PublisherLeft { room: room_id, id: user_id } }))
        } else {
            (Ok(VideoRoomReply::Unpublished), None)
        }
    }

    /// Handles a videoroom request from handle `session`, with the JSEP that
    /// came with it. Returns the reply and the notice to send to other
    /// publishers, if any.
    pub fn handle_request(&mut self, session: &PluginSession, req: &VideoRoomRequest, jsep: &Option<Jsep>)
        -> (out: (Result<VideoRoomReply, PluginError>, Option<RoomNotice>))
        requires
            old(self).wf(),
        ensures
            final(self).wf(),
            request_post(*old(self), *final(self), *session, *req, *jsep, out),
    {
        let q = req.request.as_str();
        proof {
            lemma_videoroom_requests_distinct();
        }
        if str_eq(q, "create") {
            let config = RoomConfig {
                description: match &req.description { Some(d) => d.clone(), None => "VideoRoom".to_owned() },
                max_publishers: match req.max_publishers { Some(m) => m, None => 6 },
                bitrate: match req.bitrate { Some(b) => b, None => 0 },
                is_private: match req.is_private { Some(b) => b, None => false },
                pin: crate::text::clone_opt_string(&req.pin),
                secret: crate::text::clone_opt_string(&req.secret),
            };
            let room = self.rooms.create(req.room, config);
            return (Ok(VideoRoomReply::Created { room }), None);
        }
        if str_eq(q, "destroy") {
            let id = match req.room {
                Some(id) => id,
                None => { return (Err(PluginError::Plugin("Missing room ID".to_owned())), None); },
            };
            return match self.rooms.destroy(id) {
                Some(_) => (Ok(VideoRoomReply::Destroyed { room: id }), None),
                None => (Err(PluginError::Plugin(no_such_room_text(id))), None),
            };
        }
        if str_eq(q, "exists") {
            let id = match req.room {
                Some(id) => id,
                None => { return (Err(PluginError::Plugin("Missing room ID".to_owned())), None); },
            };
            return (Ok(VideoRoomReply::Exists { room: id, exists: self.rooms.contains(id) }), None);
        }
        if str_eq(q, "list") {
            let list = self.list_rooms();
            return (Ok(VideoRoomReply::List { list }), None);
        }
        if str_eq(q, "listparticipants") {
            let id = match req.room {
                Some(id) => id,
                None => { return (Err(PluginError::Plugin("Missing room ID".to_owned())), None); },
            };
            proof {
                self.rooms.lemma_wf();
            }
            return match self.rooms.get(id) {
                Some(room) => (Ok(VideoRoomReply::Participants { room: id, participants: Self::participant_list(room) }), None),
                None => (Err(PluginError::Plugin(no_such_room_text(id))), None),
            };
        }
        if str_eq(q, "join") {
            let id = match req.room {
                Some(id) => id,
                None => { return (Err(PluginError::Plugin("Missing room ID".to_owned())), None); },
            };
            let ptype: &str = match &req.ptype { Some(t) => t.as_str(), None => "publisher" };
            if str_eq(ptype, "publisher") {
                return self.join_publisher(session, id, crate::text::clone_opt_string(&req.display));
            }
            if str_eq(ptype, "subscriber") || str_eq(ptype, "listener") {
                let feed = match req.feed {
                    Some(f) => f,
                    None => { return (Err(PluginError::Plugin("Missing feed ID for subscriber".to_owned())), None); },
                };
                return self.join_subscriber(session, id, feed, jsep.is_some());
            }
            return (Err(PluginError::Plugin("Unknown ptype: ".to_owned().concat(ptype))), None);
        }
        if str_eq(q, "publish") || str_eq(q, "configure") {
            return self.configure(session, req.audio, req.video, jsep);
        }
        if str_eq(q, "start") {
            return self.start(session);
        }
        if str_eq(q, "unpublish") {
            return self.unpublish(session);
        }
        if str_eq(q, "leave") {
            return self.leave(session);
        }
        (Err(PluginError::Plugin("Unknown request: ".to_owned().concat(q))), None)
    }

    /// A handle goes away: it leaves its room (the notice of that is
    /// returned) and its state is dropped.
    pub fn destroy_session(&mut self, session: &PluginSession) -> (notice: Option<RoomNotice>)
        requires
            old(self).wf(),
        ensures
            final(self).wf(),
            exists|r: Result<VideoRoomReply, PluginError>| leave_post(*old(self), *final(self), *session, (r, notice)),
            final(self).handles() == old(self).handles().remove(key_of(*session)),
    {
        let out = self.leave(session);
        proof {
            if !old(self).handles().contains_key(key_of(*session)) {
                assert(old(self).handles().remove(key_of(*session)) =~= old(self).handles());
            }
        }
        out.1
    }

    /// The media path of a handle is up: a publisher or subscriber becomes
    /// active.
    pub fn setup_media(&mut self, session: &PluginSession)
        requires
            old(self).wf(),
        ensures
            final(self).wf(),
            final(self).reg() == old(self).reg(),
            final(self).pub_handles() == old(self).pub_handles(),
            final(self).next_user() == old(self).next_user(),
            old(self).handles().contains_key(key_of(*session))
                ==> final(self).handles() == old(self).handles().insert(key_of(*session), with_active(old(self).handles()[key_of(*session)], true)),
            !old(self).handles().contains_key(key_of(*session)) ==> final(self).handles() == old(self).handles(),
    {
        self.set_active(handle_key(session), true);
    }

    /// The media path of a handle went down: a publisher or subscriber
    /// becomes inactive.
    pub fn hangup_media(&mut self, session: &PluginSession)
        requires
            old(self).wf(),
        ensures
            final(self).wf(),
            final(self).reg() == old(self).reg(),
            final(self).pub_handles() == old(self).pub_handles(),
            final(self).next_user() == old(self).next_user(),
            old(self).handles().contains_key(key_of(*session))
                ==> final(self).handles() == old(self).handles().insert(key_of(*session), with_active(old(self).handles()[key_of(*session)], false)),
            !old(self).handles().contains_key(key_of(*session)) ==> final(self).handles() == old(self).handles(),
    {
        self.set_active(handle_key(session), false);
    }
}

/// Creating a room under an id that was free and then destroying it
/// leaves the rooms as they were.
pub proof fn lemma_room_create_then_destroy(a: RoomRegistry, b: RoomRegistry, c: RoomRegistry, room_id: u64)
    requires
        a.wf(),
        !a.map().contains_key(room_id),
        b.map() == a.map().insert(room_id, b.map()[room_id]),
        c.map() == b.map().remove(room_id),
    ensures
        c.map() == a.map(),
{
    assert(c.map() =~= a.map());
}

/// Two rooms created in a row with automatic ids get different ids.
pub proof fn lemma_room_auto_ids_differ(a: RoomRegistry, b: RoomRegistry, first: u64, second: u64)
    requires
        first == a.next_auto_id(),
        b.next_auto_id() == vstd::wrapping::u64_specs::wrapping_add(a.next_auto_id(), 1),
        second == b.next_auto_id(),
    ensures
        first != second,
{
}

/// Every subscriber of a room watches a publisher of that room.
pub open spec fn feeds_present(rooms: Map<u64, Room>) -> bool {
    forall|r: u64, u: u64| rooms.contains_key(r) && #[trigger] rooms[r].subscribers@.contains_key(u)
        ==> rooms[r].publishers@.contains_key(rooms[r].subscribers@[u].feed)
}

/// A handle leaving its room keeps every subscriber watching a publisher of
/// its room.
pub proof fn lemma_leave_keeps_feeds(
    a: VideoRoomState,
    b: VideoRoomState,
    session: PluginSession,
    out: (Result<VideoRoomReply, PluginError>, Option<RoomNotice>),
)
    requires
        feeds_present(a.reg().map()),
        leave_post(a, b, session, out),
    ensures
        feeds_present(b.reg().map()),
{
    let key = key_of(session);
    let rooms = a.reg().map();
    let nr = b.reg().map();
    if a.handles().contains_key(key) {
        match a.handles()[key] {
            HandleState::Publisher { room_id, user_id, .. } => {
                if rooms.contains_key(room_id) {
                    assert forall|r: u64, u: u64| nr.contains_key(r) && #[trigger] nr[r].subscribers@.contains_key(u)
                        implies nr[r].publishers@.contains_key(nr[r].subscribers@[u].feed) by {
                        if r == room_id {
                            let old_subs = rooms[room_id].subscribers@;
                            assert(old_subs.contains_key(u) && old_subs[u].feed != user_id);
                            assert(rooms[r].subscribers@.contains_key(u));
                        } else {
                            assert(rooms[r].subscribers@.contains_key(u));
                        }
                    }
                }
            },
            HandleState::Subscriber { room_id, user_id, .. } => {
                if rooms.contains_key(room_id) {
                    assert forall|r: u64, u: u64| nr.contains_key(r) && #[trigger] nr[r].subscribers@.contains_key(u)
                        implies nr[r].publishers@.contains_key(nr[r].subscribers@[u].feed) by {
                        assert(rooms[r].subscribers@.contains_key(u));
                    }
                }
            },
            HandleState::Idle => {},
        }
    }
}

/// Every request keeps every subscriber watching a publisher of its room.
pub proof fn lemma_request_keeps_feeds(
    a: VideoRoomState,
    b: VideoRoomState,
    session: PluginSession,
    req: VideoRoomRequest,
    jsep: Option<Jsep>,
    out: (Result<VideoRoomReply, PluginError>, Option<RoomNotice>),
)
    requires
        feeds_present(a.reg().map()),
        request_post(a, b, session, req, jsep, out),
    ensures
        feeds_present(b.reg().map()),
{
    lemma_videoroom_requests_distinct();
    let q = req.request@;
    let rooms = a.reg().map();
    let nr = b.reg().map();
    if q == "create"@ {
        let room = out.0->Ok_0->Created_room;
        assert forall|r: u64, u: u64| nr.contains_key(r) && #[trigger] nr[r].subscribers@.contains_key(u)
            implies nr[r].publishers@.contains_key(nr[r].subscribers@[u].feed) by {
            if r != room {
                assert(rooms[r].subscribers@.contains_key(u));
            }
        }
    } else if q == "destroy"@ {
        assert forall|r: u64, u: u64| nr.contains_key(r) && #[trigger] nr[r].subscribers@.contains_key(u)
            implies nr[r].publishers@.contains_key(nr[r].subscribers@[u].feed) by {
            assert(rooms[r].subscribers@.contains_key(u));
        }
    } else if q == "join"@ {
        if let Some(id) = req.room {
            if rooms.contains_key(id) {
                assert forall|r: u64, u: u64| nr.contains_key(r) && #[trigger] nr[r].subscribers@.contains_key(u)
                    implies nr[r].publishers@.contains_key(nr[r].subscribers@[u].feed) by {
                    if r != id || !rooms[id].subscribers@.contains_key(u) {
                        if r != id {
                            assert(rooms[r].subscribers@.contains_key(u));
                        }
                    } else {
                        assert(rooms[r].subscribers@.contains_key(u));
                    }
                }
            }
        }
    } else if q == "leave"@ {
        lemma_leave_keeps_feeds(a, b, session, out);
    }
}

/// Destroying a handle's session keeps every subscriber watching a
/// publisher of its room.
pub proof fn lemma_destroy_session_keeps_feeds(a: VideoRoomState, b: VideoRoomState, session: PluginSession, notice: Option<RoomNotice>)
    requires
        feeds_present(a.reg().map()),
        exists|r: Result<VideoRoomReply, PluginError>| leave_post(a, b, session, (r, notice)),
    ensures
        feeds_present(b.reg().map()),
{
    let r = choose|r: Result<VideoRoomReply, PluginError>| leave_post(a, b, session, (r, notice));
    lemma_leave_keeps_feeds(a, b, session, (r, notice));
}

/// Adding the empty default room keeps every subscriber watching a
/// publisher of its room.
pub proof fn lemma_default_room_keeps_feeds(a: VideoRoomState, b: VideoRoomState)
    requires
        feeds_present(a.reg().map()),
        b.reg().map() == a.reg().map().insert(1234, b.reg().map()[1234]),
        b.reg().map()[1234].subscribers@ == Map::<u64, SubscriberInfo>::empty(),
    ensures
        feeds_present(b.reg().map()),
{
    let rooms = a.reg().map();
    let nr = b.reg().map();
    assert forall|r: u64, u: u64| nr.contains_key(r) && #[trigger] nr[r].subscribers@.contains_key(u)
        implies nr[r].publishers@.contains_key(nr[r].subscribers@[u].feed) by {
        assert(r != 1234);
        assert(rooms[r].subscribers@.contains_key(u));
    }
}

/// Every user id in the rooms, publisher or subscriber, is below the next
/// user id the counter hands out.
pub open spec fn ids_below(rooms: Map<u64, Room>, next: u64) -> bool {
    &&& forall|r: u64, u: u64| rooms.contains_key(r) && #[trigger] rooms[r].publishers@.contains_key(u) ==> u < next
    &&& forall|r: u64, u: u64| rooms.contains_key(r) && #[trigger] rooms[r].subscribers@.contains_key(u) ==> u < next
}

/// A publisher that joins a room gets a user id that no publisher of the
/// room had, so the room has one publisher more.
pub proof fn lemma_join_publisher_fresh(
    a: VideoRoomState,
    b: VideoRoomState,
    session: PluginSession,
    room_id: u64,
    display: Option<String>,
    out: (Result<VideoRoomReply, PluginError>, Option<RoomNotice>),
)
    requires
        a.wf(),
        ids_below(a.reg().map(), a.next_user()),
        join_publisher_post(a, b, session, room_id, display, out),
        out.0 is Ok,
    ensures
        a.reg().map().contains_key(room_id),
        !a.reg().map()[room_id].publishers@.contains_key(a.next_user()),
        b.reg().map()[room_id].publishers@.contains_key(a.next_user()),
        b.reg().map()[room_id].publishers@.dom().len() == a.reg().map()[room_id].publishers@.dom().len() + 1,
{
    a.reg().lemma_wf();
    let old_room = a.reg().map()[room_id];
    assert(room_wf(room_id, old_room));
    crate::idmap::lemma_entries_map_len(old_room.publishers.entries());
    assert(!old_room.publishers@.contains_key(a.next_user()));
}

/// Every request keeps the user ids in the rooms below the counter, while
/// the counter does not wrap around.
pub proof fn lemma_request_keeps_ids_below(
    a: VideoRoomState,
    b: VideoRoomState,
    session: PluginSession,
    req: VideoRoomRequest,
    jsep: Option<Jsep>,
    out: (Result<VideoRoomReply, PluginError>, Option<RoomNotice>),
)
    requires
        ids_below(a.reg().map(), a.next_user()),
        a.next_user() < u64::MAX,
        request_post(a, b, session, req, jsep, out),
    ensures
        ids_below(b.reg().map(), b.next_user()),
        b.next_user() >= a.next_user(),
{
    lemma_videoroom_requests_distinct();
    let q = req.request@;
    let rooms = a.reg().map();
    let nr = b.reg().map();
    let n = b.next_user();
    if q == "create"@ {
        let room = out.0->Ok_0->Created_room;
        assert forall|r: u64, u: u64| nr.contains_key(r) && #[trigger] nr[r].publishers@.contains_key(u) implies u < n by {
            if r != room {
                assert(rooms[r].publishers@.contains_key(u));
            }
        }
        assert forall|r: u64, u: u64| nr.contains_key(r) && #[trigger] nr[r].subscribers@.contains_key(u) implies u < n by {
            if r != room {
                assert(rooms[r].subscribers@.contains_key(u));
            }
        }
    } else if q == "destroy"@ {
        assert forall|r: u64, u: u64| nr.contains_key(r) && #[trigger] nr[r].publishers@.contains_key(u) implies u < n by {
            assert(rooms[r].publishers@.contains_key(u));
        }
        assert forall|r: u64, u: u64| nr.contains_key(r) && #[trigger] nr[r].subscribers@.contains_key(u) implies u < n by {
            assert(rooms[r].subscribers@.contains_key(u));
        }
    } else if q == "join"@ {
        if let Some(id) = req.room {
            if rooms.contains_key(id) {
                assert forall|r: u64, u: u64| nr.contains_key(r) && #[trigger] nr[r].publishers@.contains_key(u) implies u < n by {
                    if r != id || u != a.next_user() {
                        if r != id || rooms[id].publishers@.contains_key(u) {
                            assert(rooms[r].publishers@.contains_key(u));
                        }
                    }
                }
                assert forall|r: u64, u: u64| nr.contains_key(r) && #[trigger] nr[r].subscribers@.contains_key(u) implies u < n by {
                    if r != id || u != a.next_user() {
                        if r != id || rooms[id].subscribers@.contains_key(u) {
                            assert(rooms[r].subscribers@.contains_key(u));
                        }
                    }
                }
            }
        }
    } else if q == "leave"@ {
        lemma_leave_keeps_ids_below(a, b, session, out);
    }
}

/// A handle leaving its room keeps the user ids in the rooms below the
/// counter.
pub proof fn lemma_leave_keeps_ids_below(
    a: VideoRoomState,
    b: VideoRoomState,
    session: PluginSession,
    out: (Result<VideoRoomReply, PluginError>, Option<RoomNotice>),
)
    requires
        ids_below(a.reg().map(), a.next_user()),
        leave_post(a, b, session, out),
    ensures
        ids_below(b.reg().map(), b.next_user()),
        b.next_user() == a.next_user(),
{
    let rooms = a.reg().map();
    let nr = b.reg().map();
    let n = b.next_user();
    assert forall|r: u64, u: u64| nr.contains_key(r) && #[trigger] nr[r].publishers@.contains_key(u) implies u < n by {
        assert(rooms[r].publishers@.contains_key(u));
    }
    assert forall|r: u64, u: u64| nr.contains_key(r) && #[trigger] nr[r].subscribers@.contains_key(u) implies u < n by {
        assert(rooms[r].subscribers@.contains_key(u));
    }
}

/// Destroying a handle's session keeps the user ids in the rooms below the
/// counter.
pub proof fn lemma_destroy_session_keeps_ids_below(a: VideoRoomState, b: VideoRoomState, session: PluginSession, notice: Option<RoomNotice>)
    requires
        ids_below(a.reg().map(), a.next_user()),
        exists|r: Result<VideoRoomReply, PluginError>| leave_post(a, b, session, (r, notice)),
    ensures
        ids_below(b.reg().map(), b.next_user()),
{
    let r = choose|r: Result<VideoRoomReply, PluginError>| leave_post(a, b, session, (r, notice));
    lemma_leave_keeps_ids_below(a, b, session, (r, notice));
}

/// Adding the empty default room keeps the user ids in the rooms below the
/// counter.
pub proof fn lemma_default_room_keeps_ids_below(a: VideoRoomState, b: VideoRoomState)
    requires
        ids_below(a.reg().map(), a.next_user()),
        b.next_user() == a.next_user(),
        b.reg().map() == a.reg().map().insert(1234, b.reg().map()[1234]),
        b.reg().map()[1234].publishers@ == Map::<u64, PublisherInfo>::empty(),
        b.reg().map()[1234].subscribers@ == Map::<u64, SubscriberInfo>::empty(),
    ensures
        ids_below(b.reg().map(), b.next_user()),
{
    let rooms = a.reg().map();
    let nr = b.reg().map();
    assert forall|r: u64, u: u64| nr.contains_key(r) && #[trigger] nr[r].publishers@.contains_key(u) implies u < b.next_user() by {
        assert(r != 1234);
        assert(rooms[r].publishers@.contains_key(u));
    }
    assert forall|r: u64, u: u64| nr.contains_key(r) && #[trigger] nr[r].subscribers@.contains_key(u) implies u < b.next_user() by {
        assert(r != 1234);
        assert(rooms[r].subscribers@.contains_key(u));
    }
}

/// The reply to a publisher joining lists exactly the other publishers of
/// the room: never the joining one, each with its entry in the room, and
/// every other publisher of the room.
pub proof fn lemma_join_lists_other_publishers(
    a: VideoRoomState,
    b: VideoRoomState,
    session: PluginSession,
    room_id: u64,
    display: Option<String>,
    out: (Result<VideoRoomReply, PluginError>, Option<RoomNotice>),
)
    requires
        b.wf(),
        join_publisher_post(a, b, session, room_id, display, out),
        out.0 is Ok,
    ensures
        out.0 matches Ok(VideoRoomReply::Joined { id, publishers, .. }) && {
            let room = b.reg().map()[room_id];
            &&& b.reg().map().contains_key(room_id)
            &&& room.publishers@.contains_key(id)
            &&& forall|i: int| 0 <= i < publishers@.len() ==> #[trigger] publishers@[i].user_id != id
            &&& forall|i: int| 0 <= i < publishers@.len() ==> room.publishers@.contains_key(#[trigger] publishers@[i].user_id)
                && room.publishers@[publishers@[i].user_id] == publishers@[i]
            &&& forall|u: u64| #[trigger] room.publishers@.contains_key(u) && u != id
                ==> exists|i: int| 0 <= i < publishers@.len() && publishers@[i].user_id == u
        },
{
    let user = a.next_user();
    let room = b.reg().map()[room_id];
    b.reg().lemma_wf();
    assert(room_wf(room_id, room));
    let es = room.publishers.entries();
    assert(room.publishers@ == crate::idmap::entries_map(es));
    if let Ok(VideoRoomReply::Joined { id, publishers, .. }) = out.0 {
        assert(id == user);
        assert(publishers@ == es.filter_map(other_pick(user)));
        assert forall|i: int| 0 <= i < publishers@.len() implies #[trigger] publishers@[i].user_id != id
            && room.publishers@.contains_key(publishers@[i].user_id)
            && room.publishers@[publishers@[i].user_id] == publishers@[i] by {
            let x = publishers@[i];
            assert(es.filter_map(other_pick(user)).contains(x));
            es.lemma_filter_map_contains(other_pick(user), x);
            let t = choose|t: (u64, PublisherInfo)| #[trigger] es.contains(t) && other_pick(user)(t) == Some(x);
            let j = choose|j: int| 0 <= j < es.len() && es[j] == t;
            crate::idmap::lemma_entries_map_at(es, j);
        }
        assert forall|u: u64| #[trigger] room.publishers@.contains_key(u) && u != id
            implies exists|i: int| 0 <= i < publishers@.len() && publishers@[i].user_id == u by {
            let j = choose|j: int| 0 <= j < es.len() && es[j].0 == u;
            crate::idmap::lemma_entries_map_at(es, j);
            crate::idmap::lemma_filter_map_keeps(es, other_pick(user), j);
            let i = choose|i: int| 0 <= i < publishers@.len() && publishers@[i] == es[j].1;
            assert(publishers@[i].user_id == u);
        }
    }
}

/// The room list holds exactly the public rooms: every entry names a room
/// that is not private, with that room's description, limits and
/// participant count, and every public room has an entry.
pub proof fn lemma_list_is_public_rooms(
    a: VideoRoomState,
    b: VideoRoomState,
    session: PluginSession,
    req: VideoRoomRequest,
    jsep: Option<Jsep>,
    out: (Result<VideoRoomReply, PluginError>, Option<RoomNotice>),
)
    requires
        a.wf(),
        req.request@ == "list"@,
        request_post(a, b, session, req, jsep, out),
    ensures
        out.0 matches Ok(VideoRoomReply::List { list }) && {
            let rooms = a.reg().map();
            &&& forall|i: int| 0 <= i < list@.len() ==> rooms.contains_key(#[trigger] list@[i].room)
                && !rooms[list@[i].room].config.is_private
                && list@[i].description == rooms[list@[i].room].config.description
                && list@[i].max_publishers == rooms[list@[i].room].config.max_publishers
                && list@[i].bitrate == rooms[list@[i].room].config.bitrate
                && list@[i].num_participants == rooms[list@[i].room].publishers@.dom().len() as usize
            &&& forall|k: u64| #[trigger] rooms.contains_key(k) && !rooms[k].config.is_private
                ==> exists|i: int| 0 <= i < list@.len() && list@[i].room == k
        },
{
    lemma_videoroom_requests_distinct();
    let rooms = a.reg().map();
    a.reg().lemma_wf();
    let es = a.reg().entries();
    if let Ok(VideoRoomReply::List { list }) = out.0 {
        assert(list@ == es.filter_map(list_pick()));
        assert forall|i: int| 0 <= i < list@.len() implies rooms.contains_key(#[trigger] list@[i].room)
            && !rooms[list@[i].room].config.is_private
            && list@[i].description == rooms[list@[i].room].config.description
            && list@[i].max_publishers == rooms[list@[i].room].config.max_publishers
            && list@[i].bitrate == rooms[list@[i].room].config.bitrate
            && list@[i].num_participants == rooms[list@[i].room].publishers@.dom().len() as usize by {
            let x = list@[i];
            assert(es.filter_map(list_pick()).contains(x));
            es.lemma_filter_map_contains(list_pick(), x);
            let t = choose|t: (u64, Room)| #[trigger] es.contains(t) && list_pick()(t) == Some(x);
            let j = choose|j: int| 0 <= j < es.len() && es[j] == t;
            assert(rooms.contains_key(es[j].0) && rooms[es[j].0] == es[j].1);
            assert(room_wf(es[j].0, es[j].1));
        }
        assert forall|k: u64| #[trigger] rooms.contains_key(k) && !rooms[k].config.is_private
            implies exists|i: int| 0 <= i < list@.len() && list@[i].room == k by {
            let j = choose|j: int| 0 <= j < es.len() && es[j].0 == k;
            assert(rooms.contains_key(es[j].0) && rooms[es[j].0] == es[j].1);
            assert(room_wf(k, es[j].1));
            crate::idmap::lemma_filter_map_keeps(es, list_pick(), j);
            let i = choose|i: int| 0 <= i < list@.len() && list@[i] == list_entry(es[j].1);
            assert(list@[i].room == k);
        }
    }
}

/// The participants of a room are exactly its publishers: each entry is a
/// publisher of the room with its display name and talking flag, and every
/// publisher has an entry.
pub proof fn lemma_participants_are_publishers(
    a: VideoRoomState,
    b: VideoRoomState,
    session: PluginSession,
    req: VideoRoomRequest,
    jsep: Option<Jsep>,
    out: (Result<VideoRoomReply, PluginError>, Option<RoomNotice>),
)
    requires
        a.wf(),
        req.request@ == "listparticipants"@,
        request_post(a, b, session, req, jsep, out),
        out.0 is Ok,
    ensures
        out.0 matches Ok(VideoRoomReply::Participants { room, participants }) && {
            let pubs = a.reg().map()[room].publishers@;
            &&& a.reg().map().contains_key(room)
            &&& req.room == Some(room)
            &&& forall|i: int| 0 <= i < participants@.len() ==> pubs.contains_key(#[trigger] participants@[i].id)
                && participants@[i].display == pubs[participants@[i].id].display
                && participants@[i].talking == pubs[participants@[i].id].talking
            &&& forall|u: u64| #[trigger] pubs.contains_key(u)
                ==> exists|i: int| 0 <= i < participants@.len() && participants@[i].id == u
        },
{
    lemma_videoroom_requests_distinct();
    a.reg().lemma_wf();
    if let Ok(VideoRoomReply::Participants { room, participants: ps }) = out.0 {
        let r = a.reg().map()[room];
        assert(room_wf(room, r));
        let es = r.publishers.entries();
        assert(r.publishers@ == crate::idmap::entries_map(es));
        assert(ps@ == participants(es));
        assert forall|i: int| 0 <= i < ps@.len() implies r.publishers@.contains_key(#[trigger] ps@[i].id)
            && ps@[i].display == r.publishers@[ps@[i].id].display
            && ps@[i].talking == r.publishers@[ps@[i].id].talking by {
            crate::idmap::lemma_entries_map_at(es, i);
        }
        assert forall|u: u64| #[trigger] r.publishers@.contains_key(u)
            implies exists|i: int| 0 <= i < ps@.len() && ps@[i].id == u by {
            let j = choose|j: int| 0 <= j < es.len() && es[j].0 == u;
            crate::idmap::lemma_entries_map_at(es, j);
            assert(ps@[j].id == u);
        }
    }
}

} // verus!
