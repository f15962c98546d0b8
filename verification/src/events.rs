//! Event types and the subscription masks of event handlers.
use vstd::prelude::*;
use vstd::string::StringExecFns;
use crate::types::SessionId;

verus! {

/// Bitmask of event types a handler subscribes to.
#[derive(Clone, Copy, Debug, PartialEq, Eq, Structural)]
pub struct EventMask(pub u32);

impl EventMask {
    /// The mask with value 0.
    pub fn none() -> (m: EventMask)
        ensures
            m.0 == 0,
    {
        EventMask(0)
    }

    /// The mask with value 1.
    pub fn session() -> (m: EventMask)
        ensures
            m.0 == 1,
    {
        EventMask(1)
    }

    /// The mask with value 2.
    pub fn handle() -> (m: EventMask)
        ensures
            m.0 == 2,
    {
        EventMask(2)
    }

    /// The mask with value 4.
    pub fn jsep() -> (m: EventMask)
        ensures
            m.0 == 4,
    {
        EventMask(4)
    }

    /// The mask with value 8.
    pub fn webrtc() -> (m: EventMask)
        ensures
            m.0 == 8,
    {
        EventMask(8)
    }

    /// The mask with value 16.
    pub fn media() -> (m: EventMask)
        ensures
            m.0 == 16,
    {
        EventMask(16)
    }

    /// The mask with value 32.
    pub fn plugin() -> (m: EventMask)
        ensures
            m.0 == 32,
    {
        EventMask(32)
    }

    /// The mask with value 64.
    pub fn transport() -> (m: EventMask)
        ensures
            m.0 == 64,
    {
        EventMask(64)
    }

    /// The mask with value 128.
    pub fn core_events() -> (m: EventMask)
        ensures
            m.0 == 128,
    {
        EventMask(128)
    }

    /// The mask with value 255.
    pub fn all() -> (m: EventMask)
        ensures
            m.0 == 255,
    {
        EventMask(255)
    }


    /// Every bit of `other` is set in `self`.
    pub open spec fn spec_contains(self, other: EventMask) -> bool {
        self.0 & other.0 == other.0
    }

    /// Whether every event type of `other` is included in this mask.
    pub fn contains(self, other: Self) -> (b: bool)
        ensures
            b == self.spec_contains(other),
    {
        self.0 & other.0 == other.0
    }

    /// The mask holding the event types of both masks.
    pub fn union(self, other: Self) -> (m: Self)
        ensures
            m.0 == self.0 | other.0,
            m.spec_contains(self),
            m.spec_contains(other),
    {
        let a = self.0;
        let b = other.0;
        assert((a | b) & a == a) by (bit_vector);
        assert((a | b) & b == b) by (bit_vector);
        EventMask(a | b)
    }
}

/// Enumeration of event types.
#[derive(Clone, Copy, Debug, PartialEq, Eq, Structural)]
pub enum EventType {
    Session,
    Handle,
    Jsep,
    WebRTC,
    Media,
    Plugin,
    Transport,
    Core,
}

/// The mask bit of an event type.
pub open spec fn event_bit(t: EventType) -> u32 {
    match t {
        EventType::Session => 1,
        EventType::Handle => 2,
        EventType::Jsep => 4,
        EventType::WebRTC => 8,
        EventType::Media => 16,
        EventType::Plugin => 32,
        EventType::Transport => 64,
        EventType::Core => 128,
    }
}

impl EventType {
    /// The mask that holds exactly this event type.
    pub fn to_mask(self) -> (m: EventMask)
        ensures
            m.0 == event_bit(self),
    {
        match self {
            EventType::Session => EventMask::session(),
            EventType::Handle => EventMask::handle(),
            EventType::Jsep => EventMask::jsep(),
            EventType::WebRTC => EventMask::webrtc(),
            EventType::Media => EventMask::media(),
            EventType::Plugin => EventMask::plugin(),
            EventType::Transport => EventMask::transport(),
            EventType::Core => EventMask::core_events(),
        }
    }
}

/// Every mask contains itself, and the full mask contains every event type's mask.
pub proof fn lemma_mask_contains_itself_and_all_contains_each(m: EventMask, t: EventType)
    ensures
        m.spec_contains(m),
        EventMask(255).spec_contains(EventMask(event_bit(t))),
        !EventMask(0).spec_contains(EventMask(event_bit(t))),
{
    let a = m.0;
    assert(a & a == a) by (bit_vector);
    let b = event_bit(t);
    assert(255u32 & 1u32 == 1u32 && 255u32 & 2u32 == 2u32 && 255u32 & 4u32 == 4u32 && 255u32 & 8u32 == 8u32
        && 255u32 & 16u32 == 16u32 && 255u32 & 32u32 == 32u32 && 255u32 & 64u32 == 64u32 && 255u32 & 128u32 == 128u32) by (bit_vector);
    assert(0u32 & b == 0u32) by (bit_vector);
}

/// Distinct event types have masks that do not contain each other.
pub proof fn lemma_event_masks_distinct(s: EventType, t: EventType)
    requires
        s != t,
    ensures
        !EventMask(event_bit(s)).spec_contains(EventMask(event_bit(t))),
{
    let a = event_bit(s);
    let b = event_bit(t);
    assert(forall|x: u32, y: u32|
        (x == 1 || x == 2 || x == 4 || x == 8 || x == 16 || x == 32 || x == 64 || x == 128)
        && (y == 1 || y == 2 || y == 4 || y == 8 || y == 16 || y == 32 || y == 64 || y == 128)
        && x != y ==> #[trigger] (x & y) != y) by (bit_vector);
}

/// API version that event handlers must be compatible with.
pub const EVENT_HANDLER_API_VERSION: u32 = 1;

/// An event that event handlers receive.
#[derive(Clone, Debug)]
pub struct JanusEvent {
    pub event_type: EventType,
    /// Microseconds since the epoch.
    pub timestamp: u64,
    /// The session it concerns, if any.
    pub session_id: Option<SessionId>,
    /// The event's payload, as JSON text.
    pub event: String,
}

/// Errors of an event handler.
#[derive(Clone, Debug, PartialEq, Eq)]
pub enum EventError {
    Handler(String),
    Config(String),
    /// A JSON error, with its message (shown as it is).
    Json(String),
    /// An I/O error, with its message (shown as it is).
    Io(String),
}

/// The message text of an event handler error.
pub open spec fn event_error_text(e: EventError) -> Seq<char> {
    match e {
        EventError::Handler(m) => "event handler error: "@ + m@,
        EventError::Config(m) => "configuration error: "@ + m@,
        EventError::Json(m) => m@,
        EventError::Io(m) => m@,
    }
}

impl EventError {
    /// The message text of the error.
    pub fn to_string(&self) -> (s: String)
        ensures
            s@ == event_error_text(*self),
    {
        match self {
            EventError::Handler(m) => "event handler error: ".to_owned().concat(m.as_str()),
            EventError::Config(m) => "configuration error: ".to_owned().concat(m.as_str()),
            EventError::Json(m) => m.clone(),
            EventError::Io(m) => m.clone(),
        }
    }
}

} // verus!
