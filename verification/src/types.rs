//! Core types shared between plugins and the gateway core: identifiers,
//! plugin sessions, JSEP descriptions, RTP/RTCP packets and media directions.
use vstd::prelude::*;
use vstd::string::StringExecFns;
use crate::idmap::HandleKey;
use crate::resource::{os_random_bytes, uuid_v4_bytes};

verus! {

/// Unique identifier for a Janus session.
#[derive(Clone, Copy, Debug, PartialEq, Eq, Hash, Structural)]
pub struct SessionId(pub u64);

/// Unique identifier for a plugin handle within a session.
#[derive(Clone, Copy, Debug, PartialEq, Eq, Hash, Structural)]
pub struct HandleId(pub u64);

/// Little-endian value of the first eight bytes of `b`.
pub open spec fn le_u64(b: Seq<u8>) -> int {
    b[0] as int + 0x100 * b[1] as int + 0x1_0000 * b[2] as int + 0x100_0000 * b[3] as int
        + 0x1_0000_0000 * b[4] as int + 0x100_0000_0000 * b[5] as int
        + 0x1_0000_0000_0000 * b[6] as int + 0x100_0000_0000_0000 * b[7] as int
}

/// The bytes of the version-4 UUID made of 16 random bytes.
///
/// Calls `uuid::Builder::from_random_bytes` and hands out the UUID's bytes.
/// The uuid crate's source sets the variant bits of byte 8 to RFC 4122
/// (`(b & 0x3f) | 0x80`) and the version nibble of byte 6 to 4
/// (`(b & 0x0f) | 0x40`), and leaves the other bytes as they are.
#[verifier::external_body]
fn uuid_from_random_bytes(raw: [u8; 16]) -> (b: [u8; 16])
    ensures
        b@ == uuid_v4_bytes(raw@),
{
    uuid::Builder::from_random_bytes(raw).into_uuid().into_bytes()
}

/// The 16 bytes of a fresh random version-4 UUID, or `None` when the
/// system's random source fails.
pub(crate) fn random_uuid_bytes() -> (r: Option<[u8; 16]>)
    ensures
        r matches Some(b) ==> exists|raw: Seq<u8>| raw.len() == 16 && b@ == uuid_v4_bytes(raw),
        r matches Some(b) ==> b@[6] / 16 == 4 && b@[8] / 64 == 2,
{
    match os_random_bytes() {
        Some(raw) => {
            let b = uuid_from_random_bytes(raw);
            proof {
                let x: u8 = raw@[6];
                let y: u8 = raw@[8];
                assert(((x & 0x0f) | 0x40) / 16 == 4) by (bit_vector);
                assert(((y & 0x3f) | 0x80) / 64 == 2) by (bit_vector);
            }
            Some(b)
        },
        None => None,
    }
}

/// Reads the first eight bytes of a 16-byte identifier as a little-endian `u64`.
pub fn le_u64_of(b: &[u8; 16]) -> (r: u64)
    ensures
        r as int == le_u64(b@),
{
    let r = b[0] as u64 + 0x100 * (b[1] as u64) + 0x1_0000 * (b[2] as u64)
        + 0x100_0000 * (b[3] as u64) + 0x1_0000_0000 * (b[4] as u64)
        + 0x100_0000_0000 * (b[5] as u64) + 0x1_0000_0000_0000 * (b[6] as u64)
        + 0x100_0000_0000_0000 * (b[7] as u64);
    r
}

impl SessionId {
    /// A session id built from the bytes of a version-4 UUID: the lower 64 bits
    /// of the UUID, read little-endian.
    pub fn from_uuid_bytes(b: &[u8; 16]) -> (id: SessionId)
        ensures
            id.0 as int == le_u64(b@),
    {
        SessionId(le_u64_of(b))
    }

    /// A fresh random session id: the first eight bytes, read little-endian, of
    /// a fresh version-4 UUID (so bits 52 to 55 hold the version, 4); `None`
    /// when the system's random source fails.
    pub fn random() -> (r: Option<SessionId>)
        ensures
            r matches Some(id) ==> exists|b: Seq<u8>| b.len() == 16 && b[6] / 16 == 4 && b[8] / 64 == 2 && id.0 as int == le_u64(b),
    {
        match random_uuid_bytes() {
            Some(b) => Some(Self::from_uuid_bytes(&b)),
            None => None,
        }
    }

    /// Decimal text of the id.
    pub fn to_string(&self) -> (s: String)
        ensures
            s@ == crate::text::decimal(self.0 as nat),
    {
        crate::text::decimal_string(self.0)
    }
}

impl HandleId {
    /// A handle id built from the bytes of a version-4 UUID: the lower 64 bits
    /// of the UUID, read little-endian.
    pub fn from_uuid_bytes(b: &[u8; 16]) -> (id: HandleId)
        ensures
            id.0 as int == le_u64(b@),
    {
        HandleId(le_u64_of(b))
    }

    /// A fresh random handle id: the first eight bytes, read little-endian, of
    /// a fresh version-4 UUID (so bits 52 to 55 hold the version, 4); `None`
    /// when the system's random source fails.
    pub fn random() -> (r: Option<HandleId>)
        ensures
            r matches Some(id) ==> exists|b: Seq<u8>| b.len() == 16 && b[6] / 16 == 4 && b[8] / 64 == 2 && id.0 as int == le_u64(b),
    {
        match random_uuid_bytes() {
            Some(b) => Some(Self::from_uuid_bytes(&b)),
            None => None,
        }
    }

    /// Decimal text of the id.
    pub fn to_string(&self) -> (s: String)
        ensures
            s@ == crate::text::decimal(self.0 as nat),
    {
        crate::text::decimal_string(self.0)
    }
}

/// Opaque session handle passed between the core and a plugin.
#[derive(Clone, Copy, Debug, PartialEq, Eq, Structural)]
pub struct PluginSession {
    /// The Janus session this handle belongs to.
    pub session_id: SessionId,
    /// The handle ID within the session.
    pub handle_id: HandleId,
}

/// The key of a plugin session in the handle tables.
pub open spec fn key_of(s: PluginSession) -> HandleKey {
    HandleKey { session: s.session_id.0, handle: s.handle_id.0 }
}

/// The handle-table key of a plugin session.
pub fn handle_key(s: &PluginSession) -> (k: HandleKey)
    ensures
        k == key_of(*s),
{
    HandleKey { session: s.session_id.0, handle: s.handle_id.0 }
}

/// `"<session>:<handle>"` of a plugin session.
pub open spec fn session_text(s: PluginSession) -> Seq<char> {
    crate::text::decimal(s.session_id.0 as nat) + seq![':'] + crate::text::decimal(s.handle_id.0 as nat)
}

impl PluginSession {
    pub fn new(session_id: SessionId, handle_id: HandleId) -> (ps: PluginSession)
        ensures
            ps.session_id == session_id,
            ps.handle_id == handle_id,
    {
        PluginSession { session_id, handle_id }
    }

    /// `"<session>:<handle>"`.
    pub fn to_string(&self) -> (s: String)
        ensures
            s@ == session_text(*self),
    {
        let mut s = String::new();
        crate::text::push_decimal(&mut s, self.session_id.0);
        proof {
            reveal_strlit(":");
        }
        s.append(":");
        crate::text::push_decimal(&mut s, self.handle_id.0);
        s
    }
}

/// JSEP type: offer or answer.
#[derive(Clone, Copy, Debug, PartialEq, Eq, Structural)]
pub enum JsepType {
    Offer,
    Answer,
}

impl JsepType {
    /// `"offer"` or `"answer"`.
    pub fn as_str(&self) -> (s: &'static str)
        ensures
            *self == JsepType::Offer ==> s@ == "offer"@,
            *self == JsepType::Answer ==> s@ == "answer"@,
    {
        match self {
            JsepType::Offer => "offer",
            JsepType::Answer => "answer",
        }
    }
}

/// SDP offer or answer exchanged during WebRTC negotiation.
#[derive(Clone, Debug)]
pub struct Jsep {
    /// "offer" or "answer"
    pub jsep_type: JsepType,
    /// The SDP string.
    pub sdp: String,
    /// Whether to trickle ICE candidates (default: true).
    pub trickle: bool,
}

/// Default of the `trickle` flag of a JSEP description.
pub fn default_trickle() -> (b: bool)
    ensures
        b,
{
    true
}

/// Big-endian value of `b[i]`, `b[i+1]`.
pub open spec fn be_u16_at(b: Seq<u8>, i: int) -> int {
    0x100 * b[i] as int + b[i + 1] as int
}

/// Big-endian value of `b[i..i+4]`.
pub open spec fn be_u32_at(b: Seq<u8>, i: int) -> int {
    0x100_0000 * b[i] as int + 0x1_0000 * b[i + 1] as int + 0x100 * b[i + 2] as int + b[i + 3] as int
}

/// An RTP packet with metadata.
#[derive(Clone, Debug)]
pub struct RtpPacket {
    /// Whether this is a video packet (false = audio).
    pub video: bool,
    /// Raw RTP bytes (header + payload).
    pub buffer: Vec<u8>,
}

impl RtpPacket {
    pub fn new(video: bool, buffer: Vec<u8>) -> (p: RtpPacket)
        ensures
            p.video == video,
            p.buffer == buffer,
    {
        RtpPacket { video, buffer }
    }

    /// The payload type from the RTP header (low seven bits of byte 1).
    pub fn payload_type(&self) -> (r: Option<u8>)
        ensures
            self.buffer@.len() < 2 ==> r is None,
            self.buffer@.len() >= 2 ==> r == Some((self.buffer@[1] % 128) as u8),
    {
        if self.buffer.len() >= 2 {
            let b = self.buffer[1];
            let pt = b & 0x7f;
            assert(b & 0x7f == b % 128) by (bit_vector);
            Some(pt)
        } else {
            None
        }
    }

    /// The sequence number from the RTP header (bytes 2-3, big-endian).
    pub fn sequence_number(&self) -> (r: Option<u16>)
        ensures
            self.buffer@.len() < 4 ==> r is None,
            self.buffer@.len() >= 4 ==> (r matches Some(v) && v as int == be_u16_at(self.buffer@, 2)),
    {
        if self.buffer.len() >= 4 {
            let v = 0x100 * (self.buffer[2] as u16) + self.buffer[3] as u16;
            Some(v)
        } else {
            None
        }
    }

    /// The SSRC from the RTP header (bytes 8-11, big-endian).
    pub fn ssrc(&self) -> (r: Option<u32>)
        ensures
            self.buffer@.len() < 12 ==> r is None,
            self.buffer@.len() >= 12 ==> (r matches Some(v) && v as int == be_u32_at(self.buffer@, 8)),
    {
        if self.buffer.len() >= 12 {
            Some(be_u32(&self.buffer, 8))
        } else {
            None
        }
    }

    /// The timestamp from the RTP header (bytes 4-7, big-endian).
    pub fn timestamp(&self) -> (r: Option<u32>)
        ensures
            self.buffer@.len() < 8 ==> r is None,
            self.buffer@.len() >= 8 ==> (r matches Some(v) && v as int == be_u32_at(self.buffer@, 4)),
    {
        if self.buffer.len() >= 8 {
            Some(be_u32(&self.buffer, 4))
        } else {
            None
        }
    }
}

/// Big-endian `u32` at position `i`.
fn be_u32(b: &Vec<u8>, i: usize) -> (r: u32)
    requires
        i + 4 <= b@.len(),
    ensures
        r as int == be_u32_at(b@, i as int),
{
    let _n = b.len();
    0x100_0000 * (b[i] as u32) + 0x1_0000 * (b[i + 1] as u32) + 0x100 * (b[i + 2] as u32) + b[i + 3] as u32
}

/// An RTCP packet.
#[derive(Clone, Debug)]
pub struct RtcpPacket {
    /// Whether this relates to video (false = audio).
    pub video: bool,
    /// Raw RTCP bytes.
    pub buffer: Vec<u8>,
}

impl RtcpPacket {
    pub fn new(video: bool, buffer: Vec<u8>) -> (p: RtcpPacket)
        ensures
            p.video == video,
            p.buffer == buffer,
    {
        RtcpPacket { video, buffer }
    }
}

/// Media direction for SDP negotiation.
#[derive(Clone, Copy, Debug, PartialEq, Eq, Structural)]
pub enum MediaDirection {
    SendRecv,
    SendOnly,
    RecvOnly,
    Inactive,
}

impl MediaDirection {
    /// The SDP attribute name of the direction.
    pub fn as_str(&self) -> (s: &'static str)
        ensures
            *self == MediaDirection::SendRecv ==> s@ == "sendrecv"@,
            *self == MediaDirection::SendOnly ==> s@ == "sendonly"@,
            *self == MediaDirection::RecvOnly ==> s@ == "recvonly"@,
            *self == MediaDirection::Inactive ==> s@ == "inactive"@,
    {
        match self {
            MediaDirection::SendRecv => "sendrecv",
            MediaDirection::SendOnly => "sendonly",
            MediaDirection::RecvOnly => "recvonly",
            MediaDirection::Inactive => "inactive",
        }
    }
}

} // verus!
