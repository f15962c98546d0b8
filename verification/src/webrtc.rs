//! The decisions of a peer connection: its observable state as ICE
//! progresses, which negotiated media line and payload type outgoing RTP
//! uses, and the kind of incoming media.
use vstd::prelude::*;
use crate::resource::{etag_of, hex_run};
use crate::text::is_hex_char;

verus! {

/// Observable state of a peer connection.
#[derive(Clone, Copy, Debug, PartialEq, Eq, Structural)]
pub enum PcState {
    New,
    Connecting,
    Connected,
    Disconnected,
    Closed,
}

/// An ICE connection state, as the WebRTC stack reports it.
#[derive(Clone, Copy, Debug, PartialEq, Eq, Structural)]
pub enum IceState {
    New,
    Checking,
    Connected,
    Completed,
    Disconnected,
}

/// What the plugin side is told of an ICE state change.
#[derive(Clone, Copy, Debug, PartialEq, Eq, Structural)]
pub enum MediaNotice {
    /// Nothing.
    Quiet,
    /// Media is ready.
    Ready,
    /// Media hung up, because ICE disconnected.
    HungUp,
}

/// The state a peer connection is in after an ICE state change, and what
/// the plugin side is told.
pub fn on_ice_state(ice: IceState) -> (r: (PcState, MediaNotice))
    ensures
        r == (match ice {
            IceState::New => (PcState::New, MediaNotice::Quiet),
            IceState::Checking => (PcState::Connecting, MediaNotice::Quiet),
            IceState::Connected => (PcState::Connected, MediaNotice::Ready),
            IceState::Completed => (PcState::Connected, MediaNotice::Ready),
            IceState::Disconnected => (PcState::Disconnected, MediaNotice::HungUp),
        }),
{
    match ice {
        IceState::New => (PcState::New, MediaNotice::Quiet),
        IceState::Checking => (PcState::Connecting, MediaNotice::Quiet),
        IceState::Connected | IceState::Completed => (PcState::Connected, MediaNotice::Ready),
        IceState::Disconnected => (PcState::Disconnected, MediaNotice::HungUp),
    }
}

/// The reason given when media hangs up because ICE disconnected.
pub fn ice_disconnected_reason() -> (s: &'static str)
    ensures
        s@ == "ICE disconnected"@,
{
    "ICE disconnected"
}

/// Whether incoming RTP with payload type `pt` is video: dynamic payload
/// types (96 and up) are taken for video codecs.
pub fn is_video_pt(pt: u8) -> (b: bool)
    ensures
        b == (pt >= 96),
{
    pt >= 96
}

/// The RTP clock rate of outgoing media: 90 kHz for video, 48 kHz for audio.
pub fn clock_rate(video: bool) -> (hz: u32)
    ensures
        hz == (if video { 90000u32 } else { 48000u32 }),
{
    if video { 90000 } else { 48000 }
}

/// The negotiated media lines (mids) and payload types used to send RTP,
/// one slot each for audio and video.
#[derive(Clone, Copy, Debug)]
pub struct MediaMap<M, P> {
    pub audio_mid: Option<M>,
    pub video_mid: Option<M>,
    pub audio_pt: Option<P>,
    pub video_pt: Option<P>,
}

impl<M: Copy, P: Copy> MediaMap<M, P> {
    /// Nothing negotiated.
    pub fn new() -> (m: Self)
        ensures
            m.audio_mid is None && m.video_mid is None && m.audio_pt is None && m.video_pt is None,
    {
        MediaMap { audio_mid: None, video_mid: None, audio_pt: None, video_pt: None }
    }

    /// Media of a kind was added with line `mid`: the first line of each
    /// kind is kept. Returns whether it was kept (its payload type is then
    /// looked up).
    pub fn media_added(&mut self, video: bool, mid: M) -> (kept: bool)
        ensures
            kept == (if video { old(self).video_mid is None } else { old(self).audio_mid is None }),
            kept && video ==> *final(self) == (MediaMap { video_mid: Some(mid), ..*old(self) }),
            kept && !video ==> *final(self) == (MediaMap { audio_mid: Some(mid), ..*old(self) }),
            !kept ==> *final(self) == *old(self),
    {
        if video {
            if self.video_mid.is_none() {
                self.video_mid = Some(mid);
                return true;
            }
        } else {
            if self.audio_mid.is_none() {
                self.audio_mid = Some(mid);
                return true;
            }
        }
        false
    }

    /// Records the payload type found for a kind.
    pub fn set_pt(&mut self, video: bool, pt: P)
        ensures
            video ==> *final(self) == (MediaMap { video_pt: Some(pt), ..*old(self) }),
            !video ==> *final(self) == (MediaMap { audio_pt: Some(pt), ..*old(self) }),
    {
        if video {
            self.video_pt = Some(pt);
        } else {
            self.audio_pt = Some(pt);
        }
    }

    /// The line whose payload type is still to be looked up after a
    /// negotiation, for a kind: its line, when it has one but no type yet.
    pub fn pending_pt(&self, video: bool) -> (mid: Option<M>)
        ensures
            video ==> mid == (if self.video_pt is None { self.video_mid } else { None }),
            !video ==> mid == (if self.audio_pt is None { self.audio_mid } else { None }),
    {
        if video {
            if self.video_pt.is_none() { self.video_mid } else { None }
        } else {
            if self.audio_pt.is_none() { self.audio_mid } else { None }
        }
    }

    /// The line and payload type outgoing RTP of a kind is written with;
    /// `None` (the packet is dropped) until both are negotiated.
    pub fn send_target(&self, video: bool) -> (t: Option<(M, P)>)
        ensures
            video ==> t == (match (self.video_mid, self.video_pt) {
                (Some(m), Some(p)) => Some((m, p)),
                _ => None,
            }),
            !video ==> t == (match (self.audio_mid, self.audio_pt) {
                (Some(m), Some(p)) => Some((m, p)),
                _ => None,
            }),
    {
        let (mid, pt) = if video { (self.video_mid, self.video_pt) } else { (self.audio_mid, self.audio_pt) };
        match (mid, pt) {
            (Some(m), Some(p)) => Some((m, p)),
            _ => None,
        }
    }
}

/// New local ICE credentials for a restart: an 8-digit ufrag and a 32-digit
/// password, lower-case hex from two fresh random UUIDs; `None` when the
/// system's random source fails.
pub fn ice_restart_credentials() -> (r: Option<(String, String)>)
    ensures
        r matches Some(c) ==> c.0@.len() == 8 && c.1@.len() == 32,
        r matches Some(c) ==> forall|i: int| 0 <= i < 8 ==> is_hex_char(#[trigger] c.0@[i]),
        r matches Some(c) ==> forall|i: int| 0 <= i < 32 ==> is_hex_char(#[trigger] c.1@[i]),
        r matches Some(c) ==> exists|b: Seq<u8>| b.len() == 16 && b[6] / 16 == 4 && b[8] / 64 == 2 && c.0@ == hex_run(b, 0, 16).subrange(0, 8),
        r matches Some(c) ==> exists|b: Seq<u8>| b.len() == 16 && b[6] / 16 == 4 && b[8] / 64 == 2 && c.1@ == hex_run(b, 0, 16),
{
    let a = match crate::resource::generate_etag() {
        Some(a) => a,
        None => { return None; },
    };
    let pwd = match crate::resource::generate_etag() {
        Some(p) => p,
        None => { return None; },
    };
    let ufrag = vstd::string::StrSliceExecFns::substring_char(a.as_str(), 0, 8).to_owned();
    Some((ufrag, pwd))
}

} // verus!
