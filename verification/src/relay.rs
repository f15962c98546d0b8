//! Media relay bookkeeping: per-handle packet and byte counters of the
//! RTP/RTCP that goes between peers and plugins.
use vstd::prelude::*;
use crate::idmap::{HandleKey, Table};
use crate::types::{HandleId, RtcpPacket, RtpPacket, SessionId};

verus! {

/// Commands the relay processes.
#[derive(Clone, Debug)]
pub enum RelayCommand {
    /// An RTP packet arrived from a peer.
    IncomingRtp { session_id: SessionId, handle_id: HandleId, packet: RtpPacket },
    /// An RTCP packet arrived from a peer.
    IncomingRtcp { session_id: SessionId, handle_id: HandleId, packet: RtcpPacket },
    /// A plugin sends an RTP packet to the peer.
    OutgoingRtp { session_id: SessionId, handle_id: HandleId, packet: RtpPacket },
    /// A plugin sends an RTCP packet to the peer.
    OutgoingRtcp { session_id: SessionId, handle_id: HandleId, packet: RtcpPacket },
}

/// Packet counters for a single handle (counters wrap around at `u64::MAX`).
#[derive(Clone, Copy, Debug, Default, PartialEq, Eq, Structural)]
pub struct RelayStats {
    pub rtp_in: u64,
    pub rtp_out: u64,
    pub rtcp_in: u64,
    pub rtcp_out: u64,
    pub bytes_in: u64,
    pub bytes_out: u64,
}

/// `a + b`, wrapping around at `u64::MAX`.
pub open spec fn wrap_add(a: u64, b: int) -> u64 {
    ((a + b) % 0x1_0000_0000_0000_0000) as u64
}

/// The key of the handle a command is about.
pub open spec fn command_key(cmd: RelayCommand) -> HandleKey {
    match cmd {
        RelayCommand::IncomingRtp { session_id, handle_id, .. } => HandleKey { session: session_id.0, handle: handle_id.0 },
        RelayCommand::IncomingRtcp { session_id, handle_id, .. } => HandleKey { session: session_id.0, handle: handle_id.0 },
        RelayCommand::OutgoingRtp { session_id, handle_id, .. } => HandleKey { session: session_id.0, handle: handle_id.0 },
        RelayCommand::OutgoingRtcp { session_id, handle_id, .. } => HandleKey { session: session_id.0, handle: handle_id.0 },
    }
}

/// The counters after a command: one more packet of its kind and
/// direction, and for RTP its length in bytes.
pub open spec fn counted(s: RelayStats, cmd: RelayCommand) -> RelayStats {
    match cmd {
        RelayCommand::IncomingRtp { packet, .. } => RelayStats {
            rtp_in: wrap_add(s.rtp_in, 1),
            bytes_in: wrap_add(s.bytes_in, packet.buffer@.len() as int),
            ..s
        },
        RelayCommand::IncomingRtcp { .. } => RelayStats { rtcp_in: wrap_add(s.rtcp_in, 1), ..s },
        RelayCommand::OutgoingRtp { packet, .. } => RelayStats {
            rtp_out: wrap_add(s.rtp_out, 1),
            bytes_out: wrap_add(s.bytes_out, packet.buffer@.len() as int),
            ..s
        },
        RelayCommand::OutgoingRtcp { .. } => RelayStats { rtcp_out: wrap_add(s.rtcp_out, 1), ..s },
    }
}

/// `a + b`, wrapping around.
fn add_wrapping(a: u64, b: u64) -> (r: u64)
    ensures
        r == wrap_add(a, b as int),
{
    a.wrapping_add(b)
}

/// The relay's counters, per registered handle.
#[derive(Debug)]
pub struct RelayEngine {
    handles: Table<HandleKey, RelayStats>,
}

impl RelayEngine {
    /// The counters of each registered handle.
    pub closed spec fn counters(&self) -> Map<HandleKey, RelayStats> {
        self.handles@
    }

    pub closed spec fn wf(&self) -> bool {
        self.handles.wf()
    }

    /// No registered handles.
    pub fn new() -> (e: Self)
        ensures
            e.wf(),
            e.counters() == Map::<HandleKey, RelayStats>::empty(),
    {
        RelayEngine { handles: Table::new() }
    }

    /// Registers a handle for relay tracking, with zeroed counters.
    pub fn register_handle(&mut self, session_id: SessionId, handle_id: HandleId)
        requires
            old(self).wf(),
        ensures
            final(self).wf(),
            final(self).counters() == old(self).counters().insert(
                HandleKey { session: session_id.0, handle: handle_id.0 },
                RelayStats { rtp_in: 0, rtp_out: 0, rtcp_in: 0, rtcp_out: 0, bytes_in: 0, bytes_out: 0 },
            ),
    {
        self.handles.insert(
            HandleKey { session: session_id.0, handle: handle_id.0 },
            RelayStats { rtp_in: 0, rtp_out: 0, rtcp_in: 0, rtcp_out: 0, bytes_in: 0, bytes_out: 0 },
        );
    }

    /// Stops tracking a handle.
    pub fn unregister_handle(&mut self, session_id: SessionId, handle_id: HandleId)
        requires
            old(self).wf(),
        ensures
            final(self).wf(),
            final(self).counters() == old(self).counters().remove(HandleKey { session: session_id.0, handle: handle_id.0 }),
    {
        self.handles.remove(&HandleKey { session: session_id.0, handle: handle_id.0 });
    }

    /// The counters of a handle, if it is registered.
    pub fn stats(&self, session_id: SessionId, handle_id: HandleId) -> (r: Option<&RelayStats>)
        requires
            self.wf(),
        ensures
            ({
                let k = HandleKey { session: session_id.0, handle: handle_id.0 };
                &&& r matches Some(s) ==> self.counters().contains_key(k) && *s == self.counters()[k]
                &&& r is None ==> !self.counters().contains_key(k)
            }),
    {
        self.handles.get(&HandleKey { session: session_id.0, handle: handle_id.0 })
    }

    /// Counts a command against its handle (if registered) and hands it back
    /// for dispatch to the plugin or the peer.
    pub fn process_command(&mut self, cmd: RelayCommand) -> (out: RelayCommand)
        requires
            old(self).wf(),
        ensures
            final(self).wf(),
            out == cmd,
            old(self).counters().contains_key(command_key(cmd)) ==> final(self).counters() == old(self).counters().insert(
                command_key(cmd),
                counted(old(self).counters()[command_key(cmd)], cmd),
            ),
            !old(self).counters().contains_key(command_key(cmd)) ==> final(self).counters() == old(self).counters(),
    {
        let key = match &cmd {
            RelayCommand::IncomingRtp { session_id, handle_id, .. } => HandleKey { session: session_id.0, handle: handle_id.0 },
            RelayCommand::IncomingRtcp { session_id, handle_id, .. } => HandleKey { session: session_id.0, handle: handle_id.0 },
            RelayCommand::OutgoingRtp { session_id, handle_id, .. } => HandleKey { session: session_id.0, handle: handle_id.0 },
            RelayCommand::OutgoingRtcp { session_id, handle_id, .. } => HandleKey { session: session_id.0, handle: handle_id.0 },
        };
        let current = match self.handles.get(&key) {
            Some(s) => *s,
            None => { return cmd; },
        };
        let next = match &cmd {
            RelayCommand::IncomingRtp { packet, .. } => RelayStats {
                rtp_in: add_wrapping(current.rtp_in, 1),
                bytes_in: add_wrapping(current.bytes_in, packet.buffer.len() as u64),
                ..current
            },
            RelayCommand::IncomingRtcp { .. } => RelayStats { rtcp_in: add_wrapping(current.rtcp_in, 1), ..current },
            RelayCommand::OutgoingRtp { packet, .. } => RelayStats {
                rtp_out: add_wrapping(current.rtp_out, 1),
                bytes_out: add_wrapping(current.bytes_out, packet.buffer.len() as u64),
                ..current
            },
            RelayCommand::OutgoingRtcp { .. } => RelayStats { rtcp_out: add_wrapping(current.rtcp_out, 1), ..current },
        };
        self.handles.insert(key, next);
        cmd
    }
}

} // verus!
