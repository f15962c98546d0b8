use janus_gateway::config::{config_parse_error, config_read_error, GeneralConfig, JanusConfig, NatConfig};
use janus_gateway::error::Error;
use janus_gateway::events::{EventError, EventMask, EventType, JanusEvent, EVENT_HANDLER_API_VERSION};
use janus_gateway::plugin_api::PluginError;
use janus_gateway::plugin_loader::{
    check_abi, derive_plugin_abi_symbol, derive_plugin_create_symbol, is_disabled, is_plugin_file,
};
use janus_gateway::relay::{RelayCommand, RelayEngine};
use janus_gateway::sdp::{jsep_to_sdp_offer, parse_sdp_offer, sdp_answer_to_jsep, sdp_offer_to_jsep};
use janus_gateway::session::{HandleInfo, SessionManager};
use janus_gateway::transport::{TransportError, TransportRequest};
use janus_gateway::types::{
    HandleId, Jsep, JsepType, MediaDirection, PluginSession, RtcpPacket, RtpPacket, SessionId,
};
use janus_gateway::webrtc::PcState;
use std::collections::HashSet;

fn assert_send_sync<T: Send + Sync>() {}

// ---------------------------------------------------------------------------
// Configuration
// ---------------------------------------------------------------------------

#[test]
fn default_config() {
    let cfg = JanusConfig::default();
    assert_eq!(cfg.general.session_timeout, 60);
    assert_eq!(cfg.general.debug_level, 4);
    assert!(!cfg.general.daemonize);
    assert!(!cfg.events.broadcast);
    assert_eq!(cfg.media.rtp_port_range_min, 20000);
    assert_eq!(cfg.media.rtp_port_range_max, 40000);
}

#[test]
fn default_general_config_values() {
    let cfg = GeneralConfig::default();
    assert_eq!(cfg.configs_folder, "/etc/janus");
    assert_eq!(cfg.debug_level, 4);
    assert!(!cfg.daemonize);
    assert!(cfg.api_secret.is_none());
    assert!(!cfg.token_auth);
    assert!(cfg.token_auth_secret.is_none());
    assert_eq!(cfg.session_timeout, 60);
    assert_eq!(cfg.reclaim_session_timeout, 0);
}

#[test]
fn default_nat_config_values() {
    let cfg = NatConfig::default();
    assert_eq!(cfg.stun_server.as_deref(), Some("stun.l.google.com"));
    assert_eq!(cfg.stun_port, 19302);
    assert!(cfg.turn_server.is_none());
    assert!(!cfg.ice_lite);
    assert!(cfg.nat_1_1_mapping.is_none());
}

#[test]
fn config_errors_name_their_cause() {
    let e = config_parse_error("expected `=`");
    assert_eq!(e, Error::Config("failed to parse config: expected `=`".to_string()));
    assert_eq!(e.to_string(), "configuration error: failed to parse config: expected `=`");
    let e = config_read_error("/nope.toml", "not found");
    assert_eq!(e, Error::Config("failed to read /nope.toml: not found".to_string()));
}

// ---------------------------------------------------------------------------
// Errors
// ---------------------------------------------------------------------------

#[test]
fn error_error_display() {
    assert_eq!(Error::SessionNotFound(123).to_string(), "session not found: 123");
    assert_eq!(
        Error::PluginNotFound("janus.plugin.foo".into()).to_string(),
        "plugin not found: janus.plugin.foo"
    );
}

#[test]
fn error_error_is_send_sync() {
    assert_send_sync::<Error>();
}

#[test]
fn plugin_error_is_send_sync() {
    assert_send_sync::<PluginError>();
}

#[test]
fn every_core_error_has_its_text() {
    assert_eq!(Error::HandleNotFound(7).to_string(), "handle not found: 7");
    assert_eq!(Error::PluginLoad("x".into()).to_string(), "plugin load error: x");
    assert_eq!(Error::NoTransports.to_string(), "no transports available");
    assert_eq!(Error::AlreadyRunning.to_string(), "server already running");
    assert_eq!(Error::NotRunning.to_string(), "server not running");
    assert_eq!(Error::InvalidRequest("r".into()).to_string(), "invalid request: r");
    assert_eq!(Error::Unauthorized("u".into()).to_string(), "unauthorized: u");
}

#[test]
fn plugin_error_display() {
    assert_eq!(PluginError::NotImplemented.to_string(), "not implemented");
    assert_eq!(PluginError::InvalidRequest("bad body".into()).to_string(), "invalid request: bad body");
    assert_eq!(PluginError::SessionNotFound("123".into()).to_string(), "session not found: 123");
    assert_eq!(PluginError::MissingField("room".into()).to_string(), "missing mandatory field: room");
    assert_eq!(PluginError::Plugin("p".into()).to_string(), "plugin error: p");
    assert_eq!(PluginError::Config("c".into()).to_string(), "configuration error: c");
}

#[test]
fn transport_error_display() {
    assert_eq!(TransportError::NotInitialized.to_string(), "transport not initialized");
    assert_eq!(TransportError::ClientNotFound("abc".into()).to_string(), "client not found: abc");
    assert_eq!(TransportError::SendFailed("x".into()).to_string(), "send failed: x");
    assert_eq!(TransportError::Config("c".into()).to_string(), "configuration error: c");
}

#[test]
fn wrapped_errors_show_their_cause() {
    assert_eq!(PluginError::Json("EOF while parsing".into()).to_string(), "EOF while parsing");
    assert_eq!(Error::Plugin(PluginError::NotImplemented).to_string(), "not implemented");
    assert_eq!(Error::Transport(TransportError::NotInitialized).to_string(), "transport not initialized");
    assert_eq!(Error::Io("denied".into()).to_string(), "denied");
}

// ---------------------------------------------------------------------------
// Plugin loading
// ---------------------------------------------------------------------------

#[test]
fn derive_symbol_from_standard_lib_name() {
    let path = "/plugins/libjanus_plugin_echotest.so";
    assert_eq!(derive_plugin_create_symbol(path).as_deref(), Some("janus_plugin_echotest_create"));
}

#[test]
fn derive_symbol_handles_dashes() {
    let path = "/plugins/libjanus-plugin-textroom.so";
    assert_eq!(derive_plugin_create_symbol(path).as_deref(), Some("janus_plugin_textroom_create"));
}

#[test]
fn derive_abi_symbol_from_standard_lib_name() {
    let path = "/plugins/libjanus_plugin_echotest.so";
    assert_eq!(derive_plugin_abi_symbol(path).as_deref(), Some("janus_plugin_echotest_abi_version"));
}

#[test]
fn derive_symbol_without_lib_prefix() {
    assert_eq!(derive_plugin_create_symbol("/p/echo.so").as_deref(), Some("echo_create"));
    assert_eq!(derive_plugin_create_symbol("/").as_deref(), None);
}

#[test]
fn plugin_files_are_found_by_extension() {
    assert!(is_plugin_file("/p/libjanus_plugin_echotest.so", "so"));
    assert!(!is_plugin_file("/p/readme.txt", "so"));
    assert!(!is_plugin_file("/p/noext", "so"));
}

#[test]
fn disabled_plugins_are_skipped() {
    let list = vec!["janus.plugin.sip".to_string(), "janus.plugin.nosip".to_string()];
    assert!(is_disabled("janus.plugin.sip", &list));
    assert!(!is_disabled("janus.plugin.echotest", &list));
}

#[test]
fn abi_mismatch_is_refused() {
    assert!(check_abi("janus_plugin_abi_version", "/p/x.so", 1).is_ok());
    match check_abi("janus_plugin_abi_version", "/p/x.so", 2) {
        Err(Error::PluginLoad(m)) => assert!(m.contains("/p/x.so")),
        other => panic!("unexpected {other:?}"),
    }
}

// ---------------------------------------------------------------------------
// Sessions
// ---------------------------------------------------------------------------

#[test]
fn create_and_get_session() {
    let mut mgr = SessionManager::new(60);
    let id = mgr.create_session().unwrap();
    assert!(mgr.get_session(id).is_some());
    assert_eq!(mgr.session_count(), 1);
}

#[test]
fn create_session_with_explicit_id() {
    let mut mgr = SessionManager::new(60);
    let id = SessionId(42);
    assert!(mgr.create_session_with_id(id));
    assert!(mgr.get_session(id).is_some());
    assert!(!mgr.create_session_with_id(id));
}

#[test]
fn destroy_session_returns_handles() {
    let mut mgr = SessionManager::new(60);
    let sid = mgr.create_session().unwrap();
    let h1 = mgr.attach_handle(sid, "janus.plugin.echotest".into()).unwrap();
    let h2 = mgr.attach_handle(sid, "janus.plugin.videoroom".into()).unwrap();
    let handles = mgr.destroy_session(sid).unwrap();
    assert_eq!(handles.len(), 2);
    let ids: Vec<HandleId> = handles.iter().map(|h| h.handle_id).collect();
    assert!(ids.contains(&h1));
    assert!(ids.contains(&h2));
    assert_eq!(mgr.session_count(), 0);
}

#[test]
fn session_destroy_nonexistent_session_errors() {
    let mut mgr = SessionManager::new(60);
    assert_eq!(mgr.destroy_session(SessionId(999)).unwrap_err(), Error::SessionNotFound(999));
}

#[test]
fn attach_and_get_handle() {
    let mut mgr = SessionManager::new(60);
    let sid = mgr.create_session().unwrap();
    let hid = mgr.attach_handle(sid, "janus.plugin.echotest".into()).unwrap();
    let info = mgr.get_handle(sid, hid).unwrap();
    assert_eq!(info.plugin_package, "janus.plugin.echotest");
    assert_eq!(info.session_id, sid);
}

#[test]
fn session_attach_to_nonexistent_session_errors() {
    let mut mgr = SessionManager::new(60);
    assert_eq!(mgr.attach_handle(SessionId(999), "test".into()).unwrap_err(), Error::SessionNotFound(999));
}

#[test]
fn attach_handle_with_id_attaches_that_handle() {
    let mut mgr = SessionManager::new(60);
    let sid = mgr.create_session().unwrap();
    assert_eq!(mgr.attach_handle_with_id(sid, HandleId(77), "p".into()), Ok(HandleId(77)));
    let info = mgr.get_handle(sid, HandleId(77)).unwrap();
    assert_eq!(info.plugin_package, "p");
    assert_eq!(mgr.attach_handle_with_id(SessionId(4242), HandleId(1), "p".into()), Err(Error::SessionNotFound(4242)));
}

#[test]
fn detach_handle() {
    let mut mgr = SessionManager::new(60);
    let sid = mgr.create_session().unwrap();
    let hid = mgr.attach_handle(sid, "test.plugin".into()).unwrap();
    let info = mgr.detach_handle(sid, hid).unwrap();
    assert_eq!(info.handle_id, hid);
    assert_eq!(mgr.detach_handle(sid, hid).unwrap_err(), Error::HandleNotFound(hid.0));
}

#[test]
fn create_then_destroy_restores_sessions() {
    let mut mgr = SessionManager::new(60);
    let keep = mgr.create_session().unwrap();
    let sid = mgr.create_session().unwrap();
    assert_eq!(mgr.session_count(), 2);
    mgr.destroy_session(sid).unwrap();
    assert_eq!(mgr.session_ids(), vec![keep]);
}

#[test]
fn attach_then_detach_restores_handles() {
    let mut mgr = SessionManager::new(60);
    let sid = mgr.create_session().unwrap();
    let h = mgr.attach_handle(sid, "a".into()).unwrap();
    mgr.detach_handle(sid, h).unwrap();
    assert_eq!(mgr.get_handle(sid, h).unwrap_err(), Error::HandleNotFound(h.0));
    assert!(mgr.destroy_session(sid).unwrap().is_empty());
}

#[test]
fn touch_session_keeps_session() {
    let mut mgr = SessionManager::new(60);
    let sid = mgr.create_session().unwrap();
    assert!(mgr.touch_session(sid));
    assert!(mgr.get_session(sid).is_some());
}

#[test]
fn create_session_at_sets_last_activity() {
    let mut mgr = SessionManager::new(60);
    let sid = mgr.create_session_at(123_456).unwrap();
    assert_eq!(mgr.get_session(sid).unwrap().last_activity, 123_456);
    assert!(mgr.create_session_with_id_at(SessionId(5), 777));
    assert_eq!(mgr.get_session(SessionId(5)).unwrap().last_activity, 777);
    assert!(!mgr.create_session_with_id_at(SessionId(5), 999));
    assert_eq!(mgr.get_session(SessionId(5)).unwrap().last_activity, 777);
}

#[test]
fn touch_session_at_sets_last_activity() {
    let mut mgr = SessionManager::new(1);
    let sid = mgr.create_session().unwrap();
    let later = mgr.get_session(sid).unwrap().last_activity + 10_000_000_000;
    assert_eq!(mgr.timed_out_at(later).len(), 1);
    assert!(mgr.touch_session_at(sid, later));
    assert_eq!(mgr.get_session(sid).unwrap().last_activity, later);
    assert!(mgr.timed_out_at(later).is_empty());
    assert!(!mgr.touch_session_at(SessionId(12345), later));
}

#[test]
fn touch_nonexistent_session_returns_false() {
    let mut mgr = SessionManager::new(60);
    assert!(!mgr.touch_session(SessionId(999)));
}

#[test]
fn session_ids_returns_all() {
    let mut mgr = SessionManager::new(60);
    let s1 = mgr.create_session().unwrap();
    let s2 = mgr.create_session().unwrap();
    let ids = mgr.session_ids();
    assert_eq!(ids.len(), 2);
    assert!(ids.contains(&s1));
    assert!(ids.contains(&s2));
}

#[test]
fn collect_timed_out_with_zero_timeout() {
    let mut mgr = SessionManager::new(0);
    mgr.create_session().unwrap();
    assert!(mgr.collect_timed_out().is_empty());
    assert!(mgr.timed_out_at(u64::MAX).is_empty());
}

#[test]
fn collect_timed_out_finds_expired() {
    let mut mgr = SessionManager::new(1);
    let sid = mgr.create_session().unwrap();
    let last = mgr.get_session(sid).unwrap().last_activity;
    assert!(mgr.timed_out_at(last + 500_000_000).is_empty());
    assert!(mgr.timed_out_at(last + 1_000_000_000).is_empty());
    let timed_out = mgr.timed_out_at(last + 5_000_000_000);
    assert_eq!(timed_out.len(), 1);
    assert_eq!(timed_out[0], sid);
    assert!(mgr.collect_timed_out().is_empty());
}

#[test]
fn handle_info_plugin_session() {
    let info = HandleInfo { handle_id: HandleId(1), session_id: SessionId(2), plugin_package: "test".into() };
    let ps = info.plugin_session();
    assert_eq!(ps.session_id, SessionId(2));
    assert_eq!(ps.handle_id, HandleId(1));
}

// ---------------------------------------------------------------------------
// Relay
// ---------------------------------------------------------------------------

fn make_rtp(video: bool, len: usize) -> RtpPacket {
    RtpPacket::new(video, vec![0u8; len])
}

fn make_rtcp(video: bool) -> RtcpPacket {
    RtcpPacket::new(video, vec![0u8; 32])
}

#[test]
fn register_and_unregister_handle() {
    let mut engine = RelayEngine::new();
    let sid = SessionId(1);
    let hid = HandleId(2);
    engine.register_handle(sid, hid);
    assert!(engine.stats(sid, hid).is_some());
    engine.unregister_handle(sid, hid);
    assert!(engine.stats(sid, hid).is_none());
}

#[test]
fn process_incoming_rtp_updates_stats() {
    let mut engine = RelayEngine::new();
    let sid = SessionId(1);
    let hid = HandleId(2);
    engine.register_handle(sid, hid);
    engine.process_command(RelayCommand::IncomingRtp { session_id: sid, handle_id: hid, packet: make_rtp(false, 160) });
    let stats = engine.stats(sid, hid).unwrap();
    assert_eq!(stats.rtp_in, 1);
    assert_eq!(stats.bytes_in, 160);
    assert_eq!(stats.rtp_out, 0);
}

#[test]
fn process_outgoing_rtp_updates_stats() {
    let mut engine = RelayEngine::new();
    let sid = SessionId(1);
    let hid = HandleId(2);
    engine.register_handle(sid, hid);
    engine.process_command(RelayCommand::OutgoingRtp { session_id: sid, handle_id: hid, packet: make_rtp(true, 1200) });
    let stats = engine.stats(sid, hid).unwrap();
    assert_eq!(stats.rtp_out, 1);
    assert_eq!(stats.bytes_out, 1200);
}

#[test]
fn process_rtcp_updates_stats() {
    let mut engine = RelayEngine::new();
    let sid = SessionId(1);
    let hid = HandleId(2);
    engine.register_handle(sid, hid);
    engine.process_command(RelayCommand::IncomingRtcp { session_id: sid, handle_id: hid, packet: make_rtcp(false) });
    engine.process_command(RelayCommand::OutgoingRtcp { session_id: sid, handle_id: hid, packet: make_rtcp(true) });
    let stats = engine.stats(sid, hid).unwrap();
    assert_eq!(stats.rtcp_in, 1);
    assert_eq!(stats.rtcp_out, 1);
}

#[test]
fn process_command_for_unknown_handle_no_panic() {
    let mut engine = RelayEngine::new();
    engine.process_command(RelayCommand::IncomingRtp {
        session_id: SessionId(999),
        handle_id: HandleId(888),
        packet: make_rtp(false, 100),
    });
    assert!(engine.stats(SessionId(999), HandleId(888)).is_none());
}

#[test]
fn multiple_packets_accumulate_stats() {
    let mut engine = RelayEngine::new();
    let sid = SessionId(1);
    let hid = HandleId(1);
    engine.register_handle(sid, hid);
    for _ in 0..100 {
        engine.process_command(RelayCommand::IncomingRtp { session_id: sid, handle_id: hid, packet: make_rtp(false, 160) });
    }
    let stats = engine.stats(sid, hid).unwrap();
    assert_eq!(stats.rtp_in, 100);
    assert_eq!(stats.bytes_in, 16000);
}

// ---------------------------------------------------------------------------
// SDP
// ---------------------------------------------------------------------------

#[test]
fn sdp_answer_to_jsep_creates_answer() {
    let jsep = sdp_answer_to_jsep("v=0\r\n".into(), true);
    assert_eq!(jsep.jsep_type, JsepType::Answer);
    assert_eq!(jsep.sdp, "v=0\r\n");
    assert!(jsep.trickle);
}

#[test]
fn sdp_offer_to_jsep_creates_offer() {
    let jsep = sdp_offer_to_jsep("v=0\r\n".into(), false);
    assert_eq!(jsep.jsep_type, JsepType::Offer);
    assert!(!jsep.trickle);
}

#[test]
fn jsep_to_sdp_offer_rejects_answer() {
    let jsep = Jsep { jsep_type: JsepType::Answer, sdp: "v=0\r\n".into(), trickle: true };
    assert!(jsep_to_sdp_offer(&jsep).is_err());
}

#[test]
fn parse_sdp_offer_rejects_garbage() {
    assert!(parse_sdp_offer("not an sdp").is_err());
}

#[test]
fn parse_sdp_offer_accepts_minimal_valid_sdp() {
    let sdp = "v=0\r\n\
                o=- 0 0 IN IP4 127.0.0.1\r\n\
                s=-\r\n\
                t=0 0\r\n\
                a=group:BUNDLE 0\r\n\
                a=ice-options:trickle\r\n\
                m=audio 9 UDP/TLS/RTP/SAVPF 111\r\n\
                c=IN IP4 0.0.0.0\r\n\
                a=mid:0\r\n\
                a=sendrecv\r\n\
                a=rtpmap:111 opus/48000/2\r\n\
                a=ice-ufrag:test\r\n\
                a=ice-pwd:testpasswordtestpassword\r\n\
                a=fingerprint:sha-256 00:00:00:00:00:00:00:00:00:00:00:00:00:00:00:00:00:00:00:00:00:00:00:00:00:00:00:00:00:00:00:00\r\n\
                a=setup:actpass\r\n";
    let _ = parse_sdp_offer(sdp);
}

// ---------------------------------------------------------------------------
// Events, transports, identifiers, packets
// ---------------------------------------------------------------------------

#[test]
fn event_mask_contains() {
    let mask = EventMask::session().union(EventMask::media());
    assert!(mask.contains(EventMask::session()));
    assert!(mask.contains(EventMask::media()));
    assert!(!mask.contains(EventMask::plugin()));
}

#[test]
fn event_mask_all_contains_everything() {
    assert!(EventMask::all().contains(EventMask::session()));
    assert!(EventMask::all().contains(EventMask::handle()));
    assert!(EventMask::all().contains(EventMask::jsep()));
    assert!(EventMask::all().contains(EventMask::webrtc()));
    assert!(EventMask::all().contains(EventMask::media()));
    assert!(EventMask::all().contains(EventMask::plugin()));
    assert!(EventMask::all().contains(EventMask::transport()));
    assert!(EventMask::all().contains(EventMask::core_events()));
}

#[test]
fn event_mask_none_contains_nothing() {
    assert!(!EventMask::none().contains(EventMask::session()));
}

#[test]
fn event_type_to_mask_roundtrip() {
    let types = [
        EventType::Session,
        EventType::Handle,
        EventType::Jsep,
        EventType::WebRTC,
        EventType::Media,
        EventType::Plugin,
        EventType::Transport,
        EventType::Core,
    ];
    for t in types {
        let mask = t.to_mask();
        assert!(mask.contains(t.to_mask()));
    }
}

#[test]
fn event_masks_are_distinct_bits() {
    assert_eq!(EventType::Session.to_mask(), EventMask::session());
    assert_eq!(EventType::Core.to_mask(), EventMask::core_events());
    assert!(!EventType::Handle.to_mask().contains(EventType::Jsep.to_mask()));
    assert_eq!(EventMask::session().union(EventMask::none()), EventMask::session());
}

#[test]
fn event_handler_errors_and_events() {
    assert_eq!(EventError::Handler("down".into()).to_string(), "event handler error: down");
    assert_eq!(EventError::Config("bad".into()).to_string(), "configuration error: bad");
    assert_eq!(EVENT_HANDLER_API_VERSION, 1);
    let event = JanusEvent {
        event_type: EventType::Session,
        timestamp: 1000000,
        session_id: Some(SessionId(42)),
        event: "{\"name\":\"created\"}".into(),
    };
    assert!(EventMask::session().contains(event.event_type.to_mask()));
}

#[test]
fn transport_request_new() {
    let req = TransportRequest::new("ws-client-1");
    assert_eq!(req.client_id, "ws-client-1");
    assert!(!req.admin);
    assert!(req.session_id.is_none());
    assert!(req.handle_id.is_none());
}

#[test]
fn transport_request_admin() {
    let req = TransportRequest::admin("admin-client-1");
    assert_eq!(req.client_id, "admin-client-1");
    assert!(req.admin);
}

#[test]
fn session_id_display() {
    assert_eq!(SessionId(12345).to_string(), "12345");
}

#[test]
fn session_id_random_is_unique() {
    assert_ne!(SessionId::random().unwrap(), SessionId::random().unwrap());
}

#[test]
fn handle_id_display() {
    assert_eq!(HandleId(67890).to_string(), "67890");
}

#[test]
fn handle_id_random_is_unique() {
    assert_ne!(HandleId::random().unwrap(), HandleId::random().unwrap());
}

#[test]
fn plugin_session_display() {
    let ps = PluginSession::new(SessionId(1), HandleId(2));
    assert_eq!(ps.to_string(), "1:2");
}

#[test]
fn jsep_type_display() {
    assert_eq!(JsepType::Offer.as_str(), "offer");
    assert_eq!(JsepType::Answer.as_str(), "answer");
}

#[test]
fn media_direction_display() {
    assert_eq!(MediaDirection::SendRecv.as_str(), "sendrecv");
    assert_eq!(MediaDirection::SendOnly.as_str(), "sendonly");
    assert_eq!(MediaDirection::RecvOnly.as_str(), "recvonly");
    assert_eq!(MediaDirection::Inactive.as_str(), "inactive");
}

#[test]
fn session_id_zero() {
    let id = SessionId(0);
    assert_eq!(id.to_string(), "0");
    assert_eq!(id.0, 0);
}

#[test]
fn session_id_max() {
    let id = SessionId(u64::MAX);
    assert_eq!(id.0, u64::MAX);
    assert_eq!(id.to_string(), "18446744073709551615");
}

#[test]
fn session_id_hash_works() {
    let mut set = HashSet::new();
    set.insert(SessionId(1));
    set.insert(SessionId(2));
    set.insert(SessionId(1));
    assert_eq!(set.len(), 2);
}

#[test]
fn handle_id_hash_works() {
    let mut set = HashSet::new();
    set.insert(HandleId(10));
    set.insert(HandleId(20));
    assert_eq!(set.len(), 2);
}

#[test]
fn rtp_packet_parse_header() {
    let mut buf = vec![0u8; 12];
    buf[0] = 0x80;
    buf[1] = 111;
    buf[2..4].copy_from_slice(&1u16.to_be_bytes());
    buf[4..8].copy_from_slice(&160u32.to_be_bytes());
    buf[8..12].copy_from_slice(&1000u32.to_be_bytes());
    let pkt = RtpPacket::new(false, buf);
    assert_eq!(pkt.payload_type(), Some(111));
    assert_eq!(pkt.sequence_number(), Some(1));
    assert_eq!(pkt.timestamp(), Some(160));
    assert_eq!(pkt.ssrc(), Some(1000));
    assert!(!pkt.video);
}

#[test]
fn rtp_packet_short_buffer_returns_none() {
    let pkt = RtpPacket::new(true, vec![0x80]);
    assert_eq!(pkt.payload_type(), None);
    assert_eq!(pkt.sequence_number(), None);
    assert_eq!(pkt.timestamp(), None);
    assert_eq!(pkt.ssrc(), None);
}

#[test]
fn rtp_packet_empty_buffer() {
    let pkt = RtpPacket::new(false, vec![]);
    assert_eq!(pkt.payload_type(), None);
    assert_eq!(pkt.sequence_number(), None);
    assert_eq!(pkt.timestamp(), None);
    assert_eq!(pkt.ssrc(), None);
}

#[test]
fn rtp_packet_marker_bit_in_payload_type() {
    let mut buf = vec![0u8; 12];
    buf[1] = 0xFF;
    let pkt = RtpPacket::new(false, buf);
    assert_eq!(pkt.payload_type(), Some(127));
}

#[test]
fn rtp_packet_with_payload() {
    let mut buf = vec![0u8; 172];
    buf[0] = 0x80;
    buf[1] = 111;
    buf[2..4].copy_from_slice(&42u16.to_be_bytes());
    let pkt = RtpPacket::new(false, buf.clone());
    assert_eq!(pkt.sequence_number(), Some(42));
    assert_eq!(pkt.buffer.len(), 172);
}

#[test]
fn rtcp_packet_construction() {
    let pkt = RtcpPacket::new(true, vec![1, 2, 3, 4]);
    assert!(pkt.video);
    assert_eq!(pkt.buffer, vec![1, 2, 3, 4]);
}

#[test]
fn plugin_session_clone() {
    let ps = PluginSession::new(SessionId(1), HandleId(2));
    let cloned = ps.clone();
    assert_eq!(ps.session_id, cloned.session_id);
    assert_eq!(ps.handle_id, cloned.handle_id);
}

#[test]
fn pc_state_equality() {
    assert_eq!(PcState::New, PcState::New);
    assert_ne!(PcState::New, PcState::Connected);
    assert_eq!(PcState::Closed, PcState::Closed);
}
