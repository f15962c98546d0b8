use janus_gateway::echotest::{EchoTestMessage, EchoTestState};
use janus_gateway::plugin_api::PluginError;
use janus_gateway::recordplay::RecordPlayState;
use janus_gateway::streaming::{
    MountpointConfig, MountpointRegistry, StreamingReply, StreamingRequest, StreamingState, ViewerInfo,
};
use janus_gateway::types::{HandleId, Jsep, JsepType, PluginSession, SessionId};
use janus_gateway::videocall::{CallEvent, VideoCallReply, VideoCallRequest, VideoCallState};
use janus_gateway::videoroom::{
    PublisherInfo, Room, RoomConfig, RoomRegistry, SubscriberInfo, VideoRoomReply, VideoRoomRequest, VideoRoomState,
};

fn session(s: u64, h: u64) -> PluginSession {
    PluginSession::new(SessionId(s), HandleId(h))
}

// ---------------------------------------------------------------------------
// Room registry
// ---------------------------------------------------------------------------

#[test]
fn create_room_with_defaults() {
    let mut registry = RoomRegistry::new();
    let id = registry.create(Some(1234), RoomConfig::default());
    let room = registry.get(id).unwrap();
    assert_eq!(room.id, 1234);
    assert_eq!(room.config.max_publishers, 6);
    assert!(room.publishers.is_empty());
}

#[test]
fn create_room_auto_id() {
    let mut registry = RoomRegistry::new();
    let id = registry.create(None, RoomConfig::default());
    assert!(id >= 1000);
    let next = registry.create(None, RoomConfig::default());
    assert_eq!(next, id + 1);
}

#[test]
fn get_room() {
    let mut registry = RoomRegistry::new();
    registry.create(Some(42), RoomConfig::default());
    assert!(registry.get(42).is_some());
    assert!(registry.get(99).is_none());
}

#[test]
fn destroy_room() {
    let mut registry = RoomRegistry::new();
    registry.create(Some(42), RoomConfig::default());
    assert!(registry.contains(42));
    registry.destroy(42);
    assert!(!registry.contains(42));
    assert!(registry.is_empty());
}

#[test]
fn room_list_rooms() {
    let mut registry = RoomRegistry::new();
    registry.create(Some(1), RoomConfig::default());
    registry.create(Some(2), RoomConfig::default());
    registry.create(Some(3), RoomConfig::default());
    assert_eq!(registry.list(), vec![1, 2, 3]);
    assert_eq!(registry.len(), 3);
}

#[test]
fn room_publishers_and_subscribers() {
    let mut room = Room::new(1, RoomConfig::default());
    room.publishers.insert(
        100,
        PublisherInfo {
            user_id: 100,
            display: Some("Alice".into()),
            audio_codec: Some("opus".into()),
            video_codec: Some("vp8".into()),
            talking: false,
        },
    );
    room.subscribers.insert(200, SubscriberInfo { user_id: 200, feed: 100, paused: false });
    assert_eq!(room.publishers.len(), 1);
    assert_eq!(room.subscribers.len(), 1);
}

// ---------------------------------------------------------------------------
// Mountpoint registry
// ---------------------------------------------------------------------------

#[test]
fn create_mountpoint_with_defaults() {
    let mut registry = MountpointRegistry::new();
    let id = registry.create(Some(1), MountpointConfig::default());
    let mp = registry.get(id).unwrap();
    assert_eq!(mp.id, 1);
    assert_eq!(mp.config.name, "Stream");
    assert!(mp.viewers.is_empty());
    assert!(!mp.active);
}

#[test]
fn create_mountpoint_auto_id() {
    let mut registry = MountpointRegistry::new();
    let id = registry.create(None, MountpointConfig::default());
    assert!(id >= 100);
}

#[test]
fn get_mountpoint() {
    let mut registry = MountpointRegistry::new();
    registry.create(Some(42), MountpointConfig::default());
    assert!(registry.get(42).is_some());
    assert!(registry.get(99).is_none());
}

#[test]
fn mountpoint_destroy_mountpoint() {
    let mut registry = MountpointRegistry::new();
    registry.create(Some(42), MountpointConfig::default());
    assert!(registry.contains(42));
    registry.destroy(42);
    assert!(!registry.contains(42));
}

#[test]
fn mountpoint_list_mountpoints() {
    let mut registry = MountpointRegistry::new();
    registry.create(Some(1), MountpointConfig::default());
    registry.create(Some(2), MountpointConfig::default());
    registry.create(Some(3), MountpointConfig::default());
    assert_eq!(registry.list().len(), 3);
    assert_eq!(registry.len(), 3);
}

#[test]
fn mountpoint_viewers() {
    let mut registry = MountpointRegistry::new();
    registry.create(Some(1), MountpointConfig::default());
    let mut mp = registry.destroy(1).unwrap();
    mp.viewers.insert(100, ViewerInfo { handle_id: HandleId(100), paused: false });
    assert_eq!(mp.viewers.len(), 1);
}

// ---------------------------------------------------------------------------
// Metadata
// ---------------------------------------------------------------------------

#[test]
fn lib_plugin_metadata() {
    let info = RecordPlayState::info();
    assert_eq!(info.name, "Janus Record&Play plugin");
    assert_eq!(info.package, "janus.plugin.recordplay");
    assert_eq!(info.version, 1);
    assert_eq!(info.version_string, "0.1.0");
    assert_eq!(info.author, "Janus Rust Contributors");
    assert!(!info.description.is_empty());
}

#[test]
fn metadata() {
    let info = StreamingState::info();
    assert_eq!(info.name, "Janus Streaming plugin");
    assert_eq!(info.package, "janus.plugin.streaming");
    assert_eq!(info.version, 1);
}

#[test]
fn every_plugin_names_its_package() {
    assert_eq!(EchoTestState::info().package, "janus.plugin.echotest");
    assert_eq!(EchoTestState::info().author, "Steve Seguin");
    assert_eq!(VideoRoomState::info().package, "janus.plugin.videoroom");
    assert_eq!(VideoRoomState::info().name, "Janus VideoRoom plugin");
    assert_eq!(VideoCallState::info().package, "janus.plugin.videocall");
}

#[test]
fn recordplay_refuses_messages() {
    assert_eq!(RecordPlayState::handle_message(), Err(PluginError::NotImplemented));
    assert_eq!(RecordPlayState::query_status(), "stub");
}

// ---------------------------------------------------------------------------
// EchoTest
// ---------------------------------------------------------------------------

#[test]
fn echo_follows_toggles_and_media_state() {
    let mut st = EchoTestState::new();
    let s = session(1, 1);
    st.create_session(&s);
    assert!(!st.echo_rtp(&s, false));
    st.setup_media(&s);
    assert!(st.echo_rtp(&s, false));
    assert!(st.echo_rtp(&s, true));
    assert!(st.echo_rtcp(&s));
    let offer = Some(Jsep { jsep_type: JsepType::Offer, sdp: "v=0\r\n".into(), trickle: true });
    let reply = st.handle_message(&s, EchoTestMessage { audio: false, video: true, bitrate: 0 }, &offer).unwrap();
    let answer = reply.answer.unwrap();
    assert_eq!(answer.jsep_type, JsepType::Answer);
    assert_eq!(answer.sdp, "v=0\r\n");
    assert!(!st.echo_rtp(&s, false));
    assert!(st.echo_rtp(&s, true));
    st.hangup_media(&s);
    assert!(!st.echo_rtp(&s, true));
    let q = st.query_session(&s).unwrap();
    assert!(!q.audio && q.video && !q.active);
}

#[test]
fn echo_unknown_session_errors() {
    let mut st = EchoTestState::new();
    let s = session(5, 6);
    let r = st.handle_message(&s, EchoTestMessage::defaults(), &None);
    assert_eq!(r.unwrap_err(), PluginError::SessionNotFound("5:6".into()));
}

// ---------------------------------------------------------------------------
// VideoRoom
// ---------------------------------------------------------------------------

fn room_request(request: &str) -> VideoRoomRequest {
    VideoRoomRequest {
        request: request.into(),
        room: None,
        ptype: None,
        feed: None,
        display: None,
        description: None,
        max_publishers: None,
        bitrate: None,
        is_private: None,
        pin: None,
        secret: None,
        audio: true,
        video: true,
    }
}

#[test]
fn join_publish_subscribe_and_fan_out() {
    let mut st = VideoRoomState::new();
    st.init_default_room();
    let alice = session(1, 1);
    let bob = session(2, 2);
    st.create_session(&alice);
    st.create_session(&bob);

    let mut join = room_request("join");
    join.room = Some(1234);
    join.display = Some("Alice".into());
    let (r, _) = st.handle_request(&alice, &join, &None);
    let alice_id = match r.unwrap() {
        VideoRoomReply::Joined { room, id, .. } => {
            assert_eq!(room, 1234);
            id
        }
        other => panic!("unexpected {other:?}"),
    };
    assert_eq!(st.rooms().get(1234).unwrap().publishers.len(), 1);

    let mut lp = room_request("listparticipants");
    lp.room = Some(1234);
    match st.handle_request(&alice, &lp, &None).0.unwrap() {
        VideoRoomReply::Participants { participants, .. } => {
            assert_eq!(participants.len(), 1);
            assert_eq!(participants[0].display.as_deref(), Some("Alice"));
        }
        other => panic!("unexpected {other:?}"),
    }

    st.handle_request(&alice, &room_request("configure"), &None).0.unwrap();
    st.setup_media(&alice);

    let mut sub = room_request("join");
    sub.room = Some(1234);
    sub.ptype = Some("subscriber".into());
    sub.feed = Some(alice_id);
    st.handle_request(&bob, &sub, &None).0.unwrap();
    assert!(st.fanout_targets(&alice).is_empty());
    st.handle_request(&bob, &room_request("start"), &None).0.unwrap();
    st.setup_media(&bob);
    assert_eq!(st.fanout_targets(&alice), vec![bob]);
}

#[test]
fn videoroom_errors() {
    let mut st = VideoRoomState::new();
    st.init_default_room();
    let s = session(1, 1);
    st.create_session(&s);
    let mut join = room_request("join");
    join.room = Some(9);
    assert!(matches!(st.handle_request(&s, &join, &None).0, Err(PluginError::Plugin(_))));
    let (r, n) = st.handle_request(&s, &room_request("dance"), &None);
    assert_eq!(r.unwrap_err(), PluginError::Plugin("Unknown request: dance".into()));
    assert!(n.is_none());
    let mut exists = room_request("exists");
    exists.room = Some(1234);
    assert!(matches!(st.handle_request(&s, &exists, &None).0, Ok(VideoRoomReply::Exists { room: 1234, exists: true })));
}

// ---------------------------------------------------------------------------
// Streaming
// ---------------------------------------------------------------------------

fn stream_request(request: &str) -> StreamingRequest {
    StreamingRequest {
        request: Some(request.into()),
        id: None,
        name: None,
        description: None,
        is_private: None,
        pin: None,
        secret: None,
        audio_port: None,
        video_port: None,
        audio_codec: None,
        video_codec: None,
        audio_pt: None,
        video_pt: None,
    }
}

#[test]
fn watch_start_and_relay() {
    let mut st = StreamingState::new();
    st.init_default_mountpoint();
    let v = session(3, 4);
    st.create_session(&v);
    let mut watch = stream_request("watch");
    watch.id = Some(1);
    match st.handle_request(&v, &watch).unwrap() {
        StreamingReply::Preparing { offer_sdp } => assert!(offer_sdp.contains("s=Streaming 1\r\n")),
        other => panic!("unexpected {other:?}"),
    }
    assert!(st.relay_targets(1).is_empty());
    assert!(matches!(st.handle_request(&v, &stream_request("start")).unwrap(), StreamingReply::Started));
    assert_eq!(st.relay_targets(1), vec![v]);
    assert!(matches!(st.handle_request(&v, &stream_request("pause")).unwrap(), StreamingReply::Pausing));
    assert!(st.relay_targets(1).is_empty());
    let mut missing = stream_request("watch");
    missing.id = Some(77);
    assert_eq!(st.handle_request(&v, &missing).unwrap_err(), PluginError::Plugin("No such mountpoint: 77".into()));
}

// ---------------------------------------------------------------------------
// VideoCall
// ---------------------------------------------------------------------------

fn call_request(request: &str, username: Option<&str>) -> VideoCallRequest {
    VideoCallRequest { request: Some(request.into()), username: username.map(|u| u.to_string()), audio: None, video: None, bitrate: None }
}

#[test]
fn register_call_accept_hangup() {
    let mut st = VideoCallState::new();
    let alice = session(1, 1);
    let bob = session(2, 2);
    st.create_session(&alice);
    st.create_session(&bob);
    assert!(matches!(st.handle_request(&alice, &call_request("register", Some("alice")), None).0, VideoCallReply::Registered { .. }));
    assert!(matches!(st.handle_request(&bob, &call_request("register", Some("bob")), None).0, VideoCallReply::Registered { .. }));
    match st.handle_request(&bob, &call_request("register", Some("alice")), None).0 {
        VideoCallReply::Error { code, .. } => assert_eq!(code, 477),
        other => panic!("unexpected {other:?}"),
    }

    let offer = Jsep { jsep_type: JsepType::Offer, sdp: "v=0\r\n".into(), trickle: false };
    let (r, notice) = st.handle_request(&alice, &call_request("call", Some("bob")), Some(offer));
    assert!(matches!(r, VideoCallReply::Calling));
    let notice = notice.unwrap();
    assert_eq!(notice.target, bob);
    assert!(matches!(notice.event, CallEvent::IncomingCall { ref username } if username == "alice"));
    assert!(notice.jsep.is_some());

    let answer = Jsep { jsep_type: JsepType::Answer, sdp: "v=0\r\n".into(), trickle: false };
    let (r, notice) = st.handle_request(&bob, &call_request("accept", None), Some(answer));
    assert!(matches!(r, VideoCallReply::Accepted { .. }));
    assert_eq!(notice.unwrap().target, alice);

    let (r, notice) = st.handle_request(&alice, &call_request("hangup", None), None);
    assert!(matches!(r, VideoCallReply::Hangup { .. }));
    assert_eq!(notice.unwrap().target, bob);
}

#[test]
fn videocall_errors() {
    let mut st = VideoCallState::new();
    let alice = session(1, 1);
    st.create_session(&alice);
    match st.handle_request(&alice, &call_request("call", Some("bob")), None).0 {
        VideoCallReply::Error { code, .. } => assert_eq!(code, 473),
        other => panic!("unexpected {other:?}"),
    }
    match st.handle_request(&alice, &call_request("register", None), None).0 {
        VideoCallReply::Error { code, .. } => assert_eq!(code, 475),
        other => panic!("unexpected {other:?}"),
    }
    st.handle_request(&alice, &call_request("register", Some("alice")), None);
    let offer = Jsep { jsep_type: JsepType::Offer, sdp: "v=0\r\n".into(), trickle: false };
    match st.handle_request(&alice, &call_request("call", Some("nobody")), None).0 {
        VideoCallReply::Error { code, .. } => assert_eq!(code, 482),
        other => panic!("unexpected {other:?}"),
    }
    match st.handle_request(&alice, &call_request("call", Some("nobody")), Some(offer)).0 {
        VideoCallReply::Error { code, .. } => assert_eq!(code, 478),
        other => panic!("unexpected {other:?}"),
    }
    match st.handle_request(&alice, &call_request("list", None), None).0 {
        VideoCallReply::List { list } => assert_eq!(list, vec!["alice".to_string()]),
        other => panic!("unexpected {other:?}"),
    }
}

#[test]
fn publisher_leaving_drops_its_subscribers() {
    let mut st = VideoRoomState::new();
    st.init_default_room();
    let alice = session(1, 1);
    let bob = session(2, 2);
    st.create_session(&alice);
    st.create_session(&bob);
    let mut join = room_request("join");
    join.room = Some(1234);
    let alice_id = match st.handle_request(&alice, &join, &None).0.unwrap() {
        VideoRoomReply::Joined { id, .. } => id,
        other => panic!("unexpected {other:?}"),
    };
    let mut sub = room_request("join");
    sub.room = Some(1234);
    sub.ptype = Some("subscriber".into());
    sub.feed = Some(alice_id);
    st.handle_request(&bob, &sub, &None).0.unwrap();
    assert_eq!(st.rooms().get(1234).unwrap().subscribers.len(), 1);
    let (r, _) = st.handle_request(&alice, &room_request("leave"), &None);
    assert!(matches!(r, Ok(VideoRoomReply::Leaving)));
    let room = st.rooms().get(1234).unwrap();
    assert!(room.publishers.is_empty());
    assert!(room.subscribers.is_empty());
}

#[test]
fn destroying_a_caller_frees_the_callee() {
    let mut st = VideoCallState::new();
    let alice = session(1, 1);
    let bob = session(2, 2);
    st.create_session(&alice);
    st.create_session(&bob);
    st.handle_request(&alice, &call_request("register", Some("alice")), None);
    st.handle_request(&bob, &call_request("register", Some("bob")), None);
    let offer = Jsep { jsep_type: JsepType::Offer, sdp: "v=0\r\n".into(), trickle: false };
    st.handle_request(&alice, &call_request("call", Some("bob")), Some(offer));
    assert_eq!(st.relay_target(&alice, true, false), Some(bob));
    assert_eq!(st.relay_target(&bob, true, false), Some(alice));
    let notice = st.destroy_session(&alice).unwrap();
    assert_eq!(notice.target, bob);
    assert!(st.query_session(&bob).unwrap().peer.is_none());
    match st.handle_request(&bob, &call_request("list", None), None).0 {
        VideoCallReply::List { list } => assert_eq!(list, vec!["bob".to_string()]),
        other => panic!("unexpected {other:?}"),
    }
}

#[test]
fn joining_publishers_get_fresh_ids() {
    let mut st = VideoRoomState::new();
    st.init_default_room();
    let mut ids = Vec::new();
    for n in 1..=3u64 {
        let s = session(n, n);
        st.create_session(&s);
        let mut join = room_request("join");
        join.room = Some(1234);
        match st.handle_request(&s, &join, &None).0.unwrap() {
            VideoRoomReply::Joined { id, .. } => ids.push(id),
            other => panic!("unexpected {other:?}"),
        }
        assert_eq!(st.rooms().get(1234).unwrap().publishers.len(), n as usize);
    }
    assert!(ids[0] != ids[1] && ids[1] != ids[2] && ids[0] != ids[2]);
}

#[test]
fn stop_leaves_other_mountpoints_alone() {
    let mut st = StreamingState::new();
    st.init_default_mountpoint();
    let mut create = stream_request("create");
    create.id = Some(7);
    st.handle_request(&session(9, 9), &create).unwrap();
    let v = session(3, 4);
    st.create_session(&v);
    let mut watch = stream_request("watch");
    watch.id = Some(1);
    st.handle_request(&v, &watch).unwrap();
    assert!(matches!(st.handle_request(&v, &stream_request("stop")).unwrap(), StreamingReply::Stopped));
    assert!(st.mountpoints().get(1).unwrap().viewers.is_empty());
    assert!(st.mountpoints().get(7).unwrap().viewers.is_empty());
    assert_eq!(st.mountpoints().len(), 2);
}
