use janus_gateway::config::NatConfig;
use janus_gateway::fanout::FanOut;
use janus_gateway::link_headers::{ice_servers_from_nat, link_header_values, IceServer};
use janus_gateway::resource::{generate_etag, ResourceId, ResourceKind};
use janus_gateway::sdp_fragment::{generate_ice_restart_fragment, parse_sdp_fragment, TRICKLE_ICE_CONTENT_TYPE};
use janus_gateway::whip::{
    is_sdp_content_type, validate_url, whip_out_answer, whip_out_delete_headers, whip_out_headers, HttpReply,
    PatchPlan, WhipOutConfig, WhipWhepState,
};

fn empty_nat() -> NatConfig {
    NatConfig { stun_server: None, stun_port: 3478, ..NatConfig::default() }
}

fn header<'a>(r: &'a HttpReply, name: &str) -> Option<&'a str> {
    r.headers.iter().find(|(n, _)| n == name).map(|(_, v)| v.as_str())
}

fn id_of(n: u8) -> ResourceId {
    ResourceId::from_random([n; 16])
}

// ---------------------------------------------------------------------------
// Fan-out
// ---------------------------------------------------------------------------

#[test]
fn new_fanout_is_empty() {
    let fanout = FanOut::new();
    assert_eq!(fanout.publisher_count(), 0);
}

#[test]
fn register_publisher() {
    let mut fanout = FanOut::new();
    let id = ResourceId::new().unwrap();
    fanout.register_publisher(id);
    assert!(fanout.has_publisher(&id));
    assert_eq!(fanout.publisher_count(), 1);
    assert_eq!(fanout.subscriber_count(&id), 0);
}

#[test]
fn remove_publisher() {
    let mut fanout = FanOut::new();
    let id = ResourceId::new().unwrap();
    fanout.register_publisher(id);
    let subs = fanout.remove_publisher(id);
    assert!(subs.is_empty());
    assert!(!fanout.has_publisher(&id));
    assert_eq!(fanout.publisher_count(), 0);
}

#[test]
fn remove_nonexistent_publisher() {
    let mut fanout = FanOut::new();
    let subs = fanout.remove_publisher(ResourceId::new().unwrap());
    assert!(subs.is_empty());
}

#[test]
fn add_subscriber_to_nonexistent_publisher_fails() {
    let mut fanout = FanOut::new();
    let pub_id = ResourceId::new().unwrap();
    assert!(!fanout.has_publisher(&pub_id));
    assert!(!fanout.add_subscriber(pub_id, ResourceId::new().unwrap()));
    assert_eq!(fanout.publisher_count(), 0);
}

#[test]
fn subscriber_count_for_nonexistent() {
    let fanout = FanOut::new();
    assert_eq!(fanout.subscriber_count(&ResourceId::new().unwrap()), 0);
}

#[test]
fn multiple_publishers() {
    let mut fanout = FanOut::new();
    let a = ResourceId::new().unwrap();
    let b = ResourceId::new().unwrap();
    fanout.register_publisher(a);
    fanout.register_publisher(b);
    assert_eq!(fanout.publisher_count(), 2);
    assert!(fanout.has_publisher(&a));
    assert!(fanout.has_publisher(&b));
}

#[test]
fn relay_rtp_to_no_subscribers_does_not_panic() {
    let mut fanout = FanOut::new();
    let id = ResourceId::new().unwrap();
    fanout.register_publisher(id);
    assert!(fanout.relay_targets(id).is_empty());
}

#[test]
fn relay_rtp_to_nonexistent_publisher_does_not_panic() {
    let fanout = FanOut::new();
    assert!(fanout.relay_targets(ResourceId::new().unwrap()).is_empty());
}

#[test]
fn subscribe_then_unsubscribe_restores_subscribers() {
    let mut fanout = FanOut::new();
    let p = id_of(1);
    let a = id_of(2);
    let b = id_of(3);
    fanout.register_publisher(p);
    assert!(fanout.add_subscriber(p, a));
    assert!(fanout.add_subscriber(p, b));
    assert_eq!(fanout.relay_targets(p), vec![a, b]);
    fanout.remove_subscriber(p, b);
    assert_eq!(fanout.relay_targets(p), vec![a]);
    assert_eq!(fanout.remove_publisher(p), vec![a]);
}

// ---------------------------------------------------------------------------
// Link headers
// ---------------------------------------------------------------------------

#[test]
fn no_servers_no_links() {
    let servers = ice_servers_from_nat(&empty_nat());
    assert!(servers.is_empty());
    assert!(link_header_values(&servers).is_empty());
}

#[test]
fn stun_only() {
    let mut nat = NatConfig::default();
    nat.stun_server = Some("stun.l.google.com".into());
    nat.stun_port = 19302;
    let servers = ice_servers_from_nat(&nat);
    assert_eq!(servers.len(), 1);
    assert_eq!(servers[0].urls[0], "stun:stun.l.google.com:19302");
    assert!(servers[0].username.is_none());
    let links = link_header_values(&servers);
    assert_eq!(links.len(), 1);
    assert_eq!(links[0], "<stun:stun.l.google.com:19302>; rel=\"ice-server\"");
}

#[test]
fn turn_with_credentials() {
    let mut nat = empty_nat();
    nat.turn_server = Some("turn.example.com".into());
    nat.turn_port = 3478;
    nat.turn_user = Some("user1".into());
    nat.turn_pwd = Some("pass1".into());
    let servers = ice_servers_from_nat(&nat);
    assert_eq!(servers.len(), 1);
    let links = link_header_values(&servers);
    assert_eq!(links.len(), 1);
    assert!(links[0].contains("turn:turn.example.com:3478?transport=udp"));
    assert!(links[0].contains("username=\"user1\""));
    assert!(links[0].contains("credential=\"pass1\""));
    assert!(links[0].contains("credential-type=\"password\""));
}

#[test]
fn stun_and_turn() {
    let mut nat = NatConfig::default();
    nat.stun_server = Some("stun.example.com".into());
    nat.stun_port = 3478;
    nat.turn_server = Some("turn.example.com".into());
    nat.turn_port = 443;
    nat.turn_user = Some("u".into());
    nat.turn_pwd = Some("p".into());
    let servers = ice_servers_from_nat(&nat);
    assert_eq!(servers.len(), 2);
    let links = link_header_values(&servers);
    assert_eq!(links.len(), 2);
    assert!(links[0].contains("stun:"));
    assert!(links[1].contains("turn:"));
}

#[test]
fn turn_without_credentials() {
    let mut nat = empty_nat();
    nat.turn_server = Some("turn.example.com".into());
    let servers = ice_servers_from_nat(&nat);
    let links = link_header_values(&servers);
    assert_eq!(links.len(), 1);
    assert!(!links[0].contains("username"));
    assert!(!links[0].contains("credential"));
}

#[test]
fn link_header_rel_format() {
    let servers = vec![IceServer { urls: vec!["stun:s.example.com:3478".into()], username: None, credential: None }];
    let links = link_header_values(&servers);
    assert!(links[0].contains("rel=\"ice-server\""));
}

#[test]
fn multiple_urls_per_server() {
    let servers = vec![IceServer {
        urls: vec!["turn:a.example.com:3478?transport=udp".into(), "turn:a.example.com:443?transport=tcp".into()],
        username: Some("u".into()),
        credential: Some("p".into()),
    }];
    let links = link_header_values(&servers);
    assert_eq!(links.len(), 2);
    assert_eq!(
        links[1],
        "<turn:a.example.com:443?transport=tcp>; rel=\"ice-server\"; username=\"u\"; credential=\"p\"; credential-type=\"password\""
    );
}

// ---------------------------------------------------------------------------
// SDP fragments
// ---------------------------------------------------------------------------

#[test]
fn parse_empty_fragment() {
    let frag = parse_sdp_fragment("");
    assert!(frag.ice_ufrag.is_none());
    assert!(frag.ice_pwd.is_none());
    assert!(frag.mid.is_none());
    assert!(frag.candidates.is_empty());
}

#[test]
fn parse_fragment_with_credentials() {
    let body = "a=ice-ufrag:abc123\r\na=ice-pwd:secretpassword\r\n";
    let frag = parse_sdp_fragment(body);
    assert_eq!(frag.ice_ufrag.as_deref(), Some("abc123"));
    assert_eq!(frag.ice_pwd.as_deref(), Some("secretpassword"));
}

#[test]
fn parse_fragment_with_candidates() {
    let body = "\
        a=mid:0\r\n\
        a=candidate:1 1 UDP 2130706431 192.168.1.1 50000 typ host\r\n\
        a=candidate:2 1 UDP 1694498815 203.0.113.1 50000 typ srflx\r\n";
    let frag = parse_sdp_fragment(body);
    assert_eq!(frag.mid.as_deref(), Some("0"));
    assert_eq!(frag.candidates.len(), 2);
    assert!(frag.candidates[0].starts_with("candidate:"));
}

#[test]
fn parse_fragment_with_everything() {
    let body = "\
        a=ice-ufrag:ufrag1\r\n\
        a=ice-pwd:pwd1\r\n\
        a=mid:audio\r\n\
        a=candidate:1 1 UDP 2130706431 10.0.0.1 9999 typ host\r\n";
    let frag = parse_sdp_fragment(body);
    assert_eq!(frag.ice_ufrag.as_deref(), Some("ufrag1"));
    assert_eq!(frag.ice_pwd.as_deref(), Some("pwd1"));
    assert_eq!(frag.mid.as_deref(), Some("audio"));
    assert_eq!(frag.candidates.len(), 1);
}

#[test]
fn parse_fragment_ignores_unknown_lines() {
    let body = "v=0\r\na=ice-ufrag:test\r\nm=audio 9 UDP/TLS/RTP/SAVPF 111\r\n";
    let frag = parse_sdp_fragment(body);
    assert_eq!(frag.ice_ufrag.as_deref(), Some("test"));
    assert!(frag.candidates.is_empty());
}

#[test]
fn generate_fragment_with_mid() {
    let frag = generate_ice_restart_fragment("newufrag", "newpwd", Some("0"));
    assert!(frag.contains("a=mid:0\r\n"));
    assert!(frag.contains("a=ice-ufrag:newufrag\r\n"));
    assert!(frag.contains("a=ice-pwd:newpwd\r\n"));
}

#[test]
fn generate_fragment_without_mid() {
    let frag = generate_ice_restart_fragment("u", "p", None);
    assert!(!frag.contains("a=mid:"));
    assert!(frag.contains("a=ice-ufrag:u\r\n"));
    assert!(frag.contains("a=ice-pwd:p\r\n"));
}

#[test]
fn trickle_content_type_constant() {
    assert_eq!(TRICKLE_ICE_CONTENT_TYPE, "application/trickle-ice-sdpfrag");
}

#[test]
fn parse_roundtrip() {
    let generated = generate_ice_restart_fragment("uf", "pw", Some("1"));
    let parsed = parse_sdp_fragment(&generated);
    assert_eq!(parsed.ice_ufrag.as_deref(), Some("uf"));
    assert_eq!(parsed.ice_pwd.as_deref(), Some("pw"));
    assert_eq!(parsed.mid.as_deref(), Some("1"));
}

// ---------------------------------------------------------------------------
// Resource ids and ETags
// ---------------------------------------------------------------------------

#[test]
fn resource_id_roundtrip() {
    let id = ResourceId::new().unwrap();
    let s = id.to_string();
    let parsed: ResourceId = s.parse().unwrap();
    assert_eq!(id, parsed);
}

#[test]
fn resource_id_display() {
    let id = ResourceId::new().unwrap();
    assert_eq!(id.to_string().len(), 36);
}

#[test]
fn resource_id_text_is_grouped_hex() {
    let mut raw = [0u8; 16];
    for (i, b) in raw.iter_mut().enumerate() {
        *b = i as u8 * 17;
    }
    let id = ResourceId::from_random(raw);
    assert_eq!(id.to_string(), "00112233-4455-4677-8899-aabbccddeeff");
    let upper: ResourceId = "00112233445546778899AABBCCDDEEFF".parse().unwrap();
    assert_eq!(upper, id);
}

#[test]
fn resource_id_parse_invalid() {
    let result: Result<ResourceId, _> = "not-a-uuid".parse();
    assert!(result.is_err());
    assert_eq!(ResourceId::parse("zz").unwrap_err(), "invalid resource ID format");
}

#[test]
fn generate_etag_is_unique() {
    assert_ne!(generate_etag().unwrap(), generate_etag().unwrap());
}

#[test]
fn generate_etag_is_hex() {
    let etag = generate_etag().unwrap();
    assert_eq!(etag.len(), 32);
    assert!(etag.chars().all(|c| c.is_ascii_hexdigit()));
}

#[test]
fn resource_kind_equality() {
    assert_eq!(ResourceKind::Whip, ResourceKind::Whip);
    assert_eq!(ResourceKind::Whep, ResourceKind::Whep);
    assert_ne!(ResourceKind::Whip, ResourceKind::Whep);
}

// ---------------------------------------------------------------------------
// WHIP/WHEP state
// ---------------------------------------------------------------------------

#[test]
fn whip_whep_state_default_nat() {
    let state = WhipWhepState::new(&NatConfig::default());
    assert_eq!(state.resource_count(), 0);
    assert_eq!(state.ice_servers().len(), 1);
    assert!(!state.ice_lite());
}

#[test]
fn whip_whep_state_empty_nat() {
    let state = WhipWhepState::new(&empty_nat());
    assert!(state.ice_servers().is_empty());
}

#[test]
fn whip_whep_state_with_stun() {
    let mut nat = empty_nat();
    nat.stun_server = Some("stun.example.com".into());
    nat.stun_port = 3478;
    let state = WhipWhepState::new(&nat);
    assert_eq!(state.ice_servers().len(), 1);
}

#[test]
fn whip_whep_state_with_turn() {
    let mut nat = empty_nat();
    nat.turn_server = Some("turn.example.com".into());
    nat.turn_port = 3478;
    nat.turn_user = Some("user".into());
    nat.turn_pwd = Some("pass".into());
    let state = WhipWhepState::new(&nat);
    assert_eq!(state.ice_servers().len(), 1);
}

#[test]
fn whip_whep_state_with_stun_and_turn() {
    let mut nat = empty_nat();
    nat.stun_server = Some("stun.example.com".into());
    nat.turn_server = Some("turn.example.com".into());
    nat.turn_user = Some("u".into());
    nat.turn_pwd = Some("p".into());
    let state = WhipWhepState::new(&nat);
    assert_eq!(state.ice_servers().len(), 2);
}

#[test]
fn whip_whep_state_ice_lite() {
    let mut nat = NatConfig::default();
    nat.ice_lite = true;
    let state = WhipWhepState::new(&nat);
    assert!(state.ice_lite());
}

#[test]
fn options_whip_returns_cors_and_accept_patch() {
    let state = WhipWhepState::new(&NatConfig::default());
    let r = state.options_reply();
    assert_eq!(r.status, 204);
    assert_eq!(header(&r, "Access-Control-Allow-Origin"), Some("*"));
    assert_eq!(header(&r, "Accept-Patch"), Some("application/trickle-ice-sdpfrag"));
    assert_eq!(header(&r, "Link"), Some("<stun:stun.l.google.com:19302>; rel=\"ice-server\""));
}

#[test]
fn whip_rejects_non_sdp_content_type() {
    let state = WhipWhepState::new(&empty_nat());
    let r = state.whip_precheck(Some("text/plain")).unwrap();
    assert_eq!(r.status, 415);
    assert_eq!(r.body, "Content-Type must be application/sdp");
    assert_eq!(header(&r, "Access-Control-Allow-Origin"), Some("*"));
    assert!(state.whip_precheck(Some("application/sdp")).is_none());
    assert!(is_sdp_content_type(Some("application/sdp; charset=utf-8")));
    assert!(!is_sdp_content_type(None));
}

#[test]
fn whep_404_for_nonexistent_publisher() {
    let state = WhipWhepState::new(&empty_nat());
    let id = ResourceId::new().unwrap().to_string();
    let r = state.whep_precheck(Some("application/sdp"), &id).unwrap_err();
    assert_eq!(r.status, 404);
}

#[test]
fn whep_400_for_invalid_publisher_id() {
    let state = WhipWhepState::new(&empty_nat());
    let r = state.whep_precheck(Some("application/sdp"), "not-a-valid-id").unwrap_err();
    assert_eq!(r.status, 400);
    assert_eq!(r.body, "Invalid publisher ID");
}

#[test]
fn delete_404_for_nonexistent_resource() {
    let mut state = WhipWhepState::new(&empty_nat());
    let plan = state.delete(&ResourceId::new().unwrap().to_string());
    assert_eq!(plan.reply.status, 404);
    assert!(plan.closed.is_empty());
}

#[test]
fn delete_400_for_invalid_resource_id() {
    let mut state = WhipWhepState::new(&empty_nat());
    let plan = state.delete("garbage");
    assert_eq!(plan.reply.status, 400);
    assert_eq!(plan.reply.body, "Invalid resource ID");
}

#[test]
fn patch_404_for_nonexistent_resource() {
    let state = WhipWhepState::new(&empty_nat());
    match state.patch(&ResourceId::new().unwrap().to_string(), Some(TRICKLE_ICE_CONTENT_TYPE), None, "") {
        PatchPlan::Reply(r) => assert_eq!(r.status, 404),
        other => panic!("unexpected {other:?}"),
    }
}

fn state_with_publisher_etag(etag: &str) -> (WhipWhepState, ResourceId) {
    let mut state = WhipWhepState::new(&NatConfig::default());
    let id = ResourceId::new().unwrap();
    state.add_whip(id, etag.to_string(), "v=0\r\n".to_string());
    (state, id)
}

fn state_with_publisher() -> (WhipWhepState, ResourceId) {
    let mut state = WhipWhepState::new(&empty_nat());
    let id = id_of(7);
    let r = state.add_whip(id, "abc".to_string(), "v=0\r\n".to_string());
    assert_eq!(r.status, 201);
    assert_eq!(r.body, "v=0\r\n");
    assert_eq!(header(&r, "ETag"), Some("\"abc\""));
    assert_eq!(header(&r, "Location"), Some(format!("/resource/{}", id.to_string()).as_str()));
    (state, id)
}

#[test]
fn patch_415_for_wrong_content_type() {
    let (state, id) = state_with_publisher_etag("test");
    match state.patch(&id.to_string(), Some("application/json"), None, "{}") {
        PatchPlan::Reply(r) => assert_eq!(r.status, 415),
        other => panic!("unexpected {other:?}"),
    }
}

#[test]
fn patch_412_for_etag_mismatch() {
    let mut state = WhipWhepState::new(&NatConfig::default());
    let id = ResourceId::new().unwrap();
    state.add_whip(id, "correct-etag".to_string(), "v=0\r\n".to_string());
    let body = "a=ice-ufrag:test\r\na=ice-pwd:test\r\na=candidate:1 1 UDP 2130706431 10.0.0.1 9999 typ host\r\n";
    match state.patch(&id.to_string(), Some(TRICKLE_ICE_CONTENT_TYPE), Some("\"wrong-etag\""), body) {
        PatchPlan::Reply(r) => {
            assert_eq!(r.status, 412);
            assert_eq!(r.body, "ETag mismatch");
        }
        other => panic!("unexpected {other:?}"),
    }
}

#[test]
fn patch_trickle_with_correct_etag() {
    let (state, id) = state_with_publisher_etag("my-etag");
    let body = "a=mid:0\r\na=candidate:1 1 UDP 2130706431 10.0.0.1 9999 typ host\r\n";
    match state.patch(&id.to_string(), Some(TRICKLE_ICE_CONTENT_TYPE), Some("\"my-etag\""), body) {
        PatchPlan::Trickle { id: target, candidates, mid, reply } => {
            assert_eq!(target, id);
            assert_eq!(candidates, vec!["candidate:1 1 UDP 2130706431 10.0.0.1 9999 typ host".to_string()]);
            assert_eq!(mid, "0");
            assert_eq!(reply.status, 204);
        }
        other => panic!("unexpected {other:?}"),
    }
}

#[test]
fn patch_trickle_without_if_match_succeeds() {
    let (state, id) = state_with_publisher_etag("etag");
    match state.patch(&id.to_string(), Some(TRICKLE_ICE_CONTENT_TYPE), None, "a=mid:0\r\n") {
        PatchPlan::Trickle { mid, candidates, reply, .. } => {
            assert_eq!(mid, "0");
            assert!(candidates.is_empty());
            assert_eq!(reply.status, 204);
        }
        other => panic!("unexpected {other:?}"),
    }
}

#[test]
fn patch_with_star_asks_for_ice_restart() {
    let (mut state, id) = state_with_publisher();
    match state.patch(&id.to_string(), Some(TRICKLE_ICE_CONTENT_TYPE), Some("*"), "a=ice-ufrag:ru\r\na=ice-pwd:rp\r\n") {
        PatchPlan::Restart { id: target, remote_ufrag, remote_pwd, mid } => {
            assert_eq!(target, id);
            assert_eq!(remote_ufrag, "ru");
            assert_eq!(remote_pwd, "rp");
            assert_eq!(mid, None);
        }
        other => panic!("unexpected {other:?}"),
    }
    let r = state.finish_ice_restart(id, "new".to_string(), "lu", "lp", Some("0"));
    assert_eq!(r.status, 200);
    assert_eq!(header(&r, "ETag"), Some("\"new\""));
    assert_eq!(state.resource(&id).unwrap().etag, "new");
    match state.patch(&id.to_string(), Some(TRICKLE_ICE_CONTENT_TYPE), Some("*"), "a=ice-ufrag:ru\r\n") {
        PatchPlan::Reply(r) => assert_eq!(r.body, "Missing ice-pwd in SDP fragment"),
        other => panic!("unexpected {other:?}"),
    }
}

#[test]
fn delete_existing_whip_resource() {
    let (mut state, id) = state_with_publisher();
    let sub = id_of(9);
    let r = state.whep_precheck(Some("application/sdp"), &id.to_string()).unwrap();
    assert_eq!(r, id);
    let reply = state.add_whep(sub, id, "e2".to_string(), "v=0\r\n".to_string());
    assert_eq!(reply.status, 201);
    assert_eq!(state.relay_targets(id), vec![sub]);
    let plan = state.delete(&id.to_string());
    assert_eq!(plan.reply.status, 200);
    assert_eq!(plan.closed, vec![id, sub]);
    assert_eq!(state.resource_count(), 0);
    assert!(!state.has_publisher(&id));
}

#[test]
fn delete_whep_resource_unsubscribes_it() {
    let (mut state, id) = state_with_publisher();
    let sub = id_of(9);
    state.add_whep(sub, id, "e2".to_string(), "v=0\r\n".to_string());
    let plan = state.delete(&sub.to_string());
    assert_eq!(plan.reply.status, 200);
    assert_eq!(plan.closed, vec![sub]);
    assert!(state.relay_targets(id).is_empty());
    assert_eq!(state.resource_count(), 1);
}

#[test]
fn whip_out_relay_is_deleted_remotely() {
    let (mut state, id) = state_with_publisher();
    let out = id_of(11);
    state.add_whip_out(out, id, "e3".into(), Some("http://r/res/1".into()), Some("tok".into()), "http://r/whip".into());
    let plan = state.delete(&out.to_string());
    assert_eq!(plan.closed, vec![out]);
    assert_eq!(plan.remotes, vec![("http://r/res/1".to_string(), Some("tok".to_string()))]);
    assert_eq!(whip_out_delete_headers(Some("tok")), vec![("Authorization".to_string(), "Bearer tok".to_string())]);
}

#[test]
fn whip_out_requests_and_answers() {
    assert!(validate_url("http://example.com/whip").is_ok());
    assert!(validate_url("https://example.com/whip").unwrap_err().contains("HTTPS"));
    assert_eq!(
        validate_url("ftp://x").unwrap_err(),
        "Unsupported URL scheme (only http:// is supported): ftp://x"
    );
    let hs = whip_out_headers(&WhipOutConfig { endpoint_url: "http://x".into(), bearer_token: None });
    assert_eq!(hs, vec![("Content-Type".to_string(), "application/sdp".to_string())]);
    assert_eq!(
        whip_out_answer(201, "201 Created", Some("/r/1".into()), "v=0".into()),
        Ok((Some("/r/1".to_string()), "v=0".to_string()))
    );
    assert_eq!(
        whip_out_answer(500, "500 Internal Server Error", None, "boom".into()).unwrap_err(),
        "Remote WHIP endpoint returned 500 Internal Server Error: boom"
    );
}

#[test]
fn cors_headers_present_on_error_responses() {
    let mut state = WhipWhepState::new(&empty_nat());
    let plan = state.delete("bad");
    assert_eq!(header(&plan.reply, "Access-Control-Allow-Origin"), Some("*"));
    assert_eq!(header(&plan.reply, "Access-Control-Expose-Headers"), Some("Location, ETag, Link, Accept-Patch"));
}

#[test]
fn deleting_a_publisher_tears_down_its_relays() {
    let (mut state, id) = state_with_publisher();
    let sub = id_of(9);
    let out = id_of(11);
    let bare = id_of(12);
    state.add_whep(sub, id, "e2".to_string(), "v=0\r\n".to_string());
    state.add_whip_out(out, id, "e3".into(), Some("http://r/res/1".into()), None, "http://r/whip".into());
    state.add_whip_out(bare, id, "e4".into(), None, None, "http://r/whip".into());
    let plan = state.delete(&id.to_string());
    assert_eq!(plan.reply.status, 200);
    assert_eq!(plan.closed, vec![id, sub, out, bare]);
    assert_eq!(plan.remotes, vec![("http://r/res/1".to_string(), None)]);
    assert_eq!(state.resource_count(), 0);
}
