use janus_gateway::config::JanusConfig;
use janus_gateway::server::{
    message_reply, offer_of, plugin_not_found_reason, pushed_jsep_action, result_jsep_action, trickle_candidate, Gateway, GatewayAction,
    GatewayEffect, GatewayReply, GatewayRequest, JsepAction, PluginOutcome,
};
use janus_gateway::types::{Jsep, JsepType};
use janus_gateway::transport::TransportRequest;

fn request(janus: &str, tx: &str) -> GatewayRequest {
    GatewayRequest {
        janus: Some(janus.into()),
        transaction: Some(tx.into()),
        apisecret: None,
        session_id: None,
        handle_id: None,
        plugin: None,
    }
}

fn reply(a: GatewayAction) -> GatewayReply {
    match a {
        GatewayAction::Respond { reply, .. } => reply,
        other => panic!("expected a response, got {other:?}"),
    }
}

fn error_code(r: &GatewayReply) -> Option<u32> {
    match r {
        GatewayReply::Error { code, .. } => Some(*code),
        _ => None,
    }
}

#[test]
fn ping_is_answered_with_pong() {
    let mut g = Gateway::new(JanusConfig::default());
    let t = TransportRequest::new("c");
    match reply(g.process_request(&t, &request("ping", "txn1"))) {
        GatewayReply::Pong { transaction } => assert_eq!(transaction, "txn1"),
        other => panic!("unexpected {other:?}"),
    }
}

#[test]
fn info_names_the_server_and_plugins() {
    let mut g = Gateway::new(JanusConfig::default());
    g.register_plugin("janus.plugin.echotest".into());
    let t = TransportRequest::new("c");
    match reply(g.process_request(&t, &request("info", "i"))) {
        GatewayReply::ServerInfo { plugins, session_timeout, .. } => {
            assert_eq!(plugins, vec!["janus.plugin.echotest".to_string()]);
            assert_eq!(session_timeout, 60);
        }
        other => panic!("unexpected {other:?}"),
    }
}

#[test]
fn create_attach_detach_destroy() {
    let mut g = Gateway::new(JanusConfig::default());
    g.register_plugin("janus.plugin.echotest".into());
    let t = TransportRequest::new("client-1");
    let sid = match reply(g.process_request(&t, &request("create", "c"))) {
        GatewayReply::Created { id, .. } => id,
        other => panic!("unexpected {other:?}"),
    };
    assert_eq!(g.sessions().session_count(), 1);
    assert_eq!(g.client_of(janus_gateway::types::SessionId(sid)).as_deref(), Some("client-1"));

    let mut attach = request("attach", "a");
    attach.session_id = Some(sid);
    attach.plugin = Some("janus.plugin.echotest".into());
    let hid = match g.process_request(&t, &attach) {
        GatewayAction::Respond { reply: GatewayReply::Attached { handle_id, .. }, effect: GatewayEffect::NotifyAttach { .. } } => handle_id,
        other => panic!("unexpected {other:?}"),
    };

    let mut unknown = request("attach", "u");
    unknown.session_id = Some(sid);
    unknown.plugin = Some("janus.plugin.nope".into());
    assert!(matches!(g.process_request(&t, &unknown), GatewayAction::Respond { reply: GatewayReply::Attached { .. }, effect: GatewayEffect::NotifyAttach { .. } }));

    let mut detach = request("detach", "d");
    detach.session_id = Some(sid);
    detach.handle_id = Some(hid);
    assert!(matches!(reply(g.process_request(&t, &detach)), GatewayReply::Success { .. }));
    assert_eq!(error_code(&reply(g.process_request(&t, &detach))), Some(458));

    let mut destroy = request("destroy", "x");
    destroy.session_id = Some(sid);
    assert!(matches!(reply(g.process_request(&t, &destroy)), GatewayReply::Success { .. }));
    assert_eq!(g.sessions().session_count(), 0);
    assert_eq!(error_code(&reply(g.process_request(&t, &destroy))), Some(458));
    assert!(g.client_of(janus_gateway::types::SessionId(sid)).is_none());
}

#[test]
fn keepalive_unknown_session_errors() {
    let mut g = Gateway::new(JanusConfig::default());
    let t = TransportRequest::new("c");
    let mut k = request("keepalive", "t1");
    k.session_id = Some(999999);
    assert_eq!(error_code(&reply(g.process_request(&t, &k))), Some(458));
}

#[test]
fn api_secret_enforced() {
    let mut cfg = JanusConfig::default();
    cfg.general.api_secret = Some("mysecret".into());
    let mut g = Gateway::new(cfg);
    let t = TransportRequest::new("c");
    assert_eq!(error_code(&reply(g.process_request(&t, &request("ping", "t1")))), Some(403));
    let mut wrong = request("ping", "t2");
    wrong.apisecret = Some("wrong".into());
    assert_eq!(error_code(&reply(g.process_request(&t, &wrong))), Some(403));
    let mut right = request("ping", "t3");
    right.apisecret = Some("mysecret".into());
    assert!(matches!(reply(g.process_request(&t, &right)), GatewayReply::Pong { .. }));
    assert!(g.is_api_secret_valid("mysecret"));
    assert!(!g.is_api_secret_valid("nope"));
}

#[test]
fn unknown_request_returns_error() {
    let mut g = Gateway::new(JanusConfig::default());
    let t = TransportRequest::new("c");
    assert!(error_code(&reply(g.process_request(&t, &request("dance", "t")))).is_some());
}

#[test]
fn message_without_session_errors() {
    let mut g = Gateway::new(JanusConfig::default());
    let t = TransportRequest::new("c");
    let mut m = request("message", "t1");
    m.session_id = Some(1);
    m.handle_id = Some(2);
    assert_eq!(error_code(&reply(g.process_request(&t, &m))), Some(458));
}

#[test]
fn server_can_be_created_and_dropped() {
    let g = Gateway::new(JanusConfig::default());
    assert_eq!(g.sessions().session_count(), 0);
    drop(g);
}

#[test]
fn register_plugin_works() {
    let mut g = Gateway::new(JanusConfig::default());
    assert!(g.packages().is_empty());
    g.register_plugin("janus.plugin.echotest".into());
    assert!(g.has_plugin("janus.plugin.echotest"));
    assert!(!g.has_plugin("janus.plugin.videoroom"));
    assert_eq!(g.packages(), vec!["janus.plugin.echotest".to_string()]);
}

#[test]
fn message_to_registered_plugin_dispatches() {
    let mut g = Gateway::new(JanusConfig::default());
    g.register_plugin("janus.plugin.echotest".into());
    let t = TransportRequest::new("test-client");
    let sid = match reply(g.process_request(&t, &request("create", "t1"))) {
        GatewayReply::Created { id, .. } => id,
        other => panic!("unexpected {other:?}"),
    };
    let mut attach = request("attach", "t2");
    attach.session_id = Some(sid);
    attach.plugin = Some("janus.plugin.echotest".into());
    let hid = match reply(g.process_request(&t, &attach)) {
        GatewayReply::Attached { handle_id, .. } => handle_id,
        other => panic!("unexpected {other:?}"),
    };
    let mut msg = request("message", "t3");
    msg.session_id = Some(sid);
    msg.handle_id = Some(hid);
    match g.process_request(&t, &msg) {
        GatewayAction::Dispatch { transaction, info } => {
            assert_eq!(transaction, "t3");
            assert_eq!(info.plugin_package, "janus.plugin.echotest");
            assert_eq!(info.handle_id.0, hid);
        }
        other => panic!("unexpected {other:?}"),
    }
    match message_reply("t3".into(), sid, PluginOutcome::Done) {
        GatewayReply::Ack { hint, .. } => assert_eq!(hint.as_deref(), Some("Event pushed")),
        other => panic!("unexpected {other:?}"),
    }
    match message_reply("t4".into(), sid, PluginOutcome::Wait { hint: None }) {
        GatewayReply::Ack { hint, .. } => assert_eq!(hint.as_deref(), Some("Processing...")),
        other => panic!("unexpected {other:?}"),
    }
    assert_eq!(error_code(&message_reply("t5".into(), sid, PluginOutcome::Failed { reason: "x".into() })), Some(490));
}

#[test]
fn jsep_handling_decisions() {
    let offer = Some(Jsep { jsep_type: JsepType::Offer, sdp: "v=0".into(), trickle: true });
    let answer = Some(Jsep { jsep_type: JsepType::Answer, sdp: "v=0".into(), trickle: true });
    assert_eq!(result_jsep_action(&None, &offer), JsepAction::Omit);
    assert_eq!(result_jsep_action(&answer, &offer), JsepAction::AnswerWithPeerConnection);
    assert_eq!(result_jsep_action(&answer, &None), JsepAction::Forward);
    assert_eq!(result_jsep_action(&offer, &offer), JsepAction::Forward);
    assert_eq!(pushed_jsep_action(&answer), JsepAction::AnswerWithPeerConnection);
    assert_eq!(pushed_jsep_action(&offer), JsepAction::Forward);
    assert_eq!(offer_of(answer.as_ref().unwrap()).jsep_type, JsepType::Offer);
    assert_eq!(trickle_candidate(Some("candidate:1".into()), None, false), Some(("candidate:1".to_string(), "0".to_string())));
    assert_eq!(trickle_candidate(Some("candidate:1".into()), Some("2".into()), true), None);
    assert_eq!(trickle_candidate(None, None, false), None);
}

#[test]
fn plugin_not_found_reason_names_the_package() {
    assert_eq!(plugin_not_found_reason("janus.plugin.x"), "Plugin 'janus.plugin.x' not found");
}

#[test]
fn create_and_attach_with_drawn_ids() {
    let mut g = Gateway::new(JanusConfig::default());
    match g.create_with_id("c".into(), janus_gateway::types::SessionId(9), "client-9", 5) {
        GatewayAction::Respond { reply: GatewayReply::Created { transaction, id }, effect: GatewayEffect::Nothing } => {
            assert_eq!(transaction, "c");
            assert_eq!(id, 9);
        }
        other => panic!("unexpected {other:?}"),
    }
    assert_eq!(g.client_of(janus_gateway::types::SessionId(9)).as_deref(), Some("client-9"));
    assert_eq!(g.sessions().get_session(janus_gateway::types::SessionId(9)).unwrap().last_activity, 5);
    match g.attach_with_id("a".into(), 9, janus_gateway::types::HandleId(3), "janus.plugin.echotest".into()) {
        GatewayAction::Respond { reply: GatewayReply::Attached { session_id, handle_id, .. }, effect: GatewayEffect::NotifyAttach { plugin, .. } } => {
            assert_eq!((session_id, handle_id), (9, 3));
            assert_eq!(plugin, "janus.plugin.echotest");
        }
        other => panic!("unexpected {other:?}"),
    }
    assert_eq!(error_code(&reply(g.attach_with_id("b".into(), 10, janus_gateway::types::HandleId(4), "x".into()))), Some(458));
}
