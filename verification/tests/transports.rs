use janus_gateway::http::{
    cache_control, file_etag, forbidden_reply, mime_type, not_found_reply, simple_hash, static_file_reply,
    static_relative_path, HttpClients, HttpTransportConfig, StaticReply,
};
use janus_gateway::server::GatewayReply;
use janus_gateway::ws::{new_client_id, ws_step, WsClients, WsInput, WsStep, WsTransportConfig, INVALID_JSON_CODE};

fn header<'a>(r: &'a StaticReply, name: &str) -> Option<&'a str> {
    r.headers.iter().find(|(n, _)| n == name).map(|(_, v)| v.as_str())
}

#[test]
fn default_http_config() {
    let cfg = HttpTransportConfig::default();
    assert_eq!(cfg.port, 8088);
    assert_eq!(cfg.admin_port, 0);
    assert_eq!(cfg.base_path, "/janus");
    assert_eq!(cfg.address, "0.0.0.0");
    assert_eq!(cfg.admin_base_path, "/admin");
    assert!(cfg.static_dir.is_none());
    assert!(cfg.whip_whep);
    assert_eq!(cfg.cors_allow_origin, "*");
}

#[test]
fn default_ws_config() {
    let cfg = WsTransportConfig::default();
    assert_eq!(cfg.port, 8188);
    assert_eq!(cfg.admin_port, 0);
    assert_eq!(cfg.subprotocol, "janus-protocol");
}

#[test]
fn failed_create_cleans_up_preallocated_sender() {
    let mut clients = HttpClients::new();
    let refused = GatewayReply::Error { transaction: "t1".into(), code: 403, reason: "Unauthorized request (wrong or missing secret/token)".into() };
    assert!(!clients.after_create("c1".into(), &refused));
    assert_eq!(clients.len(), 0);
}

#[test]
fn destroy_cleans_up_http_client_mappings() {
    let mut clients = HttpClients::new();
    let created = GatewayReply::Created { transaction: "c1".into(), id: 77 };
    assert!(clients.after_create("client-a".into(), &created));
    assert_eq!(clients.len(), 1);
    assert_eq!(clients.client_for(77).as_deref(), Some("client-a"));
    let done = GatewayReply::Success { transaction: "d1".into(), session_id: 77 };
    assert_eq!(clients.after_session_request(77, true, &done).as_deref(), Some("client-a"));
    assert_eq!(clients.len(), 0);
    assert!(clients.client_for(77).is_none());
}

#[test]
fn non_destroy_requests_keep_mappings() {
    let mut clients = HttpClients::new();
    clients.after_create("a".into(), &GatewayReply::Created { transaction: "c".into(), id: 5 });
    let ok = GatewayReply::Success { transaction: "k".into(), session_id: 5 };
    assert!(clients.after_session_request(5, false, &ok).is_none());
    let err = GatewayReply::Error { transaction: "d".into(), code: 458, reason: "x".into() };
    assert!(clients.after_session_request(5, true, &err).is_none());
    assert_eq!(clients.len(), 1);
}

#[test]
fn longpoll_on_unknown_session_errors() {
    let clients = HttpClients::new();
    assert_eq!(clients.longpoll_client(42), Err((458, "No such session 42".to_string())));
}

#[test]
fn static_paths_are_sanitised() {
    assert_eq!(static_relative_path("/").as_deref(), Some("index.html"));
    assert_eq!(static_relative_path("").as_deref(), Some("index.html"));
    assert_eq!(static_relative_path("//demo/app.js").as_deref(), Some("demo/app.js"));
    assert_eq!(static_relative_path("/../etc/passwd"), None);
    assert_eq!(static_relative_path("/a/..b"), None);
}

#[test]
fn static_types_and_caching() {
    assert_eq!(mime_type("html"), "text/html; charset=utf-8");
    assert_eq!(mime_type("jpeg"), "image/jpeg");
    assert_eq!(mime_type("bin"), "application/octet-stream");
    assert_eq!(cache_control("html"), "no-cache");
    assert_eq!(cache_control("js"), "public, max-age=86400");
    assert_eq!(cache_control("ico"), "public, max-age=604800");
    assert_eq!(cache_control("woff2"), "public, max-age=31536000");
    assert_eq!(cache_control(""), "public, max-age=3600");
}

#[test]
fn simple_hash_is_fnv1a() {
    assert_eq!(simple_hash(b""), 0xcbf29ce484222325);
    assert_eq!(simple_hash(b"a"), 0xaf63dc4c8601ec8c);
    assert_eq!(file_etag(b"a"), "1-af63dc4c8601ec8c");
}

#[test]
fn static_file_is_served_with_tag() {
    let r = static_file_reply("html/index.html", b"<p>hi</p>".to_vec(), None, Some("gzip"));
    assert_eq!(r.status, 200);
    assert_eq!(r.body, b"<p>hi</p>".to_vec());
    assert_eq!(header(&r, "content-type"), Some("text/html; charset=utf-8"));
    assert_eq!(header(&r, "cache-control"), Some("no-cache"));
    let tag = format!("\"{}\"", file_etag(b"<p>hi</p>"));
    assert_eq!(header(&r, "etag"), Some(tag.as_str()));
    assert_eq!(header(&r, "content-encoding"), None);

    let again = static_file_reply("html/index.html", b"<p>hi</p>".to_vec(), Some(&tag), None);
    assert_eq!(again.status, 304);
    assert!(again.body.is_empty());
    let bare = file_etag(b"<p>hi</p>");
    assert_eq!(static_file_reply("html/index.html", b"<p>hi</p>".to_vec(), Some(&bare), None).status, 304);
}

#[test]
fn large_text_files_are_compressed() {
    let body = vec![b'a'; 4096];
    let r = static_file_reply("app.js", body.clone(), None, Some("gzip, deflate"));
    assert_eq!(r.status, 200);
    assert_eq!(header(&r, "content-encoding"), Some("gzip"));
    assert_ne!(r.body, body);
    assert_eq!(&r.body[..2], &[0x1f, 0x8b]);
    let plain = static_file_reply("app.png", body.clone(), None, Some("gzip"));
    assert_eq!(plain.body, body);
}

#[test]
fn error_pages() {
    let f = forbidden_reply();
    assert_eq!(f.status, 403);
    assert_eq!(f.body, b"Forbidden".to_vec());
    let n = not_found_reply();
    assert_eq!(n.status, 404);
    assert_eq!(n.body, b"Not Found".to_vec());
    assert_eq!(header(&n, "content-type"), Some("text/plain; charset=utf-8"));
}

#[test]
fn ws_frames_lead_to_steps() {
    assert!(matches!(ws_step(WsInput::Text("{}".into())), WsStep::Process(t) if t == "{}"));
    assert!(matches!(ws_step(WsInput::Ping(vec![1, 2])), WsStep::Pong(p) if p == vec![1, 2]));
    assert!(matches!(ws_step(WsInput::OtherFrame), WsStep::Ignore));
    assert!(matches!(ws_step(WsInput::Event), WsStep::Forward));
    assert!(matches!(ws_step(WsInput::Close), WsStep::Disconnect));
    assert!(matches!(ws_step(WsInput::ReadError), WsStep::Disconnect));
    assert!(matches!(ws_step(WsInput::StreamEnded), WsStep::Disconnect));
    assert!(matches!(ws_step(WsInput::EventsClosed), WsStep::Disconnect));
    assert_eq!(INVALID_JSON_CODE, 454);
}

#[test]
fn ws_clients_connect_and_leave() {
    let mut clients = WsClients::new();
    let a = new_client_id().unwrap();
    let b = new_client_id().unwrap();
    assert_eq!(a.len(), 36);
    assert_ne!(a, b);
    clients.connect(a.clone());
    clients.connect(b.clone());
    clients.connect(a.clone());
    assert_eq!(clients.client_count(), 2);
    assert!(clients.send_target(&a).is_ok());
    clients.disconnect(&a);
    assert_eq!(clients.client_count(), 1);
    assert_eq!(clients.send_target(&a), Err(format!("client not found: {a}")));
}
