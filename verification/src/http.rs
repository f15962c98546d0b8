//! The HTTP transport's decisions: its configuration, which client a
//! session's events go to, and how a static file is answered.
use vstd::prelude::*;
use vstd::string::StrSliceExecFns;
use vstd::string::StringExecFns;
use crate::client_map::{ClientMap, client_map_contents, client_map_get, client_map_insert, client_map_len, client_map_new, client_map_remove};
use crate::plugin_loader::{extension_of, path_extension};
use crate::server::GatewayReply;
use crate::text::{contains_seq, contains_str, decimal, hex, push_decimal, push_hex, str_eq};
use crate::whip::{headers_view, quoted};
use std::io::Write;

verus! {

/// HTTP transport configuration.
#[derive(Clone, Debug)]
pub struct HttpTransportConfig {
    pub address: String,
    pub port: u16,
    pub admin_port: u16,
    pub base_path: String,
    pub admin_base_path: String,
    /// Directory to serve static files from; files are served at the root
    /// path when it is set.
    pub static_dir: Option<String>,
    /// Whether the WHIP/WHEP endpoints are served.
    pub whip_whep: bool,
    /// The CORS allowed origin.
    pub cors_allow_origin: String,
}

impl Default for HttpTransportConfig {
    fn default() -> (c: Self)
        ensures
            c.address@ == "0.0.0.0"@,
            c.port == 8088,
            c.admin_port == 0,
            c.base_path@ == "/janus"@,
            c.admin_base_path@ == "/admin"@,
            c.static_dir is None,
            c.whip_whep,
            c.cors_allow_origin@ == "*"@,
    {
        HttpTransportConfig {
            address: "0.0.0.0".to_string(),
            port: 8088,
            admin_port: 0,
            base_path: "/janus".to_string(),
            admin_base_path: "/admin".to_string(),
            static_dir: None,
            whip_whep: true,
            cors_allow_origin: "*".to_string(),
        }
    }
}

/// Which HTTP client each session's events go to (long-poll queues are
/// kept per client).
#[derive(Debug)]
pub struct HttpClients {
    by_session: ClientMap,
}

/// Whether a reply is the success of a `create`, which names the new session.
pub open spec fn created_session(reply: GatewayReply) -> Option<u64> {
    match reply {
        GatewayReply::Created { id, .. } => Some(id),
        _ => None,
    }
}

/// Whether a reply is `{"janus":"success"}`.
pub open spec fn is_success(reply: GatewayReply) -> bool {
    reply is Created || reply is Success || reply is Attached
}

/// The reason of a long-poll on an unknown session.
pub open spec fn no_such_session(session_id: u64) -> Seq<char> {
    "No such session "@ + decimal(session_id as nat)
}

impl HttpClients {
    /// Session id to client id.
    pub closed spec fn view(&self) -> Map<u64, Seq<char>> {
        client_map_contents(self.by_session)
    }

    /// No session is mapped yet.
    pub fn new() -> (c: Self)
        ensures
            c.view() == Map::<u64, Seq<char>>::empty(),
    {
        HttpClients { by_session: client_map_new() }
    }

    /// Number of sessions mapped to a client.
    pub fn len(&self) -> (n: usize)
        ensures
            n == self.view().dom().len(),
    {
        client_map_len(&self.by_session)
    }

    /// The client of a session, if it has one.
    pub fn client_for(&self, session_id: u64) -> (c: Option<String>)
        ensures
            c is Some <==> self.view().contains_key(session_id),
            c matches Some(id) ==> id@ == self.view()[session_id],
    {
        client_map_get(&self.by_session, session_id)
    }

    /// After a `create` sent by `client_id` was answered with `reply`: maps
    /// the new session to the client when the reply is a success that names
    /// one. Returns whether the client's event queue stays (when it does
    /// not, the transport drops the queue it set up for the request).
    pub fn after_create(&mut self, client_id: String, reply: &GatewayReply) -> (keep: bool)
        ensures
            keep == (created_session(*reply) is Some),
            match created_session(*reply) {
                Some(id) => final(self).view() == old(self).view().insert(id, client_id@),
                None => final(self).view() == old(self).view(),
            },
    {
        match reply {
            GatewayReply::Created { id, .. } => {
                client_map_insert(&mut self.by_session, *id, client_id);
                true
            },
            _ => false,
        }
    }

    /// After a request on `session_id` was answered with `reply`: when it
    /// was a `destroy` that succeeded, the session's mapping goes, and its
    /// client is returned so that its queue and event sender go too.
    pub fn after_session_request(&mut self, session_id: u64, is_destroy: bool, reply: &GatewayReply) -> (gone: Option<String>)
        ensures
            is_destroy && is_success(*reply) ==> final(self).view() == old(self).view().remove(session_id),
            !(is_destroy && is_success(*reply)) ==> final(self).view() == old(self).view(),
            gone is Some <==> (is_destroy && is_success(*reply) && old(self).view().contains_key(session_id)),
            gone matches Some(c) ==> c@ == old(self).view()[session_id],
    {
        let success = match reply {
            GatewayReply::Created { .. } => true,
            GatewayReply::Success { .. } => true,
            GatewayReply::Attached { .. } => true,
            _ => false,
        };
        if is_destroy && success {
            client_map_remove(&mut self.by_session, session_id)
        } else {
            None
        }
    }

    /// The client whose events a long-poll on `session_id` waits for, or the
    /// error (code 458) when the session has none.
    pub fn longpoll_client(&self, session_id: u64) -> (r: Result<String, (u32, String)>)
        ensures
            self.view().contains_key(session_id) ==> (r matches Ok(c) && c@ == self.view()[session_id]),
            !self.view().contains_key(session_id) ==> (r matches Err(e) && e.0 == 458 && e.1@ == no_such_session(session_id)),
    {
        match client_map_get(&self.by_session, session_id) {
            Some(c) => Ok(c),
            None => {
                let mut reason = "No such session ".to_string();
                push_decimal(&mut reason, session_id);
                Err((458, reason))
            },
        }
    }
}

// ---------------------------------------------------------------------------
// Static files
// ---------------------------------------------------------------------------

/// A static-file response: status, headers in order, body bytes.
#[derive(Clone, Debug)]
pub struct StaticReply {
    pub status: u16,
    pub headers: Vec<(String, String)>,
    pub body: Vec<u8>,
}

/// `s` without its leading slashes.
pub open spec fn strip_slashes(s: Seq<char>) -> Seq<char>
    decreases s.len(),
{
    if s.len() > 0 && s[0] == '/' {
        strip_slashes(s.drop_first())
    } else {
        s
    }
}

/// The file path, relative to the static directory, that a request path
/// names: leading slashes go, the empty path is `index.html`, and a path
/// holding `..` names none.
pub open spec fn static_path(request_path: Seq<char>) -> Option<Seq<char>> {
    let rel = strip_slashes(request_path);
    let rel = if rel.len() == 0 { "index.html"@ } else { rel };
    if contains_seq(rel, ".."@) { None } else { Some(rel) }
}

/// The content type of a file with extension `ext`.
pub open spec fn mime_of(ext: Seq<char>) -> Seq<char> {
    if ext == "html"@ { "text/html; charset=utf-8"@ }
    else if ext == "js"@ { "application/javascript; charset=utf-8"@ }
    else if ext == "css"@ { "text/css; charset=utf-8"@ }
    else if ext == "json"@ { "application/json"@ }
    else if ext == "png"@ { "image/png"@ }
    else if ext == "jpg"@ || ext == "jpeg"@ { "image/jpeg"@ }
    else if ext == "gif"@ { "image/gif"@ }
    else if ext == "svg"@ { "image/svg+xml"@ }
    else if ext == "ico"@ { "image/x-icon"@ }
    else if ext == "wasm"@ { "application/wasm"@ }
    else if ext == "woff2"@ { "font/woff2"@ }
    else if ext == "woff"@ { "font/woff"@ }
    else { "application/octet-stream"@ }
}

/// The `Cache-Control` of a file with extension `ext`.
pub open spec fn cache_of(ext: Seq<char>) -> Seq<char> {
    if ext == "html"@ { "no-cache"@ }
    else if ext == "js"@ || ext == "css"@ || ext == "wasm"@ { "public, max-age=86400"@ }
    else if ext == "png"@ || ext == "jpg"@ || ext == "jpeg"@ || ext == "gif"@ || ext == "svg"@ || ext == "ico"@ {
        "public, max-age=604800"@
    }
    else if ext == "woff"@ || ext == "woff2"@ { "public, max-age=31536000"@ }
    else { "public, max-age=3600"@ }
}

/// Whether files with extension `ext` are sent compressed to clients that
/// accept it.
pub open spec fn compressible(ext: Seq<char>) -> bool {
    ext == "html"@ || ext == "js"@ || ext == "css"@ || ext == "json"@ || ext == "svg"@
}

/// The FNV-1a hash (64 bits) of `data`.
pub open spec fn fnv1a(data: Seq<u8>) -> u64
    decreases data.len(),
{
    if data.len() == 0 {
        0xcbf29ce484222325u64
    } else {
        vstd::wrapping::u64_specs::wrapping_mul(fnv1a(data.drop_last()) ^ (data.last() as u64), 0x100000001b3u64)
    }
}

/// The entity tag of a file: its length and its hash, in hex.
pub open spec fn static_etag(data: Seq<u8>) -> Seq<char> {
    hex(data.len()) + "-"@ + hex(fnv1a(data) as nat)
}

/// The extension of a file path, or the empty string.
pub open spec fn ext_or_empty(path: Seq<char>) -> Seq<char> {
    match extension_of(path) {
        Some(e) => e,
        None => Seq::empty(),
    }
}

/// What gzip compression at the fast level makes of `data` (`None` where the
/// encoder reports an error).
pub uninterp spec fn gzip_fast_of(data: Seq<u8>) -> Option<Seq<u8>>;

/// The headers of a file sent whole.
pub open spec fn file_headers(ext: Seq<char>, etag: Seq<char>) -> Seq<(Seq<char>, Seq<char>)> {
    seq![
        ("content-type"@, mime_of(ext)),
        ("cache-control"@, cache_of(ext)),
        ("etag"@, quoted(etag)),
    ]
}

/// Whether the client's `If-None-Match` names the file's tag, quoted or not.
pub open spec fn etag_matches(if_none_match: Option<Seq<char>>, etag: Seq<char>) -> bool {
    if_none_match matches Some(v) && (v == quoted(etag) || v == etag)
}

/// Whether the file goes out compressed: a text asset over 1 KiB to a
/// client whose `Accept-Encoding` mentions gzip.
pub open spec fn wants_gzip(ext: Seq<char>, accept_encoding: Option<Seq<char>>, len: nat) -> bool {
    compressible(ext) && (accept_encoding matches Some(a) && contains_seq(a, "gzip"@)) && len > 1024
}

/// A plain-text reply.
pub open spec fn text_reply_is(r: StaticReply, status: u16, text: Seq<char>) -> bool {
    r.status == status && headers_view(r.headers@) == seq![("content-type"@, "text/plain; charset=utf-8"@)]
        && r.body@ == text.map_values(|c: char| c as u8)
}

/// The reply to a request for the file at `path` with bytes `contents`,
/// given the request's `If-None-Match` and `Accept-Encoding`.
pub open spec fn static_post(
    path: Seq<char>,
    contents: Seq<u8>,
    if_none_match: Option<Seq<char>>,
    accept_encoding: Option<Seq<char>>,
    r: StaticReply,
) -> bool {
    let ext = ext_or_empty(path);
    let etag = static_etag(contents);
    if etag_matches(if_none_match, etag) {
        r.status == 304 && r.body@.len() == 0
            && headers_view(r.headers@) == seq![("etag"@, quoted(etag)), ("cache-control"@, cache_of(ext))]
    } else if wants_gzip(ext, accept_encoding, contents.len()) && gzip_fast_of(contents) is Some {
        r.status == 200 && r.body@ == gzip_fast_of(contents).unwrap()
            && headers_view(r.headers@) == file_headers(ext, etag).push(("content-encoding"@, "gzip"@))
    } else {
        r.status == 200 && r.body@ == contents && headers_view(r.headers@) == file_headers(ext, etag)
    }
}

/// Compresses `data` with gzip at the fast level.
///
/// Calls `flate2::write::GzEncoder::new` over a `Vec` with
/// `flate2::Compression::fast()`, `write_all` and `finish`. The result is
/// deterministic, named `gzip_fast_of`; nothing more is stated of it.
#[verifier::external_body]
fn gzip_fast(data: &[u8]) -> (r: Option<Vec<u8>>)
    ensures
        match r {
            Some(c) => gzip_fast_of(data@) == Some(c@),
            None => gzip_fast_of(data@) is None,
        },
{
    let mut encoder = flate2::write::GzEncoder::new(Vec::new(), flate2::Compression::fast());
    if encoder.write_all(data).is_err() {
        return None;
    }
    encoder.finish().ok()
}

/// The path under the static directory that `request_path` names, or `None`
/// when it holds `..` (answered 403).
pub fn static_relative_path(request_path: &str) -> (r: Option<String>)
    ensures
        match static_path(request_path@) {
            Some(p) => r matches Some(s) && s@ == p,
            None => r is None,
        },
{
    let n = request_path.unicode_len();
    let mut i: usize = 0;
    assert(request_path@.subrange(0, n as int) =~= request_path@);
    while i < n && request_path.get_char(i) == '/'
        invariant
            i <= n,
            n == request_path@.len(),
            strip_slashes(request_path@) == strip_slashes(request_path@.subrange(i as int, n as int)),
        decreases n - i,
    {
        proof {
            let rest = request_path@.subrange(i as int, n as int);
            assert(rest.drop_first() =~= request_path@.subrange(i as int + 1, n as int));
        }
        i = i + 1;
    }
    let rest = request_path.substring_char(i, n);
    proof {
        assert(strip_slashes(rest@) == rest@);
    }
    let rel: &str = if i == n {
        proof {
            reveal_strlit("index.html");
        }
        "index.html"
    } else {
        rest
    };
    if contains_str(rel, "..") {
        None
    } else {
        Some(rel.to_string())
    }
}

/// The content type of a file with extension `ext`.
pub fn mime_type(ext: &str) -> (m: &'static str)
    ensures
        m@ == mime_of(ext@),
{
    if str_eq(ext, "html") { "text/html; charset=utf-8" }
    else if str_eq(ext, "js") { "application/javascript; charset=utf-8" }
    else if str_eq(ext, "css") { "text/css; charset=utf-8" }
    else if str_eq(ext, "json") { "application/json" }
    else if str_eq(ext, "png") { "image/png" }
    else if str_eq(ext, "jpg") || str_eq(ext, "jpeg") { "image/jpeg" }
    else if str_eq(ext, "gif") { "image/gif" }
    else if str_eq(ext, "svg") { "image/svg+xml" }
    else if str_eq(ext, "ico") { "image/x-icon" }
    else if str_eq(ext, "wasm") { "application/wasm" }
    else if str_eq(ext, "woff2") { "font/woff2" }
    else if str_eq(ext, "woff") { "font/woff" }
    else { "application/octet-stream" }
}

/// The `Cache-Control` of a file with extension `ext`.
pub fn cache_control(ext: &str) -> (c: &'static str)
    ensures
        c@ == cache_of(ext@),
{
    if str_eq(ext, "html") { "no-cache" }
    else if str_eq(ext, "js") || str_eq(ext, "css") || str_eq(ext, "wasm") { "public, max-age=86400" }
    else if str_eq(ext, "png") || str_eq(ext, "jpg") || str_eq(ext, "jpeg") || str_eq(ext, "gif")
        || str_eq(ext, "svg") || str_eq(ext, "ico") {
        "public, max-age=604800"
    }
    else if str_eq(ext, "woff") || str_eq(ext, "woff2") { "public, max-age=31536000" }
    else { "public, max-age=3600" }
}

/// Whether files with extension `ext` may go out compressed.
pub fn is_compressible(ext: &str) -> (b: bool)
    ensures
        b == compressible(ext@),
{
    str_eq(ext, "html") || str_eq(ext, "js") || str_eq(ext, "css") || str_eq(ext, "json") || str_eq(ext, "svg")
}

/// Non-cryptographic hash of a file's bytes, for its entity tag (FNV-1a,
/// 64 bits).
pub fn simple_hash(data: &[u8]) -> (h: u64)
    ensures
        h == fnv1a(data@),
{
    let mut hash: u64 = 0xcbf29ce484222325;
    let mut i: usize = 0;
    while i < data.len()
        invariant
            i <= data@.len(),
            hash == fnv1a(data@.subrange(0, i as int)),
        decreases data@.len() - i,
    {
        proof {
            let next = data@.subrange(0, i as int + 1);
            assert(next.drop_last() =~= data@.subrange(0, i as int));
        }
        hash = hash ^ (data[i] as u64);
        hash = hash.wrapping_mul(0x100000001b3);
        i = i + 1;
    }
    assert(data@.subrange(0, data@.len() as int) =~= data@);
    hash
}

/// The entity tag of a file's contents: length and hash in lower-case hex,
/// joined by `-`.
pub fn file_etag(data: &[u8]) -> (e: String)
    ensures
        e@ == static_etag(data@),
{
    let mut e = String::new();
    push_hex(&mut e, data.len() as u64);
    e.append("-");
    push_hex(&mut e, simple_hash(data));
    proof {
        reveal_strlit("-");
    }
    assert(e@ =~= static_etag(data@));
    e
}

/// Converts text to its bytes, one per character (for ASCII text).
fn ascii_bytes(s: &str) -> (b: Vec<u8>)
    ensures
        b@ == s@.map_values(|c: char| c as u8),
{
    let n = s.unicode_len();
    let mut b: Vec<u8> = Vec::new();
    let mut i: usize = 0;
    while i < n
        invariant
            i <= n,
            n == s@.len(),
            b@ == s@.subrange(0, i as int).map_values(|c: char| c as u8),
        decreases n - i,
    {
        let c = s.get_char(i);
        b.push(c as u8);
        proof {
            assert(s@.subrange(0, i as int + 1) =~= s@.subrange(0, i as int).push(c));
        }
        i = i + 1;
        assert(b@ =~= s@.subrange(0, i as int).map_values(|c: char| c as u8));
    }
    assert(s@.subrange(0, n as int) =~= s@);
    b
}

/// A plain-text reply with `status`.
fn text_reply(status: u16, text: &str) -> (r: StaticReply)
    ensures
        text_reply_is(r, status, text@),
{
    let mut headers: Vec<(String, String)> = Vec::new();
    headers.push(("content-type".to_string(), "text/plain; charset=utf-8".to_string()));
    let r = StaticReply { status, headers, body: ascii_bytes(text) };
    assert(headers_view(r.headers@) =~= seq![("content-type"@, "text/plain; charset=utf-8"@)]);
    r
}

/// The reply to a path that holds `..`: 403.
pub fn forbidden_reply() -> (r: StaticReply)
    ensures
        text_reply_is(r, 403, "Forbidden"@),
{
    text_reply(403, "Forbidden")
}

/// The reply to a path with no readable file: 404.
pub fn not_found_reply() -> (r: StaticReply)
    ensures
        text_reply_is(r, 404, "Not Found"@),
{
    text_reply(404, "Not Found")
}

/// The reply to a request for the file at `path`, whose bytes are
/// `contents`, given the request's `If-None-Match` and `Accept-Encoding`.
///
/// A request whose `If-None-Match` names the file's tag is answered 304;
/// otherwise the file is sent (compressed when `wants_gzip` holds and the
/// encoder succeeds) with its type, caching policy and tag.
pub fn static_file_reply(path: &str, contents: Vec<u8>, if_none_match: Option<&str>, accept_encoding: Option<&str>) -> (r: StaticReply)
    ensures
        static_post(path@, contents@, crate::whip::opt_view(if_none_match), crate::whip::opt_view(accept_encoding), r),
{
    let ext = match path_extension(path) {
        Some(e) => e,
        None => String::new(),
    };
    let ghost ext_v = ext_or_empty(path@);
    proof {
        reveal_strlit("");
        assert(""@ =~= Seq::<char>::empty());
    }
    assert(ext@ == ext_v);
    let mime = mime_type(ext.as_str());
    let cache = cache_control(ext.as_str());
    let etag = file_etag(contents.as_slice());
    let mut tagged = "\"".to_string();
    tagged.append(etag.as_str());
    tagged.append("\"");
    proof {
        reveal_strlit("\"");
    }
    assert(tagged@ =~= quoted(etag@));
    let matched = match if_none_match {
        Some(v) => str_eq(v, tagged.as_str()) || str_eq(v, etag.as_str()),
        None => false,
    };
    if matched {
        let mut headers: Vec<(String, String)> = Vec::new();
        headers.push(("etag".to_string(), tagged));
        headers.push(("cache-control".to_string(), cache.to_string()));
        let r = StaticReply { status: 304, headers, body: Vec::new() };
        assert(headers_view(r.headers@) =~= seq![("etag"@, quoted(etag@)), ("cache-control"@, cache_of(ext_v))]);
        return r;
    }
    let accepts = match accept_encoding {
        Some(a) => contains_str(a, "gzip"),
        None => false,
    };
    let mut headers: Vec<(String, String)> = Vec::new();
    headers.push(("content-type".to_string(), mime.to_string()));
    headers.push(("cache-control".to_string(), cache.to_string()));
    headers.push(("etag".to_string(), tagged));
    assert(headers_view(headers@) =~= file_headers(ext_v, etag@));
    if is_compressible(ext.as_str()) && accepts && contents.len() > 1024 {
        match gzip_fast(contents.as_slice()) {
            Some(compressed) => {
                let ghost before = headers@;
                headers.push(("content-encoding".to_string(), "gzip".to_string()));
                assert(headers_view(headers@) =~= headers_view(before).push(("content-encoding"@, "gzip"@)));
                return StaticReply { status: 200, headers, body: compressed };
            },
            None => {},
        }
    }
    StaticReply { status: 200, headers, body: contents }
}

/// A session mapped to its client by a successful `create` and then
/// destroyed with success is unmapped again: the mapping is as before.
pub proof fn lemma_create_then_destroy_unmaps(a: HttpClients, b: HttpClients, c: HttpClients, session_id: u64, client_id: Seq<char>)
    requires
        !a.view().contains_key(session_id),
        b.view() == a.view().insert(session_id, client_id),
        c.view() == b.view().remove(session_id),
    ensures
        c.view() == a.view(),
{
    assert(c.view() =~= a.view());
}

/// Revalidating a file with the tag it was served with is answered 304
/// (Not Modified), with the same tag.
pub proof fn lemma_revalidation_not_modified(
    path: Seq<char>,
    contents: Seq<u8>,
    first_inm: Option<Seq<char>>,
    first_ae: Option<Seq<char>>,
    first: StaticReply,
    second_ae: Option<Seq<char>>,
    second: StaticReply,
)
    requires
        static_post(path, contents, first_inm, first_ae, first),
        first.status == 200,
        static_post(path, contents, Some(headers_view(first.headers@)[2].1), second_ae, second),
    ensures
        second.status == 304,
        second.body@.len() == 0,
        headers_view(second.headers@)[0] == ("etag"@, headers_view(first.headers@)[2].1),
{
    let etag = static_etag(contents);
    assert(headers_view(first.headers@)[2].1 == quoted(etag)) by {
        let ext = ext_or_empty(path);
        if wants_gzip(ext, first_ae, contents.len()) && gzip_fast_of(contents) is Some {
            assert(file_headers(ext, etag).push(("content-encoding"@, "gzip"@))[2] == ("etag"@, quoted(etag)));
        } else {
            assert(file_headers(ext, etag)[2] == ("etag"@, quoted(etag)));
        }
    }
}

/// Facts about the text of the content types and extensions.
proof fn lemma_mime_texts()
    ensures
        "text/html; charset=utf-8"@ =~= "text/"@ + "html"@ + "; charset=utf-8"@,
        "text/css; charset=utf-8"@ =~= "text/"@ + "css"@ + "; charset=utf-8"@,
        "image/png"@ =~= "image/"@ + "png"@,
        "image/jpeg"@ =~= "image/"@ + "jpeg"@,
        "image/gif"@ =~= "image/"@ + "gif"@,
        "font/woff"@ =~= "font/"@ + "woff"@,
        "font/woff2"@ =~= "font/"@ + "woff2"@,
{
    reveal_strlit("html");
    reveal_strlit("js");
    reveal_strlit("css");
    reveal_strlit("json");
    reveal_strlit("png");
    reveal_strlit("jpg");
    reveal_strlit("jpeg");
    reveal_strlit("gif");
    reveal_strlit("svg");
    reveal_strlit("ico");
    reveal_strlit("wasm");
    reveal_strlit("woff2");
    reveal_strlit("woff");
    reveal_strlit("text/html; charset=utf-8");
    reveal_strlit("application/javascript; charset=utf-8");
    reveal_strlit("text/css; charset=utf-8");
    reveal_strlit("application/json");
    reveal_strlit("image/png");
    reveal_strlit("image/jpeg");
    reveal_strlit("image/gif");
    reveal_strlit("image/svg+xml");
    reveal_strlit("image/x-icon");
    reveal_strlit("application/wasm");
    reveal_strlit("font/woff2");
    reveal_strlit("font/woff");
    reveal_strlit("application/octet-stream");
    reveal_strlit("text/");
    reveal_strlit("; charset=utf-8");
    reveal_strlit("image/");
    reveal_strlit("font/");
}

/// A content type's family as its first letter, and the lengths of those
/// that share one.
proof fn lemma_mime_first_letters()
    ensures
        "text/html; charset=utf-8"@[0] == 't', "text/css; charset=utf-8"@[0] == 't',
        "application/javascript; charset=utf-8"@[0] == 'a', "application/json"@[0] == 'a',
        "application/wasm"@[0] == 'a', "application/octet-stream"@[0] == 'a',
        "image/png"@[0] == 'i', "image/jpeg"@[0] == 'i', "image/gif"@[0] == 'i',
        "image/svg+xml"@[0] == 'i', "image/x-icon"@[0] == 'i',
        "font/woff2"@[0] == 'f', "font/woff"@[0] == 'f',
        "text/"@[0] == 't', "image/"@[0] == 'i', "font/"@[0] == 'f',
        "text/"@.len() == 5, "font/"@.len() == 5,
        "image/"@.len() == 6, "jpg"@.len() == 3, "svg"@.len() == 3, "ico"@.len() == 3,
        "image/jpeg"@.len() == 10, "image/svg+xml"@.len() == 13, "image/x-icon"@.len() == 12,
        "image/png"@.len() == 9, "image/gif"@.len() == 9,
{
    reveal_strlit("html");
    reveal_strlit("js");
    reveal_strlit("css");
    reveal_strlit("json");
    reveal_strlit("png");
    reveal_strlit("jpg");
    reveal_strlit("jpeg");
    reveal_strlit("gif");
    reveal_strlit("svg");
    reveal_strlit("ico");
    reveal_strlit("wasm");
    reveal_strlit("woff2");
    reveal_strlit("woff");
    reveal_strlit("text/html; charset=utf-8");
    reveal_strlit("application/javascript; charset=utf-8");
    reveal_strlit("text/css; charset=utf-8");
    reveal_strlit("application/json");
    reveal_strlit("image/png");
    reveal_strlit("image/jpeg");
    reveal_strlit("image/gif");
    reveal_strlit("image/svg+xml");
    reveal_strlit("image/x-icon");
    reveal_strlit("application/wasm");
    reveal_strlit("font/woff2");
    reveal_strlit("font/woff");
    reveal_strlit("application/octet-stream");
    reveal_strlit("text/");
    reveal_strlit("; charset=utf-8");
    reveal_strlit("image/");
    reveal_strlit("font/");
}

/// The known extensions are different texts.
proof fn lemma_extensions_distinct()
    ensures
        "html"@ != "js"@,
        "html"@ != "css"@,
        "html"@ != "json"@,
        "html"@ != "png"@,
        "html"@ != "jpg"@,
        "html"@ != "jpeg"@,
        "html"@ != "gif"@,
        "html"@ != "svg"@,
        "html"@ != "ico"@,
        "html"@ != "wasm"@,
        "html"@ != "woff2"@,
        "html"@ != "woff"@,
        "js"@ != "css"@,
        "js"@ != "json"@,
        "js"@ != "png"@,
        "js"@ != "jpg"@,
        "js"@ != "jpeg"@,
        "js"@ != "gif"@,
        "js"@ != "svg"@,
        "js"@ != "ico"@,
        "js"@ != "wasm"@,
        "js"@ != "woff2"@,
        "js"@ != "woff"@,
        "css"@ != "json"@,
        "css"@ != "png"@,
        "css"@ != "jpg"@,
        "css"@ != "jpeg"@,
        "css"@ != "gif"@,
        "css"@ != "svg"@,
        "css"@ != "ico"@,
        "css"@ != "wasm"@,
        "css"@ != "woff2"@,
        "css"@ != "woff"@,
        "json"@ != "png"@,
        "json"@ != "jpg"@,
        "json"@ != "jpeg"@,
        "json"@ != "gif"@,
        "json"@ != "svg"@,
        "json"@ != "ico"@,
        "json"@ != "wasm"@,
        "json"@ != "woff2"@,
        "json"@ != "woff"@,
        "png"@ != "jpg"@,
        "png"@ != "jpeg"@,
        "png"@ != "gif"@,
        "png"@ != "svg"@,
        "png"@ != "ico"@,
        "png"@ != "wasm"@,
        "png"@ != "woff2"@,
        "png"@ != "woff"@,
        "jpg"@ != "jpeg"@,
        "jpg"@ != "gif"@,
        "jpg"@ != "svg"@,
        "jpg"@ != "ico"@,
        "jpg"@ != "wasm"@,
        "jpg"@ != "woff2"@,
        "jpg"@ != "woff"@,
        "jpeg"@ != "gif"@,
        "jpeg"@ != "svg"@,
        "jpeg"@ != "ico"@,
        "jpeg"@ != "wasm"@,
        "jpeg"@ != "woff2"@,
        "jpeg"@ != "woff"@,
        "gif"@ != "svg"@,
        "gif"@ != "ico"@,
        "gif"@ != "wasm"@,
        "gif"@ != "woff2"@,
        "gif"@ != "woff"@,
        "svg"@ != "ico"@,
        "svg"@ != "wasm"@,
        "svg"@ != "woff2"@,
        "svg"@ != "woff"@,
        "ico"@ != "wasm"@,
        "ico"@ != "woff2"@,
        "ico"@ != "woff"@,
        "wasm"@ != "woff2"@,
        "wasm"@ != "woff"@,
        "woff2"@ != "woff"@,
{
    reveal_strlit("html");
    reveal_strlit("js");
    reveal_strlit("css");
    reveal_strlit("json");
    reveal_strlit("png");
    reveal_strlit("jpg");
    reveal_strlit("jpeg");
    reveal_strlit("gif");
    reveal_strlit("svg");
    reveal_strlit("ico");
    reveal_strlit("wasm");
    reveal_strlit("woff2");
    reveal_strlit("woff");
    assert("html"@.len() != "js"@.len());
    assert("html"@.len() != "css"@.len());
    assert("html"@[0] != "json"@[0]);
    assert("html"@.len() != "png"@.len());
    assert("html"@.len() != "jpg"@.len());
    assert("html"@[0] != "jpeg"@[0]);
    assert("html"@.len() != "gif"@.len());
    assert("html"@.len() != "svg"@.len());
    assert("html"@.len() != "ico"@.len());
    assert("html"@[0] != "wasm"@[0]);
    assert("html"@.len() != "woff2"@.len());
    assert("html"@[0] != "woff"@[0]);
    assert("js"@.len() != "css"@.len());
    assert("js"@.len() != "json"@.len());
    assert("js"@.len() != "png"@.len());
    assert("js"@.len() != "jpg"@.len());
    assert("js"@.len() != "jpeg"@.len());
    assert("js"@.len() != "gif"@.len());
    assert("js"@.len() != "svg"@.len());
    assert("js"@.len() != "ico"@.len());
    assert("js"@.len() != "wasm"@.len());
    assert("js"@.len() != "woff2"@.len());
    assert("js"@.len() != "woff"@.len());
    assert("css"@.len() != "json"@.len());
    assert("css"@[0] != "png"@[0]);
    assert("css"@[0] != "jpg"@[0]);
    assert("css"@.len() != "jpeg"@.len());
    assert("css"@[0] != "gif"@[0]);
    assert("css"@[0] != "svg"@[0]);
    assert("css"@[0] != "ico"@[0]);
    assert("css"@.len() != "wasm"@.len());
    assert("css"@.len() != "woff2"@.len());
    assert("css"@.len() != "woff"@.len());
    assert("json"@.len() != "png"@.len());
    assert("json"@.len() != "jpg"@.len());
    assert("json"@[1] != "jpeg"@[1]);
    assert("json"@.len() != "gif"@.len());
    assert("json"@.len() != "svg"@.len());
    assert("json"@.len() != "ico"@.len());
    assert("json"@[0] != "wasm"@[0]);
    assert("json"@.len() != "woff2"@.len());
    assert("json"@[0] != "woff"@[0]);
    assert("png"@[0] != "jpg"@[0]);
    assert("png"@.len() != "jpeg"@.len());
    assert("png"@[0] != "gif"@[0]);
    assert("png"@[0] != "svg"@[0]);
    assert("png"@[0] != "ico"@[0]);
    assert("png"@.len() != "wasm"@.len());
    assert("png"@.len() != "woff2"@.len());
    assert("png"@.len() != "woff"@.len());
    assert("jpg"@.len() != "jpeg"@.len());
    assert("jpg"@[0] != "gif"@[0]);
    assert("jpg"@[0] != "svg"@[0]);
    assert("jpg"@[0] != "ico"@[0]);
    assert("jpg"@.len() != "wasm"@.len());
    assert("jpg"@.len() != "woff2"@.len());
    assert("jpg"@.len() != "woff"@.len());
    assert("jpeg"@.len() != "gif"@.len());
    assert("jpeg"@.len() != "svg"@.len());
    assert("jpeg"@.len() != "ico"@.len());
    assert("jpeg"@[0] != "wasm"@[0]);
    assert("jpeg"@.len() != "woff2"@.len());
    assert("jpeg"@[0] != "woff"@[0]);
    assert("gif"@[0] != "svg"@[0]);
    assert("gif"@[0] != "ico"@[0]);
    assert("gif"@.len() != "wasm"@.len());
    assert("gif"@.len() != "woff2"@.len());
    assert("gif"@.len() != "woff"@.len());
    assert("svg"@[0] != "ico"@[0]);
    assert("svg"@.len() != "wasm"@.len());
    assert("svg"@.len() != "woff2"@.len());
    assert("svg"@.len() != "woff"@.len());
    assert("ico"@.len() != "wasm"@.len());
    assert("ico"@.len() != "woff2"@.len());
    assert("ico"@.len() != "woff"@.len());
    assert("wasm"@.len() != "woff2"@.len());
    assert("wasm"@[1] != "woff"@[1]);
    assert("woff2"@.len() != "woff"@.len());
}

/// The content type names the extension itself, as `text/<ext>` with
/// charset UTF-8 exactly for HTML and CSS, as `image/<ext>` exactly for
/// PNG, JPEG (`.jpeg`) and GIF, and as `font/<ext>` exactly for WOFF and
/// WOFF2.
pub proof fn lemma_mime_names_extension(ext: Seq<char>)
    ensures
        (mime_of(ext) == "text/"@ + ext + "; charset=utf-8"@) <==> (ext == "html"@ || ext == "css"@),
        (mime_of(ext) == "image/"@ + ext) <==> (ext == "png"@ || ext == "jpeg"@ || ext == "gif"@),
        (mime_of(ext) == "font/"@ + ext) <==> (ext == "woff"@ || ext == "woff2"@),
{
    lemma_mime_texts();
    lemma_mime_first_letters();
    lemma_extensions_distinct();
    let m = mime_of(ext);
    let t = "text/"@ + ext + "; charset=utf-8"@;
    let i = "image/"@ + ext;
    let f = "font/"@ + ext;
    assert(t[0] == "text/"@[0]);
    assert(i[0] == "image/"@[0]);
    assert(f[0] == "font/"@[0]);
    assert(i.len() == 6 + ext.len());
    if ext == "html"@ || ext == "css"@ {
        assert(m == t);
        assert(m[0] == 't');
    } else if ext == "png"@ || ext == "jpeg"@ || ext == "gif"@ {
        assert(m == i);
        assert(m[0] == 'i');
    } else if ext == "woff"@ || ext == "woff2"@ {
        assert(m == f);
        assert(m[0] == 'f');
    } else if ext == "jpg"@ || ext == "svg"@ || ext == "ico"@ {
        assert(m[0] == 'i');
        assert(i.len() == 9);
        assert(m.len() != 9);
    } else {
        assert(m[0] == 'a');
    }
}

/// A file sent whole (status 200) goes out with a content type that names
/// its extension: `text/<ext>; charset=utf-8` exactly for HTML and CSS,
/// `image/<ext>` exactly for PNG, JPEG and GIF, `font/<ext>` exactly for
/// WOFF and WOFF2.
pub proof fn lemma_served_type_names_extension(
    path: Seq<char>,
    contents: Seq<u8>,
    if_none_match: Option<Seq<char>>,
    accept_encoding: Option<Seq<char>>,
    r: StaticReply,
)
    requires
        static_post(path, contents, if_none_match, accept_encoding, r),
        r.status == 200,
    ensures
        ({
            let ext = ext_or_empty(path);
            let ct = headers_view(r.headers@)[0];
            &&& ct.0 == "content-type"@
            &&& (ct.1 == "text/"@ + ext + "; charset=utf-8"@) <==> (ext == "html"@ || ext == "css"@)
            &&& (ct.1 == "image/"@ + ext) <==> (ext == "png"@ || ext == "jpeg"@ || ext == "gif"@)
            &&& (ct.1 == "font/"@ + ext) <==> (ext == "woff"@ || ext == "woff2"@)
        }),
{
    let ext = ext_or_empty(path);
    lemma_mime_names_extension(ext);
    let etag = static_etag(contents);
    assert(headers_view(r.headers@)[0] == ("content-type"@, mime_of(ext))) by {
        if wants_gzip(ext, accept_encoding, contents.len()) && gzip_fast_of(contents) is Some {
            assert(file_headers(ext, etag).push(("content-encoding"@, "gzip"@))[0] == ("content-type"@, mime_of(ext)));
        } else {
            assert(file_headers(ext, etag)[0] == ("content-type"@, mime_of(ext)));
        }
    }
}

} // verus!
