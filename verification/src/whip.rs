//! WHIP (RFC 9725) ingest and WHEP egress: the resources, and what each
//! HTTP request on them is answered.
//!
//! Creating peer connections, accepting offers and restarting ICE are the
//! peer connections' own work; the HTTP layer does it between the steps
//! here: a precheck, then the step that records the outcome and answers.
use vstd::prelude::*;
use vstd::string::StringExecFns;
use crate::fanout::{FanOut, without};
use crate::idmap::{Table, TableKey};
use crate::link_headers::{IceServer, all_links, link_header_values, servers_of};
use crate::resource::{ResourceId, ResourceKind, bytes_of_hex, id_text, is_id_text, strip_hyphens};
use crate::sdp_fragment::{fragment_of, parse_sdp_fragment, restart_fragment, SdpFragment};
use crate::text::{contains_seq, contains_str, str_eq, starts_with, is_prefix};
use crate::config::NatConfig;

verus! {

/// An HTTP response: status, headers (name, value) in order, body.
#[derive(Clone, Debug)]
pub struct HttpReply {
    pub status: u16,
    pub headers: Vec<(String, String)>,
    pub body: String,
}

/// Headers as plain values.
pub open spec fn headers_view(h: Seq<(String, String)>) -> Seq<(Seq<char>, Seq<char>)> {
    h.map_values(|e: (String, String)| (e.0@, e.1@))
}

/// The CORS headers of every WHIP/WHEP response.
pub open spec fn cors() -> Seq<(Seq<char>, Seq<char>)> {
    seq![
        ("Access-Control-Allow-Origin"@, "*"@),
        ("Access-Control-Allow-Methods"@, "POST, PATCH, DELETE, OPTIONS"@),
        ("Access-Control-Allow-Headers"@, "Content-Type, If-Match, If-None-Match"@),
        ("Access-Control-Expose-Headers"@, "Location, ETag, Link, Accept-Patch"@),
    ]
}

/// `Link` headers with the given values.
pub open spec fn link_headers(values: Seq<Seq<char>>) -> Seq<(Seq<char>, Seq<char>)> {
    values.map_values(|v: Seq<char>| ("Link"@, v))
}

/// The `Accept-Patch` header.
pub open spec fn accept_patch() -> (Seq<char>, Seq<char>) {
    ("Accept-Patch"@, "application/trickle-ice-sdpfrag"@)
}

/// `r` is the reply with `status`, `headers` and `body`.
pub open spec fn reply_is(r: HttpReply, status: u16, headers: Seq<(Seq<char>, Seq<char>)>, body: Seq<char>) -> bool {
    r.status == status && headers_view(r.headers@) == headers && r.body@ == body
}

/// `r` is the plain-text error `status` with `message`.
pub open spec fn is_error_reply(r: HttpReply, status: u16, message: Seq<char>) -> bool {
    reply_is(r, status, cors().push(("Content-Type"@, "text/plain"@)), message)
}

/// The location of a resource.
pub open spec fn location_of(id: ResourceId) -> Seq<char> {
    "/resource/"@ + id_text(id.bytes())
}

/// An ETag header value: the tag in double quotes.
pub open spec fn quoted(etag: Seq<char>) -> Seq<char> {
    "\""@ + etag + "\""@
}

/// The reply to an offer that created resource `id`.
pub open spec fn created_reply(r: HttpReply, id: ResourceId, etag: Seq<char>, answer: Seq<char>, links: Seq<Seq<char>>) -> bool {
    reply_is(
        r,
        201,
        cors().push(("Content-Type"@, "application/sdp"@)).push(("Location"@, location_of(id))).push(("ETag"@, quoted(etag)))
            + link_headers(links) + seq![accept_patch()],
        answer,
    )
}

/// Whether a `Content-Type` value says SDP.
pub open spec fn is_sdp_type(ct: Option<Seq<char>>) -> bool {
    ct matches Some(c) && contains_seq(c, "application/sdp"@)
}

/// The resource id that the text `s` names, if it is one.
pub open spec fn parsed_id(s: Seq<char>) -> Option<Seq<u8>> {
    if is_id_text(s) { Some(bytes_of_hex(strip_hyphens(s))) } else { None }
}

/// An optional `&str` as an optional plain value.
pub open spec fn opt_view(o: Option<&str>) -> Option<Seq<char>> {
    match o {
        Some(s) => Some(s@),
        None => None,
    }
}

/// What a PATCH of the resource with bytes `b` calls for.
pub open spec fn patch_post(
    st: WhipWhepState,
    b: Seq<u8>,
    content_type: Option<Seq<char>>,
    if_match: Option<Seq<char>>,
    body: Seq<char>,
    plan: PatchPlan,
) -> bool {
    let ct = match content_type { Some(c) => c, None => Seq::<char>::empty() };
    let im = match if_match { Some(m) => m, None => Seq::<char>::empty() };
    let frag = fragment_of(body);
    if !(exists|p: ResourceId| #[trigger] p.bytes() == b && st.res().contains_key(p)) {
        plan matches PatchPlan::Reply(e) && is_error_reply(e, 404, "Resource not found"@)
    } else if !contains_seq(ct, "application/trickle-ice-sdpfrag"@) {
        plan matches PatchPlan::Reply(e) && is_error_reply(e, 415, "Content-Type must be application/trickle-ice-sdpfrag"@)
    } else if im == "*"@ {
        if frag.ice_ufrag is None {
            plan matches PatchPlan::Reply(e) && is_error_reply(e, 400, "Missing ice-ufrag in SDP fragment"@)
        } else if frag.ice_pwd is None {
            plan matches PatchPlan::Reply(e) && is_error_reply(e, 400, "Missing ice-pwd in SDP fragment"@)
        } else {
            plan matches PatchPlan::Restart { id, remote_ufrag, remote_pwd, mid } && id.bytes() == b && st.res().contains_key(id)
                && Some(remote_ufrag@) == frag.ice_ufrag && Some(remote_pwd@) == frag.ice_pwd
                && (match mid { Some(m) => Some(m@), None => None }) == frag.mid
        }
    } else {
        let p = choose|p: ResourceId| #[trigger] p.bytes() == b && st.res().contains_key(p);
        let etag = st.res()[p].etag@;
        if im.len() != 0 && im != quoted(etag) && im != etag {
            plan matches PatchPlan::Reply(e) && is_error_reply(e, 412, "ETag mismatch"@)
        } else {
            plan matches PatchPlan::Trickle { id, candidates, mid, reply } && id == p
                && candidates@.map_values(|c: String| c@) == frag.candidates
                && mid@ == (match frag.mid { Some(m) => m, None => "0"@ })
                && reply_is(reply, 204, cors(), Seq::empty())
        }
    }
}

/// What a DELETE of the resource with bytes `b` does.
pub open spec fn delete_post(old: WhipWhepState, new: WhipWhepState, b: Seq<u8>, plan: DeletePlan) -> bool {
    if !(exists|p: ResourceId| #[trigger] p.bytes() == b && old.res().contains_key(p)) {
        &&& is_error_reply(plan.reply, 404, "Resource not found"@)
        &&& plan.closed@.len() == 0 && plan.remotes@.len() == 0
        &&& new.res() == old.res() && new.subs() == old.subs()
    } else {
        let p = choose|p: ResourceId| #[trigger] p.bytes() == b && old.res().contains_key(p);
        let r = old.res()[p];
        &&& reply_is(plan.reply, 200, cors(), Seq::empty())
        &&& plan.closed@.len() >= 1 && plan.closed@[0] == p
        &&& match r.kind {
            ResourceKind::Whip => {
                let subs = if old.subs().contains_key(p) { old.subs()[p] } else { Seq::<ResourceId>::empty() };
                let relays = relay_ids(old.res_order(), p);
                &&& new.subs() == old.subs().remove(p)
                &&& new.res() == Map::new(
                    |k: ResourceId| old.res().contains_key(k) && k != p && !subs.contains(k) && !relays.contains(k),
                    |k: ResourceId| old.res()[k],
                )
                &&& plan.closed@.drop_first().no_duplicates()
                &&& plan.closed@.drop_first().to_set() == Set::new(
                    |k: ResourceId| (subs.contains(k) || relays.contains(k)) && k != p && old.res().contains_key(k),
                )
                &&& plan.remotes@ == relay_remotes(old.res_order(), p)
            },
            ResourceKind::Whep => {
                &&& new.res() == old.res().remove(p)
                &&& plan.closed@.len() == 1 && plan.remotes@.len() == 0
                &&& (r.publisher_id is Some && old.subs().contains_key(r.publisher_id.unwrap())
                    ==> new.subs() == old.subs().insert(r.publisher_id.unwrap(), without(old.subs()[r.publisher_id.unwrap()], p)))
                &&& (!(r.publisher_id is Some && old.subs().contains_key(r.publisher_id.unwrap())) ==> new.subs() == old.subs())
            },
            ResourceKind::WhipOut => {
                &&& new.res() == old.res().remove(p)
                &&& new.subs() == old.subs()
                &&& plan.closed@.len() == 1
                &&& plan.remotes@ == (match remote_of(r) { Some(x) => seq![x], None => Seq::empty() })
            },
        }
    }
}

/// A WHIP, WHEP or WHIP-out resource.
#[derive(Clone, Debug)]
pub struct Resource {
    pub id: ResourceId,
    pub kind: ResourceKind,
    /// ETag of the ICE session (for trickle and ICE restart).
    pub etag: String,
    /// For a WHEP or WHIP-out resource: the WHIP publisher it follows.
    pub publisher_id: Option<ResourceId>,
    /// For a WHIP-out resource: the remote resource URL (from `Location`).
    pub remote_resource_url: Option<String>,
    /// For a WHIP-out resource: the bearer token of the remote endpoint.
    pub remote_bearer_token: Option<String>,
    /// For a WHIP-out resource: the remote endpoint URL.
    pub remote_endpoint: Option<String>,
}

/// What a PATCH on a resource calls for.
#[derive(Clone, Debug)]
pub enum PatchPlan {
    /// Answer right away.
    Reply(HttpReply),
    /// Restart ICE of `id` with the remote credentials; answer with
    /// `finish_ice_restart` (or `ice_restart_failed`).
    Restart { id: ResourceId, remote_ufrag: String, remote_pwd: String, mid: Option<String> },
    /// Add these candidates (for media id `mid`) to `id`'s peer connection,
    /// then answer with `reply`.
    Trickle { id: ResourceId, candidates: Vec<String>, mid: String, reply: HttpReply },
}

/// What a DELETE of a resource calls for.
#[derive(Clone, Debug)]
pub struct DeletePlan {
    pub reply: HttpReply,
    /// The resources whose peer connections to close, in order.
    pub closed: Vec<ResourceId>,
    /// The remote resources to delete, with their tokens: of the deleted
    /// WHIP-out relay, or of the deleted publisher's WHIP-out relays.
    pub remotes: Vec<(String, Option<String>)>,
}

/// Whether `r` is a WHIP-out relay of publisher `p`.
pub open spec fn is_relay_of(r: Resource, p: ResourceId) -> bool {
    r.kind == ResourceKind::WhipOut && r.publisher_id == Some(p)
}

/// What an entry of the resource table contributes to the relays of `p`.
pub open spec fn relay_id_pick(p: ResourceId) -> spec_fn((ResourceId, Resource)) -> Option<ResourceId> {
    |e: (ResourceId, Resource)| if is_relay_of(e.1, p) { Some(e.0) } else { None }
}

/// The remote resource (and token) of a relay, if it has one.
pub open spec fn remote_of(r: Resource) -> Option<(String, Option<String>)> {
    match r.remote_resource_url {
        Some(u) => Some((u, r.remote_bearer_token)),
        None => None,
    }
}

/// What an entry of the resource table contributes to the remote deletes
/// of `p`'s relays.
pub open spec fn remote_pick(p: ResourceId) -> spec_fn((ResourceId, Resource)) -> Option<(String, Option<String>)> {
    |e: (ResourceId, Resource)| if is_relay_of(e.1, p) { remote_of(e.1) } else { None }
}

/// The WHIP-out relays of publisher `p`, in table order.
pub open spec fn relay_ids(es: Seq<(ResourceId, Resource)>, p: ResourceId) -> Seq<ResourceId> {
    es.filter_map(relay_id_pick(p))
}

/// The remote resources of publisher `p`'s relays, in table order.
pub open spec fn relay_remotes(es: Seq<(ResourceId, Resource)>, p: ResourceId) -> Seq<(String, Option<String>)> {
    es.filter_map(remote_pick(p))
}

/// The WHIP/WHEP state: resources, the fan-out, the ICE servers to
/// advertise, and whether peer connections use ICE-lite.
pub struct WhipWhepState {
    resources: Table<ResourceId, Resource>,
    fanout: FanOut,
    ice_servers: Vec<IceServer>,
    ice_lite: bool,
}

/// A header of two strings.
fn header(name: &str, value: &str) -> (h: (String, String))
    ensures
        h.0@ == name@,
        h.1@ == value@,
{
    (name.to_owned(), value.to_owned())
}

/// Appends a header.
fn push_header(hs: &mut Vec<(String, String)>, name: &str, value: String)
    ensures
        headers_view(final(hs)@) == headers_view(old(hs)@).push((name@, value@)),
{
    let ghost before = hs@;
    hs.push((name.to_owned(), value));
    proof {
        assert(headers_view(hs@) =~= headers_view(before).push((name@, value@)));
    }
}

/// The CORS headers of every WHIP/WHEP response.
pub fn cors_headers() -> (hs: Vec<(String, String)>)
    ensures
        headers_view(hs@) == cors(),
{
    let mut hs: Vec<(String, String)> = Vec::new();
    push_header(&mut hs, "Access-Control-Allow-Origin", "*".to_owned());
    push_header(&mut hs, "Access-Control-Allow-Methods", "POST, PATCH, DELETE, OPTIONS".to_owned());
    push_header(&mut hs, "Access-Control-Allow-Headers", "Content-Type, If-Match, If-None-Match".to_owned());
    push_header(&mut hs, "Access-Control-Expose-Headers", "Location, ETag, Link, Accept-Patch".to_owned());
    proof {
        assert(headers_view(hs@) =~= cors());
    }
    hs
}

/// A plain-text error response.
pub fn error_response(status: u16, message: String) -> (r: HttpReply)
    ensures
        is_error_reply(r, status, message@),
{
    let mut headers = cors_headers();
    push_header(&mut headers, "Content-Type", "text/plain".to_owned());
    HttpReply { status, headers, body: message }
}

/// Appends one `Link` header per value.
fn add_link_headers(hs: &mut Vec<(String, String)>, servers: &Vec<IceServer>)
    ensures
        headers_view(final(hs)@) == headers_view(old(hs)@) + link_headers(all_links(servers@)),
{
    let values = link_header_values(servers.as_slice());
    let ghost base = headers_view(hs@);
    let ghost vs = values@.map_values(|v: String| v@);
    let mut i: usize = 0;
    while i < values.len()
        invariant
            i <= values@.len(),
            vs == values@.map_values(|v: String| v@),
            headers_view(hs@) == base + link_headers(vs.take(i as int)),
        decreases values@.len() - i,
    {
        push_header(hs, "Link", values[i].clone());
        proof {
            assert(vs.take(i + 1) =~= vs.take(i as int).push(vs[i as int]));
            assert(link_headers(vs.take(i + 1)) =~= link_headers(vs.take(i as int)).push(("Link"@, vs[i as int])));
            assert(base + link_headers(vs.take(i + 1)) =~= (base + link_headers(vs.take(i as int))).push(("Link"@, vs[i as int])));
        }
        i = i + 1;
    }
    proof {
        assert(vs.take(i as int) =~= vs);
    }
}

/// Whether a `Content-Type` value says SDP.
pub fn is_sdp_content_type(content_type: Option<&str>) -> (b: bool)
    ensures
        b == is_sdp_type(opt_view(content_type)),
{
    match content_type {
        Some(ct) => contains_str(ct, "application/sdp"),
        None => false,
    }
}

/// The SDP offer of a WHIP or WHEP request body, or the 400 reply that
/// refuses it.
pub fn parse_offer_body(body: &str) -> (r: Result<str0m::change::SdpOffer, HttpReply>)
    ensures
        (r is Ok) == (crate::sdp::sdp_offer_error(body@) is None),
        r matches Err(e) ==> is_error_reply(e, 400, "Invalid SDP offer: "@ + crate::sdp::sdp_offer_error(body@).unwrap()),
{
    match crate::sdp::str0m_offer(body) {
        Ok(o) => Ok(o),
        Err(e) => Err(invalid_sdp_reply(e.as_str())),
    }
}

/// The error answered to a body that is not an SDP offer.
pub fn invalid_sdp_reply(err: &str) -> (r: HttpReply)
    ensures
        is_error_reply(r, 400, "Invalid SDP offer: "@ + err@),
{
    error_response(400, "Invalid SDP offer: ".to_owned().concat(err))
}

/// The error answered when no peer connection could be made.
pub fn pc_failed_reply(err: &str) -> (r: HttpReply)
    ensures
        is_error_reply(r, 500, "Failed to create PeerConnection: "@ + err@),
{
    error_response(500, "Failed to create PeerConnection: ".to_owned().concat(err))
}

/// The error answered when the offer could not be accepted.
pub fn answer_failed_reply(err: &str) -> (r: HttpReply)
    ensures
        is_error_reply(r, 500, "Failed to generate SDP answer: "@ + err@),
{
    error_response(500, "Failed to generate SDP answer: ".to_owned().concat(err))
}

/// The error answered when an ICE restart failed.
pub fn ice_restart_failed(err: &str) -> (r: HttpReply)
    ensures
        is_error_reply(r, 500, "ICE restart failed: "@ + err@),
{
    error_response(500, "ICE restart failed: ".to_owned().concat(err))
}

impl WhipWhepState {
    /// The resources by id.
    pub closed spec fn res(&self) -> Map<ResourceId, Resource> {
        self.resources@
    }

    /// The resources in the order they were stored.
    pub closed spec fn res_order(&self) -> Seq<(ResourceId, Resource)> {
        self.resources.entries()
    }

    /// The subscribers of each publisher.
    pub closed spec fn subs(&self) -> Map<ResourceId, Seq<ResourceId>> {
        self.fanout.subs()
    }

    /// The ICE servers advertised in `Link` headers.
    pub closed spec fn servers(&self) -> Seq<IceServer> {
        self.ice_servers@
    }

    /// Whether peer connections use ICE-lite.
    pub closed spec fn lite(&self) -> bool {
        self.ice_lite
    }

    pub closed spec fn wf(&self) -> bool {
        self.resources.wf() && self.fanout.wf()
    }

    /// The state for a server with NAT configuration `nat`: no resources,
    /// the ICE servers that `nat` names.
    pub fn new(nat_config: &NatConfig) -> (s: Self)
        ensures
            s.wf(),
            s.res() == Map::<ResourceId, Resource>::empty(),
            s.subs() == Map::<ResourceId, Seq<ResourceId>>::empty(),
            servers_of(*nat_config, s.servers()),
            s.lite() == nat_config.ice_lite,
    {
        WhipWhepState {
            resources: Table::new(),
            fanout: FanOut::new(),
            ice_servers: crate::link_headers::ice_servers_from_nat(nat_config),
            ice_lite: nat_config.ice_lite,
        }
    }

    /// Whether peer connections use ICE-lite.
    pub fn ice_lite(&self) -> (b: bool)
        ensures
            b == self.lite(),
    {
        self.ice_lite
    }

    /// The ICE servers advertised in `Link` headers.
    pub fn ice_servers(&self) -> (s: &Vec<IceServer>)
        ensures
            s@ == self.servers(),
    {
        &self.ice_servers
    }

    /// The number of resources.
    pub fn resource_count(&self) -> (n: usize)
        requires
            self.wf(),
        ensures
            n == self.res().dom().len(),
    {
        self.resources.len()
    }

    /// The resource with the given id.
    pub fn resource(&self, id: &ResourceId) -> (r: Option<&Resource>)
        requires
            self.wf(),
        ensures
            r matches Some(x) ==> self.res().contains_key(*id) && *x == self.res()[*id],
            r is None ==> !self.res().contains_key(*id),
    {
        self.resources.get(id)
    }

    /// Whether a WHIP publisher with this id exists.
    pub fn has_publisher(&self, id: &ResourceId) -> (b: bool)
        ensures
            b == self.subs().contains_key(*id),
    {
        self.fanout.has_publisher(id)
    }

    /// The subscribers that RTP from publisher `id` is relayed to.
    pub fn relay_targets(&self, id: ResourceId) -> (subs: Vec<ResourceId>)
        requires
            self.wf(),
        ensures
            self.subs().contains_key(id) ==> subs@ == self.subs()[id],
            !self.subs().contains_key(id) ==> subs@ == Seq::<ResourceId>::empty(),
    {
        self.fanout.relay_targets(id)
    }

    /// The answer to an OPTIONS request (CORS preflight): CORS, `Link` and
    /// `Accept-Patch` headers.
    pub fn options_reply(&self) -> (r: HttpReply)
        ensures
            reply_is(r, 204, cors() + link_headers(all_links(self.servers())) + seq![accept_patch()], Seq::empty()),
    {
        let mut headers = cors_headers();
        add_link_headers(&mut headers, &self.ice_servers);
        push_header(&mut headers, "Accept-Patch", "application/trickle-ice-sdpfrag".to_owned());
        proof {
            reveal_strlit("");
        }
        let r = HttpReply { status: 204, headers, body: String::new() };
        proof {
            assert(r.body@ =~= Seq::<char>::empty());
            assert(headers_view(r.headers@) =~= cors() + link_headers(all_links(self.servers())) + seq![accept_patch()]);
        }
        r
    }

    /// The reply of a created resource.
    fn created(&self, id: ResourceId, etag: &String, answer: String) -> (r: HttpReply)
        ensures
            created_reply(r, id, etag@, answer@, all_links(self.servers())),
    {
        let mut headers = cors_headers();
        push_header(&mut headers, "Content-Type", "application/sdp".to_owned());
        let loc = "/resource/".to_owned().concat(id.to_string().as_str());
        push_header(&mut headers, "Location", loc);
        let tag = "\"".to_owned().concat(etag.as_str()).concat("\"");
        push_header(&mut headers, "ETag", tag);
        add_link_headers(&mut headers, &self.ice_servers);
        push_header(&mut headers, "Accept-Patch", "application/trickle-ice-sdpfrag".to_owned());
        let r = HttpReply { status: 201, headers, body: answer };
        proof {
            assert(headers_view(r.headers@) =~= cors().push(("Content-Type"@, "application/sdp"@)).push(("Location"@, location_of(id)))
                .push(("ETag"@, quoted(etag@))) + link_headers(all_links(self.servers())) + seq![accept_patch()]);
        }
        r
    }

    /// What a WHIP offer is refused with before any peer connection is made:
    /// a body that is not declared SDP.
    pub fn whip_precheck(&self, content_type: Option<&str>) -> (r: Option<HttpReply>)
        ensures
            is_sdp_type(opt_view(content_type)) ==> r is None,
            !is_sdp_type(opt_view(content_type)) ==> (r matches Some(e) && is_error_reply(e, 415, "Content-Type must be application/sdp"@)),
    {
        if is_sdp_content_type(content_type) {
            None
        } else {
            Some(error_response(415, "Content-Type must be application/sdp".to_owned()))
        }
    }

    /// A WHIP publisher was created: it becomes a publisher with no
    /// subscribers and a resource with ETag `etag`; the answer goes back.
    pub fn add_whip(&mut self, id: ResourceId, etag: String, answer: String) -> (r: HttpReply)
        requires
            old(self).wf(),
        ensures
            final(self).wf(),
            final(self).subs() == old(self).subs().insert(id, Seq::<ResourceId>::empty()),
            final(self).res() == old(self).res().insert(id, Resource {
                id,
                kind: ResourceKind::Whip,
                etag,
                publisher_id: None,
                remote_resource_url: None,
                remote_bearer_token: None,
                remote_endpoint: None,
            }),
            final(self).servers() == old(self).servers(),
            final(self).lite() == old(self).lite(),
            created_reply(r, id, etag@, answer@, all_links(old(self).servers())),
    {
        self.fanout.register_publisher(id);
        let r = self.created(id, &etag, answer);
        self.resources.insert(id, Resource {
            id,
            kind: ResourceKind::Whip,
            etag,
            publisher_id: None,
            remote_resource_url: None,
            remote_bearer_token: None,
            remote_endpoint: None,
        });
        r
    }

    /// What a WHEP offer for `publisher` is refused with before any peer
    /// connection is made; otherwise the publisher's id.
    pub fn whep_precheck(&self, content_type: Option<&str>, publisher: &str) -> (r: Result<ResourceId, HttpReply>)
        ensures
            !is_sdp_type(opt_view(content_type)) ==> (r matches Err(e) && is_error_reply(e, 415, "Content-Type must be application/sdp"@)),
            is_sdp_type(opt_view(content_type)) && parsed_id(publisher@) is None
                ==> (r matches Err(e) && is_error_reply(e, 400, "Invalid publisher ID"@)),
            is_sdp_type(opt_view(content_type)) ==> (parsed_id(publisher@) matches Some(b) ==> {
                let found = exists|p: ResourceId| #[trigger] p.bytes() == b && self.subs().contains_key(p);
                &&& found ==> (r matches Ok(p) && p.bytes() == b && self.subs().contains_key(p))
                &&& !found ==> (r matches Err(e) && is_error_reply(e, 404, "Publisher not found"@))
            }),
    {
        if !is_sdp_content_type(content_type) {
            return Err(error_response(415, "Content-Type must be application/sdp".to_owned()));
        }
        let p = match ResourceId::parse(publisher) {
            Ok(p) => p,
            Err(_) => { return Err(error_response(400, "Invalid publisher ID".to_owned())); },
        };
        if !self.fanout.has_publisher(&p) {
            proof {
                assert forall|q: ResourceId| #[trigger] q.bytes() == p.bytes() implies !self.subs().contains_key(q) by {
                    crate::resource::lemma_bytes_determine(p, q);
                }
            }
            return Err(error_response(404, "Publisher not found".to_owned()));
        }
        Ok(p)
    }

    /// A WHEP subscriber of `publisher` was created: it joins the
    /// publisher's subscribers (if the publisher still exists) and becomes a
    /// resource; the answer goes back.
    pub fn add_whep(&mut self, id: ResourceId, publisher: ResourceId, etag: String, answer: String) -> (r: HttpReply)
        requires
            old(self).wf(),
        ensures
            final(self).wf(),
            old(self).subs().contains_key(publisher) ==> final(self).subs() == old(self).subs().insert(publisher, old(self).subs()[publisher].push(id)),
            !old(self).subs().contains_key(publisher) ==> final(self).subs() == old(self).subs(),
            final(self).res() == old(self).res().insert(id, Resource {
                id,
                kind: ResourceKind::Whep,
                etag,
                publisher_id: Some(publisher),
                remote_resource_url: None,
                remote_bearer_token: None,
                remote_endpoint: None,
            }),
            final(self).servers() == old(self).servers(),
            final(self).lite() == old(self).lite(),
            created_reply(r, id, etag@, answer@, all_links(old(self).servers())),
    {
        self.fanout.add_subscriber(publisher, id);
        let r = self.created(id, &etag, answer);
        self.resources.insert(id, Resource {
            id,
            kind: ResourceKind::Whep,
            etag,
            publisher_id: Some(publisher),
            remote_resource_url: None,
            remote_bearer_token: None,
            remote_endpoint: None,
        });
        r
    }
}

impl WhipWhepState {
    /// The resource that the text `s` names, if `s` names one and it exists.
    fn lookup(&self, s: &str) -> (r: Result<ResourceId, HttpReply>)
        requires
            self.wf(),
        ensures
            parsed_id(s@) is None ==> (r matches Err(e) && is_error_reply(e, 400, "Invalid resource ID"@)),
            parsed_id(s@) matches Some(b) ==> {
                let found = exists|p: ResourceId| #[trigger] p.bytes() == b && self.res().contains_key(p);
                &&& found ==> (r matches Ok(p) && p.bytes() == b && self.res().contains_key(p))
                &&& !found ==> (r matches Err(e) && is_error_reply(e, 404, "Resource not found"@))
            },
    {
        let id = match ResourceId::parse(s) {
            Ok(id) => id,
            Err(_) => { return Err(error_response(400, "Invalid resource ID".to_owned())); },
        };
        if !self.resources.contains_key(&id) {
            proof {
                assert forall|q: ResourceId| #[trigger] q.bytes() == id.bytes() implies !self.res().contains_key(q) by {
                    crate::resource::lemma_bytes_determine(id, q);
                }
            }
            return Err(error_response(404, "Resource not found".to_owned()));
        }
        Ok(id)
    }

    /// What a PATCH of resource `id_str` calls for: an ICE restart when
    /// `If-Match` is `*`, otherwise trickled candidates, checked against the
    /// resource's ETag.
    pub fn patch(&self, id_str: &str, content_type: Option<&str>, if_match: Option<&str>, body: &str) -> (plan: PatchPlan)
        requires
            self.wf(),
        ensures
            parsed_id(id_str@) is None ==> (plan matches PatchPlan::Reply(e) && is_error_reply(e, 400, "Invalid resource ID"@)),
            parsed_id(id_str@) matches Some(b) ==> patch_post(*self, b, opt_view(content_type), opt_view(if_match), body@, plan),
    {
        let id = match self.lookup(id_str) {
            Ok(id) => id,
            Err(e) => { return PatchPlan::Reply(e); },
        };
        proof {
            reveal_strlit("");
            assert(""@ =~= Seq::<char>::empty());
            let b = id.bytes();
            let p = choose|p: ResourceId| #[trigger] p.bytes() == b && self.res().contains_key(p);
            crate::resource::lemma_bytes_determine(id, p);
        }
        let ct: &str = match content_type { Some(c) => c, None => "" };
        if !contains_str(ct, "application/trickle-ice-sdpfrag") {
            return PatchPlan::Reply(error_response(415, "Content-Type must be application/trickle-ice-sdpfrag".to_owned()));
        }
        let im: &str = match if_match { Some(m) => m, None => "" };
        proof {
            reveal_strlit("");
            assert(""@ =~= Seq::<char>::empty());
        }
        let frag = parse_sdp_fragment(body);
        if str_eq(im, "*") {
            let SdpFragment { ice_ufrag, ice_pwd, mid, candidates } = frag;
            let remote_ufrag = match ice_ufrag {
                Some(u) => u,
                None => { return PatchPlan::Reply(error_response(400, "Missing ice-ufrag in SDP fragment".to_owned())); },
            };
            let remote_pwd = match ice_pwd {
                Some(p) => p,
                None => { return PatchPlan::Reply(error_response(400, "Missing ice-pwd in SDP fragment".to_owned())); },
            };
            return PatchPlan::Restart { id, remote_ufrag, remote_pwd, mid };
        }
        let etag: &str = self.resources.get(&id).unwrap().etag.as_str();
        let quoted_tag = "\"".to_owned().concat(etag).concat("\"");
        if im.unicode_len() != 0 && !str_eq(im, quoted_tag.as_str()) && !str_eq(im, etag) {
            return PatchPlan::Reply(error_response(412, "ETag mismatch".to_owned()));
        }
        let SdpFragment { ice_ufrag, ice_pwd, mid, candidates } = frag;
        let mid = match mid { Some(m) => m, None => "0".to_owned() };
        let reply = HttpReply { status: 204, headers: cors_headers(), body: String::new() };
        proof {
            assert(reply.body@ =~= Seq::<char>::empty());
        }
        PatchPlan::Trickle { id, candidates, mid, reply }
    }

    /// An ICE restart of `id` succeeded with new local credentials: the
    /// resource gets ETag `new_etag`, and the reply carries the credentials.
    pub fn finish_ice_restart(&mut self, id: ResourceId, new_etag: String, ice_ufrag: &str, ice_pwd: &str, mid: Option<&str>)
        -> (r: HttpReply)
        requires
            old(self).wf(),
        ensures
            final(self).wf(),
            final(self).subs() == old(self).subs(),
            final(self).servers() == old(self).servers(),
            final(self).lite() == old(self).lite(),
            old(self).res().contains_key(id) ==> final(self).res() == old(self).res().insert(id, Resource { etag: new_etag, ..old(self).res()[id] }),
            !old(self).res().contains_key(id) ==> final(self).res() == old(self).res(),
            reply_is(
                r,
                200,
                cors().push(("Content-Type"@, "application/trickle-ice-sdpfrag"@)).push(("ETag"@, quoted(new_etag@))),
                restart_fragment(ice_ufrag@, ice_pwd@, opt_view(mid)),
            ),
    {
        let mut headers = cors_headers();
        push_header(&mut headers, "Content-Type", "application/trickle-ice-sdpfrag".to_owned());
        let tag = "\"".to_owned().concat(new_etag.as_str()).concat("\"");
        push_header(&mut headers, "ETag", tag);
        let body = crate::sdp_fragment::generate_ice_restart_fragment(ice_ufrag, ice_pwd, mid);
        match self.resources.index_of(&id) {
            Some(i) => {
                let old_r = self.resources.replace_at(i, Resource {
                    id,
                    kind: ResourceKind::Whip,
                    etag: String::new(),
                    publisher_id: None,
                    remote_resource_url: None,
                    remote_bearer_token: None,
                    remote_endpoint: None,
                });
                let updated = Resource { etag: new_etag, ..old_r };
                self.resources.replace_at(i, updated);
            },
            None => {},
        }
        proof {
            assert(headers_view(headers@) =~= cors().push(("Content-Type"@, "application/trickle-ice-sdpfrag"@)).push(("ETag"@, quoted(new_etag@))));
        }
        HttpReply { status: 200, headers, body }
    }

    /// A WHIP-out relay of `publisher` to a remote endpoint was negotiated:
    /// it becomes a resource.
    pub fn add_whip_out(
        &mut self,
        id: ResourceId,
        publisher: ResourceId,
        etag: String,
        remote_resource_url: Option<String>,
        remote_bearer_token: Option<String>,
        remote_endpoint: String,
    )
        requires
            old(self).wf(),
        ensures
            final(self).wf(),
            final(self).subs() == old(self).subs(),
            final(self).servers() == old(self).servers(),
            final(self).lite() == old(self).lite(),
            final(self).res() == old(self).res().insert(id, Resource {
                id,
                kind: ResourceKind::WhipOut,
                etag,
                publisher_id: Some(publisher),
                remote_resource_url,
                remote_bearer_token,
                remote_endpoint: Some(remote_endpoint),
            }),
    {
        self.resources.insert(id, Resource {
            id,
            kind: ResourceKind::WhipOut,
            etag,
            publisher_id: Some(publisher),
            remote_resource_url,
            remote_bearer_token,
            remote_endpoint: Some(remote_endpoint),
        });
    }
}

impl WhipWhepState {
    /// Removes the resources whose ids are in `ids` (the ones that exist),
    /// returning those removed, in order.
    /// The WHIP-out relays of publisher `p`, and the remote resources (with
    /// their tokens) of those that have one, in table order.
    fn relays_of(&self, p: ResourceId) -> (r: (Vec<ResourceId>, Vec<(String, Option<String>)>))
        requires
            self.wf(),
        ensures
            r.0@ == relay_ids(self.res_order(), p),
            r.1@ == relay_remotes(self.res_order(), p),
    {
        let ghost es = self.res_order();
        let n = self.resources.len();
        let mut ids: Vec<ResourceId> = Vec::new();
        let mut remotes: Vec<(String, Option<String>)> = Vec::new();
        let mut i: usize = 0;
        while i < n
            invariant
                self.wf(),
                es == self.res_order(),
                n == es.len(),
                i <= n,
                ids@ == relay_ids(es.take(i as int), p),
                remotes@ == relay_remotes(es.take(i as int), p),
            decreases n - i,
        {
            let e = self.resources.entry_at(i);
            proof {
                es.lemma_filter_map_take_succ(relay_id_pick(p), i as int);
                es.lemma_filter_map_take_succ(remote_pick(p), i as int);
            }
            let ghost ids0 = ids@;
            let ghost rem0 = remotes@;
            let is_relay = match (e.1.kind, e.1.publisher_id) {
                (ResourceKind::WhipOut, Some(q)) => q.same_key(&p),
                _ => false,
            };
            assert(is_relay == is_relay_of(es[i as int].1, p));
            if is_relay {
                ids.push(e.0);
                assert(ids@ =~= ids0 + seq![es[i as int].0]);
                match &e.1.remote_resource_url {
                    Some(u) => {
                        remotes.push((u.clone(), crate::text::clone_opt_string(&e.1.remote_bearer_token)));
                        assert(remotes@ =~= rem0 + seq![remote_of(es[i as int].1).unwrap()]);
                    },
                    None => {
                        assert(remotes@ =~= rem0 + Seq::<(String, Option<String>)>::empty());
                    },
                }
            } else {
                assert(ids@ =~= ids0 + Seq::<ResourceId>::empty());
                assert(remotes@ =~= rem0 + Seq::<(String, Option<String>)>::empty());
            }
            i = i + 1;
        }
        proof {
            assert(es.take(n as int) =~= es);
        }
        (ids, remotes)
    }

    fn remove_all(&mut self, ids: &Vec<ResourceId>) -> (removed: Vec<ResourceId>)
        requires
            old(self).wf(),
        ensures
            final(self).wf(),
            final(self).subs() == old(self).subs(),
            final(self).servers() == old(self).servers(),
            final(self).lite() == old(self).lite(),
            final(self).res() == Map::new(
                |k: ResourceId| old(self).res().contains_key(k) && !ids@.contains(k),
                |k: ResourceId| old(self).res()[k],
            ),
            removed@.no_duplicates(),
            removed@.to_set() == Set::new(|k: ResourceId| ids@.contains(k) && old(self).res().contains_key(k)),
    {
        let ghost r0 = self.res();
        let mut removed: Vec<ResourceId> = Vec::new();
        let mut i: usize = 0;
        while i < ids.len()
            invariant
                self.wf(),
                self.subs() == old(self).subs(),
                self.servers() == old(self).servers(),
                self.lite() == old(self).lite(),
                r0 == old(self).res(),
                i <= ids@.len(),
                self.res() == Map::new(|k: ResourceId| r0.contains_key(k) && !ids@.take(i as int).contains(k), |k: ResourceId| r0[k]),
                removed@.no_duplicates(),
                removed@.to_set() == Set::new(|k: ResourceId| ids@.take(i as int).contains(k) && r0.contains_key(k)),
            decreases ids@.len() - i,
        {
            let k = ids[i];
            let ghost before = removed@;
            let r = self.resources.remove(&k);
            proof {
                assert(ids@.take(i + 1) =~= ids@.take(i as int).push(k));
                broadcast use vstd::seq_lib::group_seq_properties;
                assert forall|x: ResourceId| #[trigger] ids@.take(i + 1).contains(x) == (ids@.take(i as int).contains(x) || x == k) by {
                    assert(ids@.take(i as int).push(k).contains(x) == (ids@.take(i as int).contains(x) || x == k));
                }
            }
            if r.is_some() {
                removed.push(k);
                proof {
                    assert(!before.contains(k)) by {
                        if before.contains(k) {
                            assert(before.to_set().contains(k));
                        }
                    }
                    assert(removed@.to_set() =~= before.to_set().insert(k));
                }
            }
            proof {
                assert(self.res() =~= Map::new(|x: ResourceId| r0.contains_key(x) && !ids@.take(i + 1).contains(x), |x: ResourceId| r0[x]));
                assert(removed@.to_set() =~= Set::new(|x: ResourceId| ids@.take(i + 1).contains(x) && r0.contains_key(x)));
            }
            i = i + 1;
        }
        proof {
            assert(ids@.take(i as int) =~= ids@);
        }
        removed
    }

    /// What a DELETE of resource `id_str` calls for: the resource goes away,
    /// with its publisher's subscribers (for WHIP) or its place among its
    /// publisher's subscribers (for WHEP); their peer connections are closed.
    pub fn delete(&mut self, id_str: &str) -> (plan: DeletePlan)
        requires
            old(self).wf(),
        ensures
            final(self).wf(),
            final(self).servers() == old(self).servers(),
            final(self).lite() == old(self).lite(),
            parsed_id(id_str@) is None ==> is_error_reply(plan.reply, 400, "Invalid resource ID"@)
                && plan.closed@.len() == 0 && plan.remotes@.len() == 0
                && final(self).res() == old(self).res() && final(self).subs() == old(self).subs(),
            parsed_id(id_str@) matches Some(b) ==> delete_post(*old(self), *final(self), b, plan),
    {
        let id = match self.lookup(id_str) {
            Ok(id) => id,
            Err(e) => { return DeletePlan { reply: e, closed: Vec::new(), remotes: Vec::new() }; },
        };
        proof {
            let b = id.bytes();
            let p = choose|p: ResourceId| #[trigger] p.bytes() == b && self.res().contains_key(p);
            crate::resource::lemma_bytes_determine(id, p);
        }
        let (relays, relay_remotes_found) = self.relays_of(id);
        let r = self.resources.remove(&id).unwrap();
        let mut closed: Vec<ResourceId> = Vec::new();
        closed.push(id);
        let reply = HttpReply { status: 200, headers: cors_headers(), body: String::new() };
        proof {
            assert(reply.body@ =~= Seq::<char>::empty());
        }
        match r.kind {
            ResourceKind::Whip => {
                let ghost mid = self.res();
                let subs = self.fanout.remove_publisher(id);
                let mut more = self.remove_all(&subs);
                let ghost mid2 = self.res();
                let mut gone = self.remove_all(&relays);
                let ghost head = closed@;
                let ghost mv = more@;
                let ghost gv = gone@;
                closed.append(&mut more);
                closed.append(&mut gone);
                proof {
                    assert(closed@ =~= head + mv + gv);
                    assert(closed@.drop_first() =~= mv + gv);
                    assert(mid == old(self).res().remove(id));
                    assert(self.res() =~= Map::new(
                        |k: ResourceId| old(self).res().contains_key(k) && k != id && !subs@.contains(k) && !relays@.contains(k),
                        |k: ResourceId| old(self).res()[k],
                    ));
                    assert forall|x: int, y: int| 0 <= x < mv.len() && 0 <= y < gv.len() implies mv[x] != gv[y] by {
                        assert(mv.to_set().contains(mv[x]));
                        assert(gv.to_set().contains(gv[y]));
                    }
                    vstd::seq_lib::lemma_no_dup_in_concat(mv, gv);
                    assert((mv + gv).to_set() =~= mv.to_set().union(gv.to_set())) by {
                        broadcast use vstd::seq_lib::group_seq_properties;
                    }
                    assert((mv + gv).to_set() =~= Set::new(
                        |k: ResourceId| (subs@.contains(k) || relays@.contains(k)) && k != id && old(self).res().contains_key(k),
                    ));
                }
                DeletePlan { reply, closed, remotes: relay_remotes_found }
            },
            ResourceKind::Whep => {
                if let Some(p) = r.publisher_id {
                    self.fanout.remove_subscriber(p, id);
                }
                DeletePlan { reply, closed, remotes: Vec::new() }
            },
            ResourceKind::WhipOut => {
                let mut remotes: Vec<(String, Option<String>)> = Vec::new();
                match r.remote_resource_url {
                    Some(u) => {
                        remotes.push((u, r.remote_bearer_token));
                    },
                    None => {},
                }
                proof {
                    assert(remotes@ =~= (match remote_of(r) { Some(x) => seq![x], None => Seq::empty() }));
                }
                DeletePlan { reply, closed, remotes }
            },
        }
    }
}

/// Configuration of an outgoing WHIP relay.
#[derive(Clone, Debug)]
pub struct WhipOutConfig {
    /// Remote WHIP endpoint URL (e.g. "https://remote-server/whip").
    pub endpoint_url: String,
    /// Bearer token for the remote endpoint, if it needs one.
    pub bearer_token: Option<String>,
}

/// The message refusing an HTTPS URL: this build's client speaks plain HTTP.
pub open spec fn https_refused() -> Seq<char> {
    "HTTPS URLs require the `tls` feature. Use HTTP or rebuild with --features tls"@
}

/// The message refusing a URL of another scheme than `http://`.
pub open spec fn scheme_refused(url: Seq<char>) -> Seq<char> {
    "Unsupported URL scheme (only http:// is supported): "@ + url
}

/// Checks a remote URL's scheme: the client speaks plain HTTP only, so an
/// `http://` URL is accepted, an `https://` URL is refused as needing TLS,
/// and any other URL is refused for its scheme.
pub fn validate_url(url: &str) -> (r: Result<(), String>)
    ensures
        r is Ok <==> is_prefix("http://"@, url@),
        is_prefix("https://"@, url@) ==> (r matches Err(m) && m@ == https_refused()),
        !is_prefix("https://"@, url@) && !is_prefix("http://"@, url@) ==> (r matches Err(m) && m@ == scheme_refused(url@)),
{
    if starts_with(url, "https://") {
        proof {
            reveal_strlit("https://");
            reveal_strlit("http://");
            assert("https://"@.len() == 8 && "http://"@.len() == 7);
            assert(url@[4] == url@.subrange(0, 8)[4]);
            assert("https://"@[4] == 's' && "http://"@[4] == ':');
            if is_prefix("http://"@, url@) {
                assert(url@[4] == url@.subrange(0, 7)[4]);
            }
        }
        return Err("HTTPS URLs require the `tls` feature. Use HTTP or rebuild with --features tls".to_owned());
    }
    if starts_with(url, "http://") {
        return Ok(());
    }
    Err("Unsupported URL scheme (only http:// is supported): ".to_owned().concat(url))
}

/// The `Authorization` header value for a bearer token.
pub open spec fn bearer(token: Seq<char>) -> Seq<char> {
    "Bearer "@ + token
}

/// The headers of the offer POSTed to a remote WHIP endpoint.
pub fn whip_out_headers(config: &WhipOutConfig) -> (hs: Vec<(String, String)>)
    ensures
        headers_view(hs@) == seq![("Content-Type"@, "application/sdp"@)] + (match config.bearer_token {
            Some(t) => seq![("Authorization"@, bearer(t@))],
            None => Seq::empty(),
        }),
{
    let mut hs: Vec<(String, String)> = Vec::new();
    push_header(&mut hs, "Content-Type", "application/sdp".to_owned());
    if let Some(t) = &config.bearer_token {
        push_header(&mut hs, "Authorization", "Bearer ".to_owned().concat(t.as_str()));
    }
    proof {
        assert(headers_view(hs@) =~= seq![("Content-Type"@, "application/sdp"@)] + (match config.bearer_token {
            Some(t) => seq![("Authorization"@, bearer(t@))],
            None => Seq::empty(),
        }));
    }
    hs
}

/// The headers of the DELETE of a remote WHIP-out resource.
pub fn whip_out_delete_headers(bearer_token: Option<&str>) -> (hs: Vec<(String, String)>)
    ensures
        headers_view(hs@) == (match bearer_token {
            Some(t) => seq![("Authorization"@, bearer(t@))],
            None => Seq::<(Seq<char>, Seq<char>)>::empty(),
        }),
{
    let mut hs: Vec<(String, String)> = Vec::new();
    if let Some(t) = bearer_token {
        push_header(&mut hs, "Authorization", "Bearer ".to_owned().concat(t));
    }
    proof {
        assert(headers_view(hs@) =~= (match bearer_token {
            Some(t) => seq![("Authorization"@, bearer(t@))],
            None => Seq::<(Seq<char>, Seq<char>)>::empty(),
        }));
    }
    hs
}

/// What a remote WHIP endpoint's reply to the offer means: with 201
/// Created, the remote resource's location and the SDP answer; otherwise
/// the error naming the status (its code and reason, as `status_text`) and
/// the body.
pub fn whip_out_answer(status: u16, status_text: &str, location: Option<String>, body: String)
    -> (r: Result<(Option<String>, String), String>)
    ensures
        status == 201 ==> r == Ok::<(Option<String>, String), String>((location, body)),
        status != 201 ==> (r matches Err(m) && m@ == "Remote WHIP endpoint returned "@ + status_text@ + ": "@ + body@),
{
    if status != 201 {
        return Err("Remote WHIP endpoint returned ".to_owned().concat(status_text).concat(": ").concat(body.as_str()));
    }
    Ok((location, body))
}

/// The relays that a deletion of publisher `p` closes are resources of
/// the state, each a WHIP-out relay of `p`.
pub proof fn lemma_relay_ids_are_relays(st: WhipWhepState, p: ResourceId, k: ResourceId)
    requires
        st.wf(),
        relay_ids(st.res_order(), p).contains(k),
    ensures
        st.res().contains_key(k),
        is_relay_of(st.res()[k], p),
{
    let es = st.res_order();
    es.lemma_filter_map_contains(relay_id_pick(p), k);
    let t = choose|t: (ResourceId, Resource)| #[trigger] es.contains(t) && relay_id_pick(p)(t) == Some(k);
    let i = choose|i: int| 0 <= i < es.len() && es[i] == t;
    crate::idmap::lemma_entries_map_at(es, i);
}

/// An element that `f` maps to something contributes it to `s.filter_map(f)`.
proof fn lemma_filter_map_has<A, B>(s: Seq<A>, f: spec_fn(A) -> Option<B>, i: int)
    requires
        0 <= i < s.len(),
        f(s[i]) is Some,
    ensures
        s.filter_map(f).contains(f(s[i]).unwrap()),
    decreases s.len(),
{
    let x = f(s[i]).unwrap();
    if i == s.len() - 1 {
        assert((s.drop_last().filter_map(f) + seq![x])[s.drop_last().filter_map(f).len() as int] == x);
    } else {
        assert(s.drop_last()[i] == s[i]);
        lemma_filter_map_has(s.drop_last(), f, i);
        let w = s.drop_last().filter_map(f);
        let j = choose|j: int| 0 <= j < w.len() && w[j] == x;
        match f(s.last()) {
            Some(y) => assert((w + seq![y])[j] == x),
            None => {},
        }
    }
}

/// Every WHIP-out relay of `p` in the state is among those that a deletion
/// of `p` closes.
pub proof fn lemma_relays_are_found(st: WhipWhepState, p: ResourceId, k: ResourceId)
    requires
        st.wf(),
        st.res().contains_key(k),
        is_relay_of(st.res()[k], p),
    ensures
        relay_ids(st.res_order(), p).contains(k),
{
    let es = st.res_order();
    let i = choose|i: int| 0 <= i < es.len() && es[i].0 == k;
    crate::idmap::lemma_entries_map_at(es, i);
    lemma_filter_map_has(es, relay_id_pick(p), i);
}

/// Deleting a WHIP publisher tears down its WHIP-out relays: none is left
/// among the resources.
pub proof fn lemma_publisher_delete_drops_relays(a: WhipWhepState, b: WhipWhepState, p: ResourceId, plan: DeletePlan)
    requires
        a.wf(),
        a.res().contains_key(p),
        a.res()[p].kind == ResourceKind::Whip,
        delete_post(a, b, p.bytes(), plan),
    ensures
        forall|k: ResourceId| #[trigger] b.res().contains_key(k) ==> !is_relay_of(b.res()[k], p),
        !b.res().contains_key(p),
        plan.remotes@ == relay_remotes(a.res_order(), p),
{
    let q = choose|q: ResourceId| #[trigger] q.bytes() == p.bytes() && a.res().contains_key(q);
    crate::resource::lemma_bytes_determine(p, q);
    assert forall|k: ResourceId| #[trigger] b.res().contains_key(k) implies !is_relay_of(b.res()[k], p) by {
        if is_relay_of(b.res()[k], p) {
            lemma_relays_are_found(a, p, k);
        }
    }
}

/// A WHIP publisher added under a fresh id and then deleted by that id
/// leaves the resources and the fan-out as they were.
pub proof fn lemma_whip_add_then_delete(a: WhipWhepState, b: WhipWhepState, c: WhipWhepState, id: ResourceId, etag: String, plan: DeletePlan)
    requires
        b.wf(),
        !a.res().contains_key(id),
        forall|k: ResourceId| #[trigger] a.res().contains_key(k) ==> !is_relay_of(a.res()[k], id),
        !a.subs().contains_key(id),
        b.subs() == a.subs().insert(id, Seq::<ResourceId>::empty()),
        b.res() == a.res().insert(id, Resource {
            id,
            kind: ResourceKind::Whip,
            etag,
            publisher_id: None,
            remote_resource_url: None,
            remote_bearer_token: None,
            remote_endpoint: None,
        }),
        delete_post(b, c, id.bytes(), plan),
    ensures
        c.res() == a.res(),
        c.subs() == a.subs(),
        plan.closed@ == seq![id],
        plan.reply.status == 200,
{
    assert(b.res().contains_key(id));
    let p = choose|p: ResourceId| #[trigger] p.bytes() == id.bytes() && b.res().contains_key(p);
    crate::resource::lemma_bytes_determine(p, id);
    assert forall|k: ResourceId| !relay_ids(b.res_order(), id).contains(k) by {
        if relay_ids(b.res_order(), id).contains(k) {
            lemma_relay_ids_are_relays(b, id, k);
            if k != id {
                assert(a.res().contains_key(k));
            }
        }
    }
    assert(c.res() =~= a.res());
    assert(c.subs() =~= a.subs());
    assert(plan.closed@.drop_first().to_set() =~= Set::<ResourceId>::empty());
    assert(plan.closed@.drop_first().len() == 0) by {
        if plan.closed@.drop_first().len() > 0 {
            assert(plan.closed@.drop_first().to_set().contains(plan.closed@.drop_first()[0]));
        }
    }
    assert(plan.closed@ =~= seq![id]);
}

} // verus!
