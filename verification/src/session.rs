//! Session and handle management.
//!
//! A **session** represents a client connection (e.g. a browser tab). Each
//! session can have multiple **handles**, each attached to a different plugin.
//! Activity times are nanoseconds on the manager's monotonic clock.
use vstd::prelude::*;
use vstd::string::StringExecFns;
use crate::error::Error;
use crate::idmap::{Table, has_key, key_seq};
use crate::types::{HandleId, PluginSession, SessionId};

verus! {

#[verifier::external_type_specification]
#[verifier::external_body]
pub struct ExInstant(std::time::Instant);

/// The current instant of the monotonic clock.
///
/// Calls `std::time::Instant::now`; nothing is stated of the instant.
#[verifier::external_body]
fn clock_now() -> (t: std::time::Instant) {
    std::time::Instant::now()
}

/// Nanoseconds elapsed on the monotonic clock since `base`.
///
/// Calls `std::time::Instant::elapsed` and converts the duration to whole
/// nanoseconds. The value depends on the time of the call; nothing is stated.
#[verifier::external_body]
fn nanos_since(base: &std::time::Instant) -> (n: u64) {
    base.elapsed().as_nanos() as u64
}

/// A plugin handle within a session.
#[derive(Clone, Debug)]
pub struct HandleInfo {
    pub handle_id: HandleId,
    pub session_id: SessionId,
    /// The plugin package name this handle is attached to.
    pub plugin_package: String,
}

impl HandleInfo {
    /// The plugin-API view of this handle.
    pub fn plugin_session(&self) -> (ps: PluginSession)
        ensures
            ps.session_id == self.session_id,
            ps.handle_id == self.handle_id,
    {
        PluginSession::new(self.session_id, self.handle_id)
    }
}

/// A single client session.
#[derive(Debug)]
pub struct Session {
    pub id: SessionId,
    /// Plugin handles attached to this session, keyed by handle id.
    pub handles: Table<u64, HandleInfo>,
    /// Last activity, in nanoseconds on the manager's clock.
    pub last_activity: u64,
    /// Whether this session has been marked for destruction.
    pub destroying: bool,
}

/// Well-formedness of a session stored under key `k`.
pub open spec fn session_wf(k: u64, s: Session) -> bool {
    &&& s.id.0 == k
    &&& s.handles.wf()
    &&& forall|h: u64| #[trigger] s.handles@.contains_key(h) ==> s.handles@[h].handle_id.0 == h
        && s.handles@[h].session_id == s.id
}

/// `ids` are exactly the sessions of `m` that are timed out at `now`.
pub open spec fn timed_out_exactly(m: SessionManager, now: u64, ids: Seq<SessionId>) -> bool {
    &&& forall|i: int| 0 <= i < ids.len() ==> m.sessions().contains_key(#[trigger] ids[i].0)
        && m.timeout() != 0 && is_timed_out(m.sessions()[ids[i].0], m.timeout(), now)
    &&& forall|k: u64| #[trigger] m.sessions().contains_key(k) && m.timeout() != 0
        && is_timed_out(m.sessions()[k], m.timeout(), now)
        ==> exists|i: int| 0 <= i < ids.len() && ids[i].0 == k
}

/// The text of the error when the system's random source fails.
pub open spec fn rng_failure_text() -> Seq<char> {
    "random source unavailable"@
}

/// `r` failed because the system's random source did.
pub open spec fn is_rng_failure<T>(r: Result<T, Error>) -> bool {
    r matches Err(Error::Io(m)) && m@ == rng_failure_text()
}

/// The error of a failed random source.
pub fn rng_failure() -> (e: Error)
    ensures
        e matches Error::Io(m) && m@ == rng_failure_text(),
{
    Error::Io("random source unavailable".to_owned())
}

/// Manages all active sessions and their handles.
pub struct SessionManager {
    sessions: Table<u64, Session>,
    /// Timeout in seconds. 0 = no timeout.
    session_timeout: u64,
    clock: std::time::Instant,
}

/// Timeout in nanoseconds.
pub open spec fn timeout_nanos(secs: u64) -> int {
    secs as int * 1_000_000_000
}

/// A session with key `k`, last active at `now`, is timed out.
pub open spec fn is_timed_out(s: Session, timeout_secs: u64, now: u64) -> bool {
    !s.destroying && now as int - s.last_activity as int > timeout_nanos(timeout_secs)
}

impl SessionManager {
    /// The sessions by id.
    pub closed spec fn sessions(&self) -> Map<u64, Session> {
        self.sessions@
    }

    /// The session ids in the order the sessions were stored.
    pub closed spec fn session_order(&self) -> Seq<u64> {
        key_seq(self.sessions.entries())
    }

    /// The configured timeout in seconds.
    pub closed spec fn timeout(&self) -> u64 {
        self.session_timeout
    }

    /// The handles of session `sid`.
    pub open spec fn handles_of(&self, sid: u64) -> Map<u64, HandleInfo> {
        self.sessions()[sid].handles@
    }

    /// The manager's invariant.
    pub closed spec fn wf(&self) -> bool {
        &&& self.sessions.wf()
        &&& forall|k: u64| #[trigger] self.sessions@.contains_key(k) ==> session_wf(k, self.sessions@[k])
    }

    /// A manager with no sessions and the given timeout (seconds).
    pub fn new(session_timeout: u64) -> (m: Self)
        ensures
            m.wf(),
            m.sessions() == Map::<u64, Session>::empty(),
            m.timeout() == session_timeout,
    {
        SessionManager { sessions: Table::new(), session_timeout, clock: clock_now() }
    }

    /// Stores a fresh session with id `id` (replacing one with that id),
    /// with no handles and last active at clock reading `now`.
    pub fn store_new_session(&mut self, id: SessionId, now: u64)
        requires
            old(self).wf(),
        ensures
            final(self).wf(),
            final(self).timeout() == old(self).timeout(),
            final(self).sessions().dom() == old(self).sessions().dom().insert(id.0),
            final(self).sessions()[id.0].handles@ == Map::<u64, HandleInfo>::empty(),
            !final(self).sessions()[id.0].destroying,
            final(self).sessions()[id.0].last_activity == now,
            forall|k: u64| k != id.0 && #[trigger] old(self).sessions().contains_key(k) ==> final(self).sessions()[k] == old(self).sessions()[k],
    {
        let session = Session { id, handles: Table::new(), last_activity: now, destroying: false };
        self.sessions.insert(id.0, session);
        assert(self.sessions@.dom() =~= old(self).sessions@.dom().insert(id.0));
    }

    /// Creates a session with a fresh random id, last active at the
    /// manager's current clock reading, and returns the id; `None` (and
    /// nothing changes) when the system's random source fails.
    pub fn create_session(&mut self) -> (r: Option<SessionId>)
        requires
            old(self).wf(),
        ensures
            final(self).wf(),
            final(self).timeout() == old(self).timeout(),
            r is None ==> final(self).sessions() == old(self).sessions(),
            r matches Some(id) ==> final(self).sessions().dom() == old(self).sessions().dom().insert(id.0),
            r matches Some(id) ==> final(self).handles_of(id.0) == Map::<u64, HandleInfo>::empty(),
            r matches Some(id) ==> !final(self).sessions()[id.0].destroying,
            r matches Some(id) ==> forall|k: u64| k != id.0 && #[trigger] old(self).sessions().contains_key(k) ==> final(self).sessions()[k] == old(self).sessions()[k],
    {
        let now = self.clock_reading();
        self.create_session_at(now)
    }

    /// Creates a session with a fresh random id, last active at clock
    /// reading `now`, and returns the id; `None` (and nothing changes) when
    /// the system's random source fails.
    pub fn create_session_at(&mut self, now: u64) -> (r: Option<SessionId>)
        requires
            old(self).wf(),
        ensures
            final(self).wf(),
            final(self).timeout() == old(self).timeout(),
            r is None ==> final(self).sessions() == old(self).sessions(),
            r matches Some(id) ==> final(self).sessions().dom() == old(self).sessions().dom().insert(id.0),
            r matches Some(id) ==> final(self).handles_of(id.0) == Map::<u64, HandleInfo>::empty(),
            r matches Some(id) ==> !final(self).sessions()[id.0].destroying,
            r matches Some(id) ==> final(self).sessions()[id.0].last_activity == now,
            r matches Some(id) ==> forall|k: u64| k != id.0 && #[trigger] old(self).sessions().contains_key(k) ==> final(self).sessions()[k] == old(self).sessions()[k],
    {
        let id = match SessionId::random() {
            Some(id) => id,
            None => { return None; },
        };
        self.store_new_session(id, now);
        Some(id)
    }

    /// Creates a session with a given id. Returns false (and changes
    /// nothing) if a session with that id already exists.
    pub fn create_session_with_id(&mut self, id: SessionId) -> (created: bool)
        requires
            old(self).wf(),
        ensures
            final(self).wf(),
            final(self).timeout() == old(self).timeout(),
            created == !old(self).sessions().contains_key(id.0),
            !created ==> final(self).sessions() == old(self).sessions(),
            created ==> final(self).sessions().dom() == old(self).sessions().dom().insert(id.0),
            created ==> final(self).handles_of(id.0) == Map::<u64, HandleInfo>::empty(),
            created ==> !final(self).sessions()[id.0].destroying,
            forall|k: u64| k != id.0 && #[trigger] old(self).sessions().contains_key(k) ==> final(self).sessions()[k] == old(self).sessions()[k],
    {
        let now = self.clock_reading();
        self.create_session_with_id_at(id, now)
    }

    /// Creates a session with a given id, last active at clock reading
    /// `now`. Returns false (and changes nothing) if a session with that id
    /// already exists.
    pub fn create_session_with_id_at(&mut self, id: SessionId, now: u64) -> (created: bool)
        requires
            old(self).wf(),
        ensures
            final(self).wf(),
            final(self).timeout() == old(self).timeout(),
            created == !old(self).sessions().contains_key(id.0),
            !created ==> final(self).sessions() == old(self).sessions(),
            created ==> final(self).sessions().dom() == old(self).sessions().dom().insert(id.0),
            created ==> final(self).handles_of(id.0) == Map::<u64, HandleInfo>::empty(),
            created ==> !final(self).sessions()[id.0].destroying,
            created ==> final(self).sessions()[id.0].last_activity == now,
            forall|k: u64| k != id.0 && #[trigger] old(self).sessions().contains_key(k) ==> final(self).sessions()[k] == old(self).sessions()[k],
    {
        if self.sessions.contains_key(&id.0) {
            return false;
        }
        self.store_new_session(id, now);
        true
    }

    /// Looks up a session; `None` if it is absent or marked for destruction.
    pub fn get_session(&self, id: SessionId) -> (r: Option<&Session>)
        requires
            self.wf(),
        ensures
            r matches Some(s) ==> self.sessions().contains_key(id.0) && *s == self.sessions()[id.0] && !s.destroying,
            r is None ==> !self.sessions().contains_key(id.0) || self.sessions()[id.0].destroying,
    {
        match self.sessions.get(&id.0) {
            Some(s) => if s.destroying { None } else { Some(s) },
            None => None,
        }
    }

    /// Resets a session's timeout; false if the session does not exist.
    pub fn touch_session(&mut self, id: SessionId) -> (found: bool)
        requires
            old(self).wf(),
        ensures
            final(self).wf(),
            final(self).timeout() == old(self).timeout(),
            found == old(self).sessions().contains_key(id.0),
            final(self).sessions().dom() == old(self).sessions().dom(),
            found ==> final(self).sessions()[id.0] == (Session { last_activity: final(self).sessions()[id.0].last_activity, ..old(self).sessions()[id.0] }),
            found ==> final(self).handles_of(id.0) == old(self).handles_of(id.0),
            found ==> final(self).sessions()[id.0].destroying == old(self).sessions()[id.0].destroying,
            forall|k: u64| k != id.0 && #[trigger] old(self).sessions().contains_key(k) ==> final(self).sessions()[k] == old(self).sessions()[k],
    {
        let now = self.clock_reading();
        self.touch_session_at(id, now)
    }

    /// Whether a session with id `id` is stored (marked for destruction or
    /// not).
    pub fn contains_session(&self, id: SessionId) -> (b: bool)
        requires
            self.wf(),
        ensures
            b == self.sessions().contains_key(id.0),
    {
        self.sessions.contains_key(&id.0)
    }

    /// The manager's clock reading: nanoseconds since it was made.
    pub fn clock_reading(&self) -> (now: u64) {
        nanos_since(&self.clock)
    }

    /// Resets a session's timeout to clock reading `now`: its last activity
    /// becomes `now` and nothing else changes. False if the session does not
    /// exist.
    pub fn touch_session_at(&mut self, id: SessionId, now: u64) -> (found: bool)
        requires
            old(self).wf(),
        ensures
            final(self).wf(),
            final(self).timeout() == old(self).timeout(),
            found == old(self).sessions().contains_key(id.0),
            final(self).sessions().dom() == old(self).sessions().dom(),
            found ==> final(self).sessions()[id.0] == (Session { last_activity: now, ..old(self).sessions()[id.0] }),
            found ==> final(self).handles_of(id.0) == old(self).handles_of(id.0),
            found ==> final(self).sessions()[id.0].destroying == old(self).sessions()[id.0].destroying,
            !found ==> final(self).sessions() == old(self).sessions(),
            forall|k: u64| k != id.0 && #[trigger] old(self).sessions().contains_key(k) ==> final(self).sessions()[k] == old(self).sessions()[k],
    {
        match self.sessions.remove(&id.0) {
            Some(mut s) => {
                s.last_activity = now;
                self.sessions.insert(id.0, s);
                assert(self.sessions@.dom() =~= old(self).sessions@.dom());
                true
            },
            None => {
                assert(self.sessions@ =~= old(self).sessions@);
                false
            },
        }
    }

    /// Attaches a new handle for `plugin_package` to a session and returns
    /// its id; fails if the session does not exist.
    pub fn attach_handle(&mut self, session_id: SessionId, plugin_package: String) -> (r: Result<HandleId, Error>)
        requires
            old(self).wf(),
        ensures
            final(self).wf(),
            final(self).timeout() == old(self).timeout(),
            final(self).sessions().dom() == old(self).sessions().dom(),
            !old(self).sessions().contains_key(session_id.0) <==> r == Err::<HandleId, Error>(Error::SessionNotFound(session_id.0)),
            r is Ok ==> old(self).sessions().contains_key(session_id.0),
            old(self).sessions().contains_key(session_id.0) && r is Err ==> is_rng_failure(r),
            r is Err ==> final(self).sessions() == old(self).sessions(),
            r matches Ok(h) ==> {
                &&& final(self).handles_of(session_id.0) == old(self).handles_of(session_id.0).insert(
                    h.0,
                    HandleInfo { handle_id: h, session_id, plugin_package },
                )
                &&& final(self).sessions()[session_id.0].last_activity == old(self).sessions()[session_id.0].last_activity
                &&& final(self).sessions()[session_id.0].destroying == old(self).sessions()[session_id.0].destroying
            },
            forall|k: u64| k != session_id.0 && #[trigger] old(self).sessions().contains_key(k) ==> final(self).sessions()[k] == old(self).sessions()[k],
    {
        if !self.sessions.contains_key(&session_id.0) {
            return Err(Error::SessionNotFound(session_id.0));
        }
        let handle_id = match HandleId::random() {
            Some(h) => h,
            None => { return Err(rng_failure()); },
        };
        self.attach_handle_with_id(session_id, handle_id, plugin_package)
    }

    /// Attaches handle `handle_id` for `plugin_package` to a session (an
    /// existing handle with that id is replaced) and returns the id; fails,
    /// changing nothing, if the session does not exist.
    pub fn attach_handle_with_id(&mut self, session_id: SessionId, handle_id: HandleId, plugin_package: String)
        -> (r: Result<HandleId, Error>)
        requires
            old(self).wf(),
        ensures
            final(self).wf(),
            final(self).timeout() == old(self).timeout(),
            final(self).sessions().dom() == old(self).sessions().dom(),
            !old(self).sessions().contains_key(session_id.0) ==> r == Err::<HandleId, Error>(Error::SessionNotFound(session_id.0))
                && final(self).sessions() == old(self).sessions(),
            old(self).sessions().contains_key(session_id.0) ==> {
                &&& r == Ok::<HandleId, Error>(handle_id)
                &&& final(self).handles_of(session_id.0) == old(self).handles_of(session_id.0).insert(
                    handle_id.0,
                    HandleInfo { handle_id, session_id, plugin_package },
                )
                &&& final(self).sessions()[session_id.0].last_activity == old(self).sessions()[session_id.0].last_activity
                &&& final(self).sessions()[session_id.0].destroying == old(self).sessions()[session_id.0].destroying
            },
            forall|k: u64| k != session_id.0 && #[trigger] old(self).sessions().contains_key(k) ==> final(self).sessions()[k] == old(self).sessions()[k],
    {
        match self.sessions.remove(&session_id.0) {
            Some(mut s) => {
                let info = HandleInfo { handle_id, session_id, plugin_package };
                s.handles.insert(handle_id.0, info);
                self.sessions.insert(session_id.0, s);
                assert(self.sessions@.dom() =~= old(self).sessions@.dom());
                Ok(handle_id)
            },
            None => {
                assert(self.sessions@ =~= old(self).sessions@);
                Err(Error::SessionNotFound(session_id.0))
            },
        }
    }

    /// Looks up a handle within a session.
    pub fn get_handle(&self, session_id: SessionId, handle_id: HandleId) -> (r: Result<HandleInfo, Error>)
        requires
            self.wf(),
        ensures
            !self.sessions().contains_key(session_id.0) ==> r == Err::<HandleInfo, Error>(Error::SessionNotFound(session_id.0)),
            self.sessions().contains_key(session_id.0) && !self.handles_of(session_id.0).contains_key(handle_id.0)
                ==> r == Err::<HandleInfo, Error>(Error::HandleNotFound(handle_id.0)),
            self.sessions().contains_key(session_id.0) && self.handles_of(session_id.0).contains_key(handle_id.0)
                ==> r == Ok::<HandleInfo, Error>(self.handles_of(session_id.0)[handle_id.0]),
    {
        match self.sessions.get(&session_id.0) {
            Some(s) => match s.handles.get(&handle_id.0) {
                Some(info) => Ok(info.clone_info()),
                None => Err(Error::HandleNotFound(handle_id.0)),
            },
            None => Err(Error::SessionNotFound(session_id.0)),
        }
    }

    /// Detaches a handle from a session, returning its info.
    pub fn detach_handle(&mut self, session_id: SessionId, handle_id: HandleId) -> (r: Result<HandleInfo, Error>)
        requires
            old(self).wf(),
        ensures
            final(self).wf(),
            final(self).timeout() == old(self).timeout(),
            final(self).sessions().dom() == old(self).sessions().dom(),
            !old(self).sessions().contains_key(session_id.0) ==> r == Err::<HandleInfo, Error>(Error::SessionNotFound(session_id.0)),
            old(self).sessions().contains_key(session_id.0) && !old(self).handles_of(session_id.0).contains_key(handle_id.0)
                ==> r == Err::<HandleInfo, Error>(Error::HandleNotFound(handle_id.0)),
            r is Err ==> final(self).sessions() == old(self).sessions(),
            old(self).sessions().contains_key(session_id.0) && old(self).handles_of(session_id.0).contains_key(handle_id.0) ==> {
                &&& r == Ok::<HandleInfo, Error>(old(self).handles_of(session_id.0)[handle_id.0])
                &&& final(self).handles_of(session_id.0) == old(self).handles_of(session_id.0).remove(handle_id.0)
                &&& final(self).sessions()[session_id.0].last_activity == old(self).sessions()[session_id.0].last_activity
                &&& final(self).sessions()[session_id.0].destroying == old(self).sessions()[session_id.0].destroying
            },
            forall|k: u64| k != session_id.0 && #[trigger] old(self).sessions().contains_key(k) ==> final(self).sessions()[k] == old(self).sessions()[k],
    {
        if !self.sessions.contains_key(&session_id.0) {
            return Err(Error::SessionNotFound(session_id.0));
        }
        let present = match self.sessions.get(&session_id.0) {
            Some(s) => s.handles.contains_key(&handle_id.0),
            None => false,
        };
        if !present {
            return Err(Error::HandleNotFound(handle_id.0));
        }
        match self.sessions.remove(&session_id.0) {
            Some(mut s) => {
                let removed = s.handles.remove(&handle_id.0);
                self.sessions.insert(session_id.0, s);
                assert(self.sessions@.dom() =~= old(self).sessions@.dom());
                match removed {
                    Some(info) => Ok(info),
                    None => Err(Error::HandleNotFound(handle_id.0)),
                }
            },
            None => Err(Error::SessionNotFound(session_id.0)),
        }
    }

    /// Removes a session, returning the infos of all its handles.
    pub fn destroy_session(&mut self, id: SessionId) -> (r: Result<Vec<HandleInfo>, Error>)
        requires
            old(self).wf(),
        ensures
            final(self).wf(),
            final(self).timeout() == old(self).timeout(),
            final(self).sessions() == old(self).sessions().remove(id.0),
            !old(self).sessions().contains_key(id.0) <==> r == Err::<Vec<HandleInfo>, Error>(Error::SessionNotFound(id.0)),
            old(self).sessions().contains_key(id.0) <==> r is Ok,
            r matches Ok(hs) ==> {
                &&& hs@.len() == old(self).handles_of(id.0).dom().len()
                &&& forall|i: int| 0 <= i < hs@.len() ==> old(self).handles_of(id.0).contains_key(#[trigger] hs@[i].handle_id.0)
                    && old(self).handles_of(id.0)[hs@[i].handle_id.0] == hs@[i]
                &&& forall|h: u64| #[trigger] old(self).handles_of(id.0).contains_key(h) ==> exists|i: int| 0 <= i < hs@.len() && hs@[i].handle_id.0 == h
            },
    {
        match self.sessions.remove(&id.0) {
            Some(s) => {
                let hs = handle_list(&s.handles);
                Ok(hs)
            },
            None => Err(Error::SessionNotFound(id.0)),
        }
    }

    /// Number of sessions.
    pub fn session_count(&self) -> (n: usize)
        requires
            self.wf(),
        ensures
            n == self.sessions().dom().len(),
    {
        self.sessions.len()
    }

    /// Ids of all sessions.
    pub fn session_ids(&self) -> (ids: Vec<SessionId>)
        requires
            self.wf(),
        ensures
            ids@.len() == self.sessions().dom().len(),
            forall|i: int| 0 <= i < ids@.len() ==> self.sessions().contains_key(#[trigger] ids@[i].0),
            forall|k: u64| #[trigger] self.sessions().contains_key(k) ==> exists|i: int| 0 <= i < ids@.len() && ids@[i].0 == k,
    {
        let keys = self.sessions.keys();
        let mut out: Vec<SessionId> = Vec::new();
        let mut i: usize = 0;
        while i < keys.len()
            invariant
                i <= keys@.len(),
                out@.len() == i,
                forall|j: int| 0 <= j < i ==> out@[j].0 == keys@[j],
            decreases keys@.len() - i,
        {
            out.push(SessionId(keys[i]));
            i = i + 1;
        }
        proof {
            assert forall|j: int| 0 <= j < out@.len() implies self.sessions().contains_key(#[trigger] out@[j].0) by {
                assert(keys@.to_set().contains(keys@[j]));
            }
            assert forall|k: u64| #[trigger] self.sessions().contains_key(k) implies exists|j: int| 0 <= j < out@.len() && out@[j].0 == k by {
                assert(keys@.to_set().contains(k));
                let j = choose|j: int| 0 <= j < keys@.len() && keys@[j] == k;
                assert(out@[j].0 == k);
            }
            keys@.unique_seq_to_set();
        }
        out
    }

    /// Ids of the sessions that are timed out at clock reading `now`: those
    /// not marked for destruction whose inactivity exceeds the timeout. With
    /// a zero timeout no session ever times out.
    pub fn timed_out_at(&self, now: u64) -> (ids: Vec<SessionId>)
        requires
            self.wf(),
        ensures
            self.timeout() == 0 ==> ids@.len() == 0,
            timed_out_exactly(*self, now, ids@),
            ids@.map_values(|s: SessionId| s.0).no_duplicates(),
    {
        let mut out: Vec<SessionId> = Vec::new();
        if self.session_timeout == 0 {
            assert(out@.map_values(|s: SessionId| s.0) =~= Seq::<u64>::empty());
            return out;
        }
        let limit: u128 = self.session_timeout as u128 * 1_000_000_000u128;
        let n = self.sessions.len();
        let mut i: usize = 0;
        let ghost es = self.sessions.entries();
        while i < n
            invariant
                self.wf(),
                es == self.sessions.entries(),
                n == es.len(),
                i <= n,
                limit == timeout_nanos(self.session_timeout),
                self.session_timeout != 0,
                forall|j: int| 0 <= j < out@.len() ==> self.sessions@.contains_key(#[trigger] out@[j].0)
                    && is_timed_out(self.sessions@[out@[j].0], self.session_timeout, now),
                forall|j: int| 0 <= j < out@.len() ==> exists|m: int| 0 <= m < i && es[m].0 == #[trigger] out@[j].0,
                forall|m: int| 0 <= m < i && is_timed_out(#[trigger] es[m].1, self.session_timeout, now)
                    ==> exists|j: int| 0 <= j < out@.len() && out@[j].0 == es[m].0,
                out@.map_values(|s: SessionId| s.0).no_duplicates(),
            decreases n - i,
        {
            let e = self.sessions.entry_at(i);
            proof {
                crate::idmap::lemma_entries_map_at(es, i as int);
            }
            let s = &e.1;
            let ghost out0 = out@;
            if !s.destroying && now > s.last_activity && (now - s.last_activity) as u128 > limit {
                let ghost before = out@;
                proof {
                    assert forall|j: int| 0 <= j < before.len() implies before[j].0 != e.0 by {
                        let m = choose|m: int| 0 <= m < i && es[m].0 == before[j].0;
                        assert(m != i);
                    }
                }
                out.push(SessionId(e.0));
                assert(out@.map_values(|s: SessionId| s.0) =~= before.map_values(|s: SessionId| s.0).push(e.0));
                assert forall|j: int| 0 <= j < out@.len() implies exists|m: int| 0 <= m < i + 1 && es[m].0 == #[trigger] out@[j].0 by {
                    if j < before.len() {
                        let m = choose|m: int| 0 <= m < i && es[m].0 == before[j].0;
                        assert(es[m].0 == out@[j].0);
                    } else {
                        assert(es[i as int].0 == out@[j].0);
                    }
                }
            }
            proof {
                assert forall|m: int| 0 <= m < i + 1 && is_timed_out(#[trigger] es[m].1, self.session_timeout, now)
                    implies exists|j: int| 0 <= j < out@.len() && out@[j].0 == es[m].0 by {
                    if m < i {
                        let j = choose|j: int| 0 <= j < out0.len() && out0[j].0 == es[m].0;
                        assert(out@[j] == out0[j]);
                    } else {
                        assert(out@[out@.len() - 1].0 == es[m].0);
                    }
                }
            }
            i = i + 1;
        }
        proof {
            assert forall|k: u64| #[trigger] self.sessions@.contains_key(k) && is_timed_out(self.sessions@[k], self.session_timeout, now)
                implies exists|j: int| 0 <= j < out@.len() && out@[j].0 == k by {
                assert(has_key(es, k));
                let m = choose|m: int| 0 <= m < es.len() && es[m].0 == k;
                crate::idmap::lemma_entries_map_at(es, m);
            }
        }
        out
    }

    /// Ids of the sessions timed out now: those that are timed out at the
    /// manager's clock reading `now` (which the contract does not fix).
    pub fn collect_timed_out(&self) -> (ids: Vec<SessionId>)
        requires
            self.wf(),
        ensures
            self.timeout() == 0 ==> ids@.len() == 0,
            exists|now: u64| timed_out_exactly(*self, now, ids@),
            ids@.map_values(|s: SessionId| s.0).no_duplicates(),
    {
        let now = nanos_since(&self.clock);
        self.timed_out_at(now)
    }

    /// The period, in seconds, at which the watchdog looks for timed-out
    /// sessions: half the timeout, or 5 when there is none, and at least 1.
    pub fn watchdog_period_secs(&self) -> (p: u64)
        ensures
            p == (if self.timeout() > 0 {
                if self.timeout() / 2 >= 1 { self.timeout() / 2 } else { 1 }
            } else {
                5
            }),
    {
        let secs = if self.session_timeout > 0 { self.session_timeout / 2 } else { 5 };
        if secs >= 1 { secs } else { 1 }
    }
}

impl HandleInfo {
    /// A copy of this info.
    pub fn clone_info(&self) -> (c: HandleInfo)
        ensures
            c == *self,
    {
        HandleInfo { handle_id: self.handle_id, session_id: self.session_id, plugin_package: self.plugin_package.clone() }
    }
}

/// The infos of all handles of a table, in table order.
fn handle_list(t: &Table<u64, HandleInfo>) -> (hs: Vec<HandleInfo>)
    requires
        t.wf(),
        forall|h: u64| #[trigger] t@.contains_key(h) ==> t@[h].handle_id.0 == h,
    ensures
        hs@.len() == t@.dom().len(),
        forall|i: int| 0 <= i < hs@.len() ==> t@.contains_key(#[trigger] hs@[i].handle_id.0) && t@[hs@[i].handle_id.0] == hs@[i],
        forall|h: u64| #[trigger] t@.contains_key(h) ==> exists|i: int| 0 <= i < hs@.len() && hs@[i].handle_id.0 == h,
{
    let n = t.len();
    let mut out: Vec<HandleInfo> = Vec::new();
    let mut i: usize = 0;
    let ghost es = t.entries();
    while i < n
        invariant
            t.wf(),
            es == t.entries(),
            n == es.len(),
            i <= n,
            out@.len() == i,
            forall|h: u64| #[trigger] t@.contains_key(h) ==> t@[h].handle_id.0 == h,
            forall|j: int| 0 <= j < i ==> out@[j] == #[trigger] es[j].1,
        decreases n - i,
    {
        let e = t.entry_at(i);
        out.push(e.1.clone_info());
        i = i + 1;
    }
    proof {
        assert forall|j: int| 0 <= j < out@.len() implies t@.contains_key(#[trigger] out@[j].handle_id.0) && t@[out@[j].handle_id.0] == out@[j] by {
            crate::idmap::lemma_entries_map_at(es, j);
        }
        assert forall|h: u64| #[trigger] t@.contains_key(h) implies exists|j: int| 0 <= j < out@.len() && out@[j].handle_id.0 == h by {
            let j = choose|j: int| 0 <= j < es.len() && es[j].0 == h;
            crate::idmap::lemma_entries_map_at(es, j);
            assert(out@[j] == es[j].1);
        }
        crate::idmap::lemma_entries_map_len(es);
    }
    out
}

/// Creating a session under an id that was free and then destroying it
/// leaves the sessions as they were.
pub proof fn lemma_create_then_destroy(a: SessionManager, b: SessionManager, c: SessionManager, id: u64)
    requires
        a.wf(),
        !a.sessions().contains_key(id),
        b.sessions().dom() == a.sessions().dom().insert(id),
        forall|k: u64| k != id && #[trigger] a.sessions().contains_key(k) ==> b.sessions()[k] == a.sessions()[k],
        c.sessions() == b.sessions().remove(id),
    ensures
        c.sessions() == a.sessions(),
{
    assert(c.sessions() =~= a.sessions());
}

/// Attaching a handle to a session and then detaching it leaves the
/// session's handles as they were.
pub proof fn lemma_attach_then_detach(a: SessionManager, b: SessionManager, c: SessionManager, sid: u64, h: HandleInfo)
    requires
        a.wf(),
        a.sessions().contains_key(sid),
        !a.handles_of(sid).contains_key(h.handle_id.0),
        b.handles_of(sid) == a.handles_of(sid).insert(h.handle_id.0, h),
        c.handles_of(sid) == b.handles_of(sid).remove(h.handle_id.0),
    ensures
        c.handles_of(sid) == a.handles_of(sid),
{
    assert(c.handles_of(sid) =~= a.handles_of(sid));
}

} // verus!
