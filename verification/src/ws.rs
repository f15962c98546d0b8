//! The WebSocket transport's decisions: its configuration, the connected
//! clients, and what each frame or event on a connection leads to.
use vstd::prelude::*;
use vstd::string::StrSliceExecFns;
use vstd::string::StringExecFns;
use crate::resource::{ResourceId, id_text};
use crate::text::str_eq;

verus! {

/// WebSocket transport configuration.
#[derive(Clone, Debug)]
pub struct WsTransportConfig {
    /// Address to bind to.
    pub address: String,
    /// Port for the Janus API.
    pub port: u16,
    /// Port for the Admin API (0 = disabled).
    pub admin_port: u16,
    /// WebSocket subprotocol.
    pub subprotocol: String,
}

impl Default for WsTransportConfig {
    fn default() -> (c: Self)
        ensures
            c.address@ == "0.0.0.0"@,
            c.port == 8188,
            c.admin_port == 0,
            c.subprotocol@ == "janus-protocol"@,
    {
        WsTransportConfig {
            address: "0.0.0.0".to_string(),
            port: 8188,
            admin_port: 0,
            subprotocol: "janus-protocol".to_string(),
        }
    }
}

/// The error code sent for a text frame that is not JSON.
pub const INVALID_JSON_CODE: u32 = 454;

/// The reason sent for a text frame that is not JSON.
pub fn invalid_json_reason() -> (s: String)
    ensures
        s@ == "Invalid JSON"@,
{
    "Invalid JSON".to_string()
}

/// What happened on a connection.
#[derive(Clone, Debug)]
pub enum WsInput {
    /// A text frame.
    Text(String),
    /// A ping frame with its payload.
    Ping(Vec<u8>),
    /// A close frame.
    Close,
    /// A binary or pong frame.
    OtherFrame,
    /// Reading from the socket failed.
    ReadError,
    /// The socket's stream ended.
    StreamEnded,
    /// The core pushed an event for this client.
    Event,
    /// The core's event channel closed.
    EventsClosed,
}

/// What the connection does next.
#[derive(Clone, Debug)]
pub enum WsStep {
    /// Parse the text as a request and send back the core's response (or
    /// the invalid-JSON error).
    Process(String),
    /// Answer with a pong carrying the payload.
    Pong(Vec<u8>),
    /// Send the event to the client.
    Forward,
    /// Nothing.
    Ignore,
    /// Close the connection and clean up.
    Disconnect,
}

/// The step for one input of a connection.
pub open spec fn step_of(input: WsInput) -> WsStep {
    match input {
        WsInput::Text(t) => WsStep::Process(t),
        WsInput::Ping(p) => WsStep::Pong(p),
        WsInput::OtherFrame => WsStep::Ignore,
        WsInput::Event => WsStep::Forward,
        _ => WsStep::Disconnect,
    }
}

/// What the connection does with `input`.
pub fn ws_step(input: WsInput) -> (s: WsStep)
    ensures
        s == step_of(input),
{
    match input {
        WsInput::Text(t) => WsStep::Process(t),
        WsInput::Ping(p) => WsStep::Pong(p),
        WsInput::OtherFrame => WsStep::Ignore,
        WsInput::Event => WsStep::Forward,
        WsInput::Close => WsStep::Disconnect,
        WsInput::ReadError => WsStep::Disconnect,
        WsInput::StreamEnded => WsStep::Disconnect,
        WsInput::EventsClosed => WsStep::Disconnect,
    }
}

/// A fresh client id: the text of a random version-4 UUID; `None` when the
/// system's random source fails.
pub fn new_client_id() -> (r: Option<String>)
    ensures
        r matches Some(s) ==> exists|b: Seq<u8>| b.len() == 16 && b[6] / 16 == 4 && b[8] / 64 == 2 && s@ == id_text(b),
{
    match ResourceId::new() {
        Some(id) => Some(id.to_string()),
        None => None,
    }
}

/// The connected clients, in order of connection.
#[derive(Debug)]
pub struct WsClients {
    ids: Vec<String>,
}

/// The reason a message to an unknown client fails.
pub open spec fn client_not_found(id: Seq<char>) -> Seq<char> {
    "client not found: "@ + id
}

impl WsClients {
    /// The ids of the connected clients.
    pub closed spec fn view(&self) -> Seq<Seq<char>> {
        self.ids@.map_values(|s: String| s@)
    }

    /// No id is connected twice.
    pub open spec fn wf(&self) -> bool {
        self.view().no_duplicates()
    }

    /// No client.
    pub fn new() -> (c: Self)
        ensures
            c.wf(),
            c.view() == Seq::<Seq<char>>::empty(),
    {
        let c = WsClients { ids: Vec::new() };
        assert(c.view() =~= Seq::<Seq<char>>::empty());
        c
    }

    fn position(&self, id: &str) -> (r: Option<usize>)
        ensures
            r matches Some(i) ==> i < self.view().len() && self.view()[i as int] == id@,
            r is None ==> !self.view().contains(id@),
    {
        let mut i: usize = 0;
        while i < self.ids.len()
            invariant
                i <= self.ids@.len(),
                forall|j: int| 0 <= j < i ==> self.view()[j] != id@,
            decreases self.ids@.len() - i,
        {
            if str_eq(self.ids[i].as_str(), id) {
                return Some(i);
            }
            i = i + 1;
        }
        None
    }

    /// Whether `id` is connected.
    pub fn contains(&self, id: &str) -> (b: bool)
        ensures
            b == self.view().contains(id@),
    {
        self.position(id).is_some()
    }

    /// Number of connected clients.
    pub fn client_count(&self) -> (n: usize)
        ensures
            n == self.view().len(),
    {
        self.ids.len()
    }

    /// Registers a connected client (a client already there stays once).
    pub fn connect(&mut self, id: String)
        requires
            old(self).wf(),
        ensures
            final(self).wf(),
            old(self).view().contains(id@) ==> final(self).view() == old(self).view(),
            !old(self).view().contains(id@) ==> final(self).view() == old(self).view().push(id@),
    {
        if self.position(id.as_str()).is_none() {
            let ghost before = self.view();
            self.ids.push(id);
            assert(self.view() =~= before.push(id@));
        }
    }

    /// Removes a client that went away.
    pub fn disconnect(&mut self, id: &str)
        requires
            old(self).wf(),
        ensures
            final(self).wf(),
            !final(self).view().contains(id@),
            final(self).view().to_set() == old(self).view().to_set().remove(id@),
    {
        match self.position(id) {
            Some(i) => {
                let ghost before = self.view();
                self.ids.remove(i);
                assert(self.view() =~= before.remove(i as int));
                proof {
                    assert forall|x: Seq<char>| #[trigger] self.view().contains(x) <==> before.to_set().remove(id@).contains(x) by {
                        if self.view().contains(x) {
                            let k = choose|k: int| 0 <= k < self.view().len() && self.view()[k] == x;
                            if k < i {
                                assert(before[k] == x);
                            } else {
                                assert(before[k + 1] == x);
                            }
                            assert(before.contains(x));
                        }
                        if before.to_set().remove(id@).contains(x) {
                            let k = choose|k: int| 0 <= k < before.len() && before[k] == x;
                            assert(k != i);
                            if k < i {
                                assert(self.view()[k] == x);
                            } else {
                                assert(self.view()[k - 1] == x);
                            }
                        }
                    }
                    assert(self.view().to_set() =~= before.to_set().remove(id@));
                }
            },
            None => {
                assert(self.view().to_set() =~= self.view().to_set().remove(id@));
            },
        }
    }

    /// Whether a message can go to `id`: `Ok` when it is connected, else
    /// the error that names it.
    pub fn send_target(&self, id: &str) -> (r: Result<(), String>)
        ensures
            r is Ok <==> self.view().contains(id@),
            r matches Err(e) ==> e@ == client_not_found(id@),
    {
        if self.contains(id) {
            Ok(())
        } else {
            let mut e = "client not found: ".to_string();
            e.append(id);
            Err(e)
        }
    }
}

} // verus!
