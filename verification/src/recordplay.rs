//! The Record&Play plugin: it describes itself and answers queries, and
//! refuses every message, recording and replay being not implemented.
use vstd::prelude::*;
use crate::plugin_api::{PluginError, PluginInfo, info_is};

verus! {

/// The Record&Play plugin's (stateless) logic.
#[derive(Clone, Copy, Debug)]
pub struct RecordPlayState;

impl RecordPlayState {
    /// The plugin's name, package, version, description and author.
    pub fn info() -> (i: PluginInfo)
        ensures
            info_is(i, "Janus Record&Play plugin"@, "janus.plugin.recordplay"@, 1, "0.1.0"@,
                "Record and replay WebRTC sessions from file storage."@, "Janus Rust Contributors"@),
    {
        PluginInfo {
            name: "Janus Record&Play plugin",
            package: "janus.plugin.recordplay",
            version: 1,
            version_string: "0.1.0",
            description: "Record and replay WebRTC sessions from file storage.",
            author: "Janus Rust Contributors",
        }
    }

    /// The `status` a session query reports.
    pub fn query_status() -> (s: &'static str)
        ensures
            s@ == "stub"@,
    {
        "stub"
    }

    /// Every message is refused as not implemented.
    pub fn handle_message() -> (r: Result<(), PluginError>)
        ensures
            r == Err::<(), PluginError>(PluginError::NotImplemented),
    {
        Err(PluginError::NotImplemented)
    }
}

} // verus!
