//! Verified core of a WebRTC gateway: identifiers, sessions, plugins'
//! request logic, WHIP/WHEP resource handling and the transports' decisions.
#![allow(unused_imports)]

pub mod text;
pub mod idmap;
pub mod types;
pub mod events;
pub mod transport;
pub mod config;
pub mod error;
pub mod session;
pub mod plugin_api;
pub mod streaming;
pub mod videoroom;
pub mod server;
pub mod echotest;
pub mod videocall;
pub mod sdp_fragment;
pub mod link_headers;
pub mod resource;
pub mod fanout;
pub mod whip;
pub mod sdp;
pub mod relay;
pub mod webrtc;
pub mod plugin_loader;
pub mod http;
pub mod ws;
pub mod client_map;
pub mod recordplay;
