# janus_gateway

A WebRTC gateway in the style of Janus, whose logic is written in Verus and
proved against its contracts.

- `src/` is the verified library: sessions and handles, the Janus API's
  request handling (`server`), the EchoTest, Streaming, VideoRoom, VideoCall
  and Record&Play plugins' request logic, WHIP/WHEP resources and their
  fan-out, trickle-ICE SDP fragments, ICE-server `Link` headers, resource
  identifiers, the relay's counters, the decisions of the HTTP and WebSocket
  transports, of peer connections and of dynamic plugin loading.
  Calls into str0m, uuid, getrandom, flate2, dashmap and `std::path` stand behind a
  few trusted wrappers, each documented where it is declared.
- `tests/` runs the library on concrete values.
- `app/` is the program around it: JSON on the wire, axum and
  tokio-tungstenite transports, str0m peer connections on UDP sockets,
  the plugins' async interface, libloading, and configuration files.
