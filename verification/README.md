# dora_gst_webrtc_sink

A dora node that receives RGB8 images and streams them to WebRTC clients
through GStreamer, with a WebSocket signaling server built in.

- `src/` is the verified library (Verus): signaling messages and their
  routing (`signaling`), the table of peers (`peers`, `peer_connection`),
  the signaling server's decisions (`server`), the step-by-step negotiation
  of an answer to a client's offer (`negotiation`), the media pipeline and
  frames (`media`), and the node's settings and dataflow events (`node`).
- `app/` is the program around it: the tokio runtime, the warp WebSocket
  endpoint, the dora event loop, the JSON encoding of signaling messages and
  the GStreamer calls that each negotiation step asks for.
- `tests/` exercises the library.
