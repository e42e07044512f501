# webrtc_video

Live video over WebRTC. A server captures video with GStreamer, shows it and offers it to every
client that connects over a WebSocket; a client takes the offer and shows what it receives.

* `src/` is the library: the signaling messages, both sides of the negotiation, the codecs, the
  frames that go to each client, and what becomes of a frame on a texture. It is written in
  Verus, and every function carries a contract that Verus proves. Calls into `serde_json`, `webrtc` and
  `crossbeam_channel` stand behind small functions whose contracts are taken on trust; their doc
  comments say what is claimed of the outside call.
* `tests/` runs the library with the outside crates linked.
* `app/` is the program around it: windows and sprites (Bevy), pipelines (GStreamer), sockets and
  peer connections. It needs `bevy` 0.15 beside the crates of `Cargo.toml`, and the GStreamer
  system libraries. Run it as `webrtc_video server` or `webrtc_video client`.
