//! The fixed settings of the two programs.
use vstd::prelude::*;

verus! {

/// Where the server listens for clients.
pub const LISTEN_ADDRESS: &'static str = "0.0.0.0:3536";

/// Where the client finds the server.
pub const SIGNALING_URL: &'static str = "ws://localhost:3536";

/// The STUN server by which both sides learn their public addresses.
pub const STUN_SERVER: &'static str = "stun:stun.l.google.com:19302";

/// The codec of the video.
pub const VIDEO_MIME_TYPE: &'static str = "video/VP8";

/// The clock rate of the video track in hertz.
pub const VIDEO_CLOCK_RATE: u32 = 90000;

/// The RTP payload type of the video.
pub const VIDEO_PAYLOAD_TYPE: u8 = 96;

/// The identifier of the video track.
pub const TRACK_ID: &'static str = "video";

/// The identifier of the stream that the video track belongs to.
pub const STREAM_ID: &'static str = "webrtc-rs";

/// How long a frame is shown, in milliseconds.
pub const FRAME_DURATION_MS: u64 = 33;

/// The pipeline that captures the server's video.
pub const CAPTURE_PIPELINE: &'static str =
    "videotestsrc is-live=true ! video/x-raw,format=RGBA,width=640,height=480,framerate=30/1 ! appsink name=local_sink";

/// The element of the capturing pipeline that frames are pulled from.
pub const CAPTURE_SINK: &'static str = "local_sink";

/// The pixel format that the client asks its decoder for.
pub const DECODED_FORMAT: &'static str = "RGBA";

} // verus!
