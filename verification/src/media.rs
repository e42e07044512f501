//! The codecs that the two sides put forward.
use vstd::prelude::*;
use webrtc::api::media_engine::MediaEngine;

use crate::config::{VIDEO_CLOCK_RATE, VIDEO_MIME_TYPE, VIDEO_PAYLOAD_TYPE};

verus! {

/// The codecs that a peer connection may use.
#[verifier::external_type_specification]
#[verifier::external_body]
pub struct ExMediaEngine(webrtc::api::media_engine::MediaEngine);

/// A codec as it is registered with a media engine.
pub struct CodecView {
    /// The media type.
    pub mime_type: Seq<char>,
    /// The clock rate.
    pub clock_rate: u32,
    /// The number of channels; 0 where it does not apply.
    pub channels: u16,
    /// The format parameters.
    pub parameters: Seq<char>,
    /// The kinds of feedback, each with its parameter.
    pub feedback: Seq<(Seq<char>, Seq<char>)>,
    /// The payload type.
    pub payload_type: u8,
}

/// The video codecs that were registered with a media engine, in order.
pub uninterp spec fn video_codecs(engine: MediaEngine) -> Seq<CodecView>;

/// The audio codecs that were registered with a media engine, in order.
pub uninterp spec fn audio_codecs(engine: MediaEngine) -> Seq<CodecView>;

/// Codecs after one more was registered. A codec whose type and payload type are there already
/// changes nothing.
pub open spec fn with_codec(codecs: Seq<CodecView>, codec: CodecView) -> Seq<CodecView> {
    if exists|i: int|
        {
            &&& 0 <= i < codecs.len()
            &&& (#[trigger] codecs[i]).mime_type == codec.mime_type
            &&& codecs[i].payload_type == codec.payload_type
        } {
        codecs
    } else {
        codecs.push(codec)
    }
}

/// A codec without channels, format parameters or feedback.
pub open spec fn plain_codec(
    mime_type: Seq<char>,
    clock_rate: u32,
    payload_type: u8,
) -> CodecView {
    CodecView {
        mime_type,
        clock_rate,
        channels: 0,
        parameters: Seq::empty(),
        feedback: Seq::empty(),
        payload_type,
    }
}

/// The feedback of the default video codecs.
pub open spec fn default_feedback() -> Seq<(Seq<char>, Seq<char>)> {
    seq![
        ("goog-remb"@, Seq::empty()),
        ("ccm"@, "fir"@),
        ("nack"@, Seq::empty()),
        ("nack"@, "pli"@),
    ]
}

/// A video codec with the default clock rate and feedback.
pub open spec fn default_video_codec(
    mime_type: Seq<char>,
    parameters: Seq<char>,
    payload_type: u8,
) -> CodecView {
    CodecView {
        parameters,
        feedback: default_feedback(),
        ..plain_codec(mime_type, 90000, payload_type)
    }
}

/// The video codecs that are registered by default.
pub open spec fn default_video_codecs() -> Seq<CodecView> {
    seq![
        default_video_codec("video/VP8"@, Seq::empty(), 96),
        default_video_codec("video/VP9"@, "profile-id=0"@, 98),
        default_video_codec("video/VP9"@, "profile-id=1"@, 100),
        default_video_codec(
            "video/H264"@,
            "level-asymmetry-allowed=1;packetization-mode=1;profile-level-id=42001f"@,
            102,
        ),
        default_video_codec(
            "video/H264"@,
            "level-asymmetry-allowed=1;packetization-mode=0;profile-level-id=42001f"@,
            127,
        ),
        default_video_codec(
            "video/H264"@,
            "level-asymmetry-allowed=1;packetization-mode=1;profile-level-id=42e01f"@,
            125,
        ),
        default_video_codec(
            "video/H264"@,
            "level-asymmetry-allowed=1;packetization-mode=0;profile-level-id=42e01f"@,
            108,
        ),
        default_video_codec(
            "video/H264"@,
            "level-asymmetry-allowed=1;packetization-mode=1;profile-level-id=640032"@,
            123,
        ),
        default_video_codec("video/AV1"@, "profile-id=0"@, 41),
        default_video_codec("video/HEVC"@, Seq::empty(), 126),
        plain_codec("video/ulpfec"@, 90000, 116),
    ]
}

/// The audio codecs that are registered by default.
pub open spec fn default_audio_codecs() -> Seq<CodecView> {
    seq![
        CodecView {
            channels: 2,
            parameters: "minptime=10;useinbandfec=1"@,
            ..plain_codec("audio/opus"@, 48000, 111)
        },
        plain_codec("audio/G722"@, 8000, 9),
        plain_codec("audio/PCMU"@, 8000, 0),
        plain_codec("audio/PCMA"@, 8000, 8),
    ]
}

/// The codec of the server's video.
pub open spec fn server_codec() -> CodecView {
    plain_codec(VIDEO_MIME_TYPE@, VIDEO_CLOCK_RATE, VIDEO_PAYLOAD_TYPE)
}

/// Whether two codecs carry the same media under the same payload type.
pub open spec fn same_media(one: CodecView, other: CodecView) -> bool {
    &&& one.mime_type == other.mime_type
    &&& one.clock_rate == other.clock_rate
    &&& one.channels == other.channels
    &&& one.payload_type == other.payload_type
}

/// Calls `webrtc::api::media_engine::MediaEngine::default`: no codec is registered.
#[verifier::external_body]
fn empty_engine() -> (r: MediaEngine)
    ensures
        video_codecs(r) == Seq::<CodecView>::empty(),
        audio_codecs(r) == Seq::<CodecView>::empty(),
{
    MediaEngine::default()
}

/// Calls `webrtc::api::media_engine::MediaEngine::register_codec` for a video codec without
/// further parameters. It succeeds and adds the codec behind the other video codecs, unless one of
/// the same type and payload type is there. The audio codecs stay. (It also stamps the codec with
/// an identifier made from the clock, of which nothing is said.)
#[verifier::external_body]
fn register_video_codec(
    engine: &mut MediaEngine,
    mime_type: &str,
    clock_rate: u32,
    payload_type: u8,
) -> (r: Result<(), webrtc::Error>)
    ensures
        r is Ok,
        video_codecs(*final(engine)) == with_codec(
            video_codecs(*old(engine)),
            plain_codec(mime_type@, clock_rate, payload_type),
        ),
        audio_codecs(*final(engine)) == audio_codecs(*old(engine)),
{
    let capability = webrtc::rtp_transceiver::rtp_codec::RTCRtpCodecCapability {
        mime_type: mime_type.to_owned(), clock_rate, ..Default::default()
    };
    let codec = webrtc::rtp_transceiver::rtp_codec::RTCRtpCodecParameters {
        capability, payload_type, ..Default::default()
    };
    engine.register_codec(codec, webrtc::rtp_transceiver::rtp_codec::RTPCodecType::Video)
}

/// Calls `webrtc::api::media_engine::MediaEngine::register_default_codecs` on an engine without
/// codecs. It succeeds and registers the default ones. (It also stamps each with an identifier
/// made from the clock, of which nothing is said.)
#[verifier::external_body]
fn register_default_codecs(engine: &mut MediaEngine) -> (r: Result<(), webrtc::Error>)
    requires
        video_codecs(*old(engine)).len() == 0,
        audio_codecs(*old(engine)).len() == 0,
    ensures
        r is Ok,
        video_codecs(*final(engine)) == default_video_codecs(),
        audio_codecs(*final(engine)) == default_audio_codecs(),
{
    engine.register_default_codecs()
}

/// Makes the media engine of the server: it knows the codec of its video and no other.
pub fn server_media_engine() -> (r: MediaEngine)
    ensures
        video_codecs(r) == seq![server_codec()],
        video_codecs(r).len() == 1,
        video_codecs(r)[0].mime_type == "video/VP8"@,
        video_codecs(r)[0].clock_rate == 90000,
        video_codecs(r)[0].payload_type == 96,
        audio_codecs(r).len() == 0,
{
    let mut engine = empty_engine();
    let registered = register_video_codec(
        &mut engine,
        VIDEO_MIME_TYPE,
        VIDEO_CLOCK_RATE,
        VIDEO_PAYLOAD_TYPE,
    );
    assert(registered is Ok);
    assert(video_codecs(engine) =~= seq![server_codec()]);
    engine
}

/// Makes the media engine of the client: it knows the default codecs, and so the media of the
/// server's video under the same payload type.
pub fn client_media_engine() -> (r: MediaEngine)
    ensures
        video_codecs(r) == default_video_codecs(),
        audio_codecs(r) == default_audio_codecs(),
        exists|i: int|
            0 <= i < video_codecs(r).len() && same_media(
                #[trigger] video_codecs(r)[i],
                server_codec(),
            ),
{
    let mut engine = empty_engine();
    let registered = register_default_codecs(&mut engine);
    assert(registered is Ok);
    assert(same_media(video_codecs(engine)[0], server_codec()));
    engine
}

} // verus!
