use webrtc::api::media_engine::MediaEngine;
use webrtc::api::APIBuilder;
use webrtc::peer_connection::sdp::session_description::RTCSessionDescription;
use webrtc::peer_connection::RTCPeerConnection;
use webrtc::rtp_transceiver::rtp_codec::RTPCodecType;
use webrtc_video::client_session::{self, ClientAction, ClientEvent, ClientState};
use webrtc_video::media::{client_media_engine, server_media_engine};
use webrtc_video::server_session::{self, ServerAction, ServerEvent, ServerState};

fn run<T>(work: impl std::future::Future<Output = T>) -> T {
    tokio::runtime::Runtime::new().unwrap().block_on(work)
}

async fn peer(engine: MediaEngine) -> RTCPeerConnection {
    let api = APIBuilder::new().with_media_engine(engine).build();
    api.new_peer_connection(Default::default()).await.unwrap()
}

fn offered(engine: MediaEngine, kind: RTPCodecType, attribute: &str) -> Vec<String> {
    run(async {
        let pc = peer(engine).await;
        pc.add_transceiver_from_kind(kind, None).await.unwrap();
        let offer = pc.create_offer(None).await.unwrap();
        pc.close().await.unwrap();
        offer
            .sdp
            .lines()
            .filter_map(|line| line.strip_prefix(attribute))
            .map(|value| value.trim_end().to_string())
            .collect()
    })
}

fn offered_codecs(engine: MediaEngine) -> Vec<String> {
    offered(engine, RTPCodecType::Video, "a=rtpmap:")
}

#[test]
fn server_offers_its_codec() {
    assert_eq!(offered_codecs(server_media_engine()), ["96 VP8/90000"]);
}

#[test]
fn client_knows_the_default_codecs() {
    assert_eq!(
        offered_codecs(client_media_engine()),
        [
            "96 VP8/90000",
            "98 VP9/90000",
            "100 VP9/90000",
            "102 H264/90000",
            "127 H264/90000",
            "125 H264/90000",
            "108 H264/90000",
            "123 H264/90000",
            "41 AV1/90000",
            "126 HEVC/90000",
            "116 ulpfec/90000",
        ]
    );
}

#[test]
fn server_offers_no_parameters() {
    assert!(offered(server_media_engine(), RTPCodecType::Video, "a=fmtp:").is_empty());
    assert!(offered(server_media_engine(), RTPCodecType::Video, "a=rtcp-fb:").is_empty());
}

#[test]
fn server_knows_no_audio_codec() {
    run(async {
        let pc = peer(server_media_engine()).await;
        let added = pc.add_transceiver_from_kind(RTPCodecType::Audio, None).await;
        assert!(matches!(added, Err(webrtc::Error::ErrNoCodecsAvailable)));
        pc.close().await.unwrap();
    });
}

#[test]
fn client_knows_the_default_parameters() {
    assert_eq!(
        offered(client_media_engine(), RTPCodecType::Video, "a=fmtp:"),
        [
            "98 profile-id=0",
            "100 profile-id=1",
            "102 level-asymmetry-allowed=1;packetization-mode=1;profile-level-id=42001f",
            "127 level-asymmetry-allowed=1;packetization-mode=0;profile-level-id=42001f",
            "125 level-asymmetry-allowed=1;packetization-mode=1;profile-level-id=42e01f",
            "108 level-asymmetry-allowed=1;packetization-mode=0;profile-level-id=42e01f",
            "123 level-asymmetry-allowed=1;packetization-mode=1;profile-level-id=640032",
            "41 profile-id=0",
        ]
    );
    let mut expected = Vec::new();
    for payload_type in [96, 98, 100, 102, 127, 125, 108, 123, 41, 126] {
        for feedback in ["goog-remb", "ccm fir", "nack", "nack pli"] {
            expected.push(format!("{payload_type} {feedback}"));
        }
    }
    assert_eq!(offered(client_media_engine(), RTPCodecType::Video, "a=rtcp-fb:"), expected);
}

#[test]
fn client_knows_the_default_audio_codecs() {
    assert_eq!(
        offered(client_media_engine(), RTPCodecType::Audio, "a=rtpmap:"),
        ["111 opus/48000/2", "9 G722/8000", "0 PCMU/8000", "8 PCMA/8000"]
    );
    assert_eq!(
        offered(client_media_engine(), RTPCodecType::Audio, "a=fmtp:"),
        ["111 minptime=10;useinbandfec=1"]
    );
    assert!(offered(client_media_engine(), RTPCodecType::Audio, "a=rtcp-fb:").is_empty());
}

/// Performs server actions until a message is to be read or the exchange is over.
async fn drive_server(
    pc: &RTCPeerConnection,
    from: (ServerState, ServerAction),
    sent: &mut Vec<String>,
) -> (ServerState, ServerAction) {
    let mut made: Option<RTCSessionDescription> = None;
    let (mut state, mut action) = from;
    loop {
        let event = match action {
            ServerAction::CreateOffer => {
                let offer = pc.create_offer(None).await.unwrap();
                let sdp = offer.sdp.clone();
                made = Some(offer);
                ServerEvent::OfferCreated(sdp)
            }
            ServerAction::SetLocalDescription => {
                pc.set_local_description(made.take().unwrap()).await.unwrap();
                ServerEvent::Done
            }
            ServerAction::SendText(text) => {
                sent.push(text);
                ServerEvent::Done
            }
            ServerAction::SetRemoteDescription(answer) => {
                pc.set_remote_description(answer).await.unwrap();
                ServerEvent::Done
            }
            other => return (state, other),
        };
        (state, action) = server_session::step(state, event);
    }
}

/// Performs client actions until a message is to be read or the exchange is over.
async fn drive_client(
    pc: &RTCPeerConnection,
    from: (ClientState, ClientAction),
    sent: &mut Vec<String>,
) -> (ClientState, ClientAction) {
    let mut made: Option<RTCSessionDescription> = None;
    let (mut state, mut action) = from;
    loop {
        let event = match action {
            ClientAction::SetRemoteDescription(offer) => {
                pc.set_remote_description(offer).await.unwrap();
                ClientEvent::Done
            }
            ClientAction::CreateAnswer => {
                let answer = pc.create_answer(None).await.unwrap();
                let sdp = answer.sdp.clone();
                made = Some(answer);
                ClientEvent::AnswerCreated(sdp)
            }
            ClientAction::SetLocalDescription => {
                pc.set_local_description(made.take().unwrap()).await.unwrap();
                ClientEvent::Done
            }
            ClientAction::SendText(text) => {
                sent.push(text);
                ClientEvent::Done
            }
            other => return (state, other),
        };
        (state, action) = client_session::step(state, event);
    }
}

#[test]
fn peer_connections_agree() {
    run(async {
        let server_pc = peer(server_media_engine()).await;
        server_pc.add_transceiver_from_kind(RTPCodecType::Video, None).await.unwrap();
        let client_pc = peer(client_media_engine()).await;
        let mut from_server = Vec::new();
        let mut from_client = Vec::new();

        let (server, action) =
            drive_server(&server_pc, server_session::start(), &mut from_server).await;
        assert!(matches!(action, ServerAction::ReadMessage));
        let (client, action) =
            drive_client(&client_pc, client_session::start(), &mut from_client).await;
        assert!(matches!(action, ClientAction::ReadMessage));
        assert_eq!((from_server.len(), from_client.len()), (1, 0));

        let heard = client_session::step(client, ClientEvent::Text(from_server.remove(0)));
        let (client, action) = drive_client(&client_pc, heard, &mut from_client).await;
        assert!(matches!(client, ClientState::Listening));
        assert!(matches!(action, ClientAction::ReadMessage));
        assert_eq!(from_client.len(), 1);

        let heard = server_session::step(server, ServerEvent::Text(from_client.remove(0)));
        let (server, action) = drive_server(&server_pc, heard, &mut from_server).await;
        assert!(matches!(server, ServerState::Negotiated));
        assert!(matches!(action, ServerAction::Close));

        assert!(client_pc.remote_description().await.unwrap().sdp.contains("VP8/90000"));
        assert!(server_pc.remote_description().await.unwrap().sdp.contains("VP8/90000"));
        server_pc.close().await.unwrap();
        client_pc.close().await.unwrap();
    });
}
