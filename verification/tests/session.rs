use webrtc::peer_connection::sdp::sdp_type::RTCSdpType;
use webrtc_video::client_session::{self, ClientAction, ClientEvent, ClientState};
use webrtc_video::server_session::{self, ServerAction, ServerEvent, ServerState};
use webrtc_video::session::SessionFault;
use webrtc_video::signal::{answer_message, offer_message, SignalError};

const OFFER: &str = "v=0\r\no=- 1 2 IN IP4 127.0.0.1\r\ns=-\r\nt=0 0\r\n";
const ANSWER: &str = "v=0\r\no=- 3 4 IN IP4 127.0.0.1\r\ns=-\r\nt=0 0\r\n";

fn awaiting_server() -> ServerState {
    ServerState::AwaitingAnswer
}

fn hear(text: &str) -> (ClientState, ClientAction) {
    client_session::step(ClientState::Listening, ClientEvent::Text(text.to_string()))
}

fn answer(text: &str) -> (ServerState, ServerAction) {
    server_session::step(awaiting_server(), ServerEvent::Text(text.to_string()))
}

#[test]
fn negotiation_completes() {
    let (server, action) = server_session::start();
    assert!(matches!(action, ServerAction::CreateOffer));
    let (server, action) =
        server_session::step(server, ServerEvent::OfferCreated(OFFER.to_string()));
    assert!(matches!(action, ServerAction::SetLocalDescription));
    let (server, action) = server_session::step(server, ServerEvent::Done);
    let ServerAction::SendText(offer_text) = action else { panic!() };
    let (server, action) = server_session::step(server, ServerEvent::Done);
    assert!(matches!(action, ServerAction::ReadMessage));

    let (client, action) = client_session::start();
    assert!(matches!(action, ClientAction::ReadMessage));
    let (client, action) = client_session::step(client, ClientEvent::Text(offer_text));
    let ClientAction::SetRemoteDescription(offer) = action else { panic!() };
    assert_eq!(offer.sdp, OFFER);
    assert_eq!(offer.sdp_type, RTCSdpType::Offer);
    let (client, action) = client_session::step(client, ClientEvent::Done);
    assert!(matches!(action, ClientAction::CreateAnswer));
    let (client, action) =
        client_session::step(client, ClientEvent::AnswerCreated(ANSWER.to_string()));
    assert!(matches!(action, ClientAction::SetLocalDescription));
    let (client, action) = client_session::step(client, ClientEvent::Done);
    let ClientAction::SendText(answer_text) = action else { panic!() };
    let (client, action) = client_session::step(client, ClientEvent::Done);
    assert!(matches!(client, ClientState::Listening));
    assert!(matches!(action, ClientAction::ReadMessage));

    let (server, action) = server_session::step(server, ServerEvent::Text(answer_text));
    let ServerAction::SetRemoteDescription(answer) = action else { panic!() };
    assert_eq!(answer.sdp, ANSWER);
    assert_eq!(answer.sdp_type, RTCSdpType::Answer);
    let (server, action) = server_session::step(server, ServerEvent::Done);
    assert!(matches!(server, ServerState::Negotiated));
    assert!(matches!(action, ServerAction::Close));
}

#[test]
fn client_adds_candidates() {
    let (client, action) = hear("{\"type\":\"candidate\",\"candidate\":\"c\",\"sdpMid\":\"m\"}");
    let ClientAction::AddIceCandidate(candidate) = action else { panic!() };
    assert_eq!(candidate.candidate, "c");
    assert_eq!(candidate.sdp_mid.as_deref(), Some("m"));
    let (client, action) = client_session::step(client, ClientEvent::Done);
    assert!(matches!(client, ClientState::Listening));
    assert!(matches!(action, ClientAction::ReadMessage));
}

#[test]
fn client_passes_over_stray_messages() {
    for text in [answer_message(ANSWER).as_str(), "{}", "{\"type\":\"candidate\"}"] {
        let (client, action) = hear(text);
        assert!(matches!(client, ClientState::Listening));
        assert!(matches!(action, ClientAction::ReadMessage));
    }
    let (client, action) = client_session::step(ClientState::Listening, ClientEvent::OtherMessage);
    assert!(matches!(client, ClientState::Listening));
    assert!(matches!(action, ClientAction::ReadMessage));
}

#[test]
fn server_passes_over_stray_messages() {
    for text in [offer_message(OFFER).as_str(), "[]", "{\"type\":\"candidate\",\"candidate\":\"c\"}"] {
        let (server, action) = answer(text);
        assert!(matches!(server, ServerState::AwaitingAnswer));
        assert!(matches!(action, ServerAction::ReadMessage));
    }
    let (server, action) = server_session::step(awaiting_server(), ServerEvent::OtherMessage);
    assert!(matches!(server, ServerState::AwaitingAnswer));
    assert!(matches!(action, ServerAction::ReadMessage));
}

#[test]
fn client_gives_up_on_bad_messages() {
    for (text, error) in [
        ("{", SignalError::InvalidJson),
        ("{\"type\":\"offer\"}", SignalError::MissingSdp),
        ("{\"type\":\"offer\",\"sdp\":\"x\"}", SignalError::InvalidSdp),
    ] {
        let (client, action) = hear(text);
        assert!(matches!(client, ClientState::Failed));
        let ClientAction::Abort(fault) = action else { panic!() };
        assert_eq!(fault, SessionFault::Signal(error));
    }
}

#[test]
fn server_gives_up_on_bad_messages() {
    for (text, error) in [
        ("{", SignalError::InvalidJson),
        ("{\"type\":\"answer\"}", SignalError::MissingSdp),
        ("{\"type\":\"answer\",\"sdp\":\"x\"}", SignalError::InvalidSdp),
    ] {
        let (server, action) = answer(text);
        assert!(matches!(server, ServerState::Failed));
        let ServerAction::Abort(fault) = action else { panic!() };
        assert_eq!(fault, SessionFault::Signal(error));
    }
}

#[test]
fn failed_actions_end_the_session() {
    for client in [
        ClientState::ApplyingOffer,
        ClientState::CreatingAnswer,
        ClientState::ApplyingAnswer(String::new()),
        ClientState::SendingAnswer,
        ClientState::AddingCandidate,
    ] {
        let (client, action) = client_session::step(client, ClientEvent::ActionFailed);
        assert!(matches!(client, ClientState::Failed));
        assert!(matches!(action, ClientAction::Abort(SessionFault::ActionFailed)));
    }
    for server in [
        ServerState::CreatingOffer,
        ServerState::ApplyingOffer(String::new()),
        ServerState::SendingOffer,
        ServerState::ApplyingAnswer,
    ] {
        let (server, action) = server_session::step(server, ServerEvent::ActionFailed);
        assert!(matches!(server, ServerState::Failed));
        assert!(matches!(action, ServerAction::Abort(SessionFault::ActionFailed)));
    }
}

#[test]
fn sessions_close_with_their_stream() {
    let (client, action) = client_session::step(ClientState::Listening, ClientEvent::StreamEnded);
    assert!(matches!(client, ClientState::Closed));
    assert!(matches!(action, ClientAction::Close));
    let (server, action) = server_session::step(awaiting_server(), ServerEvent::StreamEnded);
    assert!(matches!(server, ServerState::Closed));
    assert!(matches!(action, ServerAction::Close));
}

#[test]
fn client_answers_a_second_offer() {
    let (_, action) = hear(&offer_message(OFFER));
    assert!(matches!(action, ClientAction::SetRemoteDescription(_)));
    let mut state = ClientState::Listening;
    let mut sent = 0;
    for _ in 0..2 {
        for event in [
            ClientEvent::Text(offer_message(OFFER)),
            ClientEvent::Done,
            ClientEvent::AnswerCreated(ANSWER.to_string()),
            ClientEvent::Done,
            ClientEvent::Done,
        ] {
            let (next, action) = client_session::step(state, event);
            if let ClientAction::SendText(text) = action {
                assert_eq!(text, answer_message(ANSWER));
                sent += 1;
            }
            state = next;
        }
        assert!(matches!(state, ClientState::Listening));
    }
    assert_eq!(sent, 2);
}

#[test]
fn client_takes_messages_in_order() {
    let mut state = ClientState::Listening;
    let (mut applied, mut sent, mut added) = (Vec::new(), Vec::new(), Vec::new());
    for event in [
        ClientEvent::Text("{\"type\":\"candidate\",\"candidate\":\"a\"}".to_string()),
        ClientEvent::Done,
        ClientEvent::Text(offer_message(OFFER)),
        ClientEvent::Done,
        ClientEvent::AnswerCreated("first".to_string()),
        ClientEvent::Done,
        ClientEvent::Done,
        ClientEvent::OtherMessage,
        ClientEvent::Text(answer_message("stray")),
        ClientEvent::Text("{\"type\":\"candidate\",\"candidate\":\"b\"}".to_string()),
        ClientEvent::Done,
        ClientEvent::Text(offer_message(ANSWER)),
        ClientEvent::Done,
        ClientEvent::AnswerCreated("second".to_string()),
        ClientEvent::Done,
        ClientEvent::Done,
        ClientEvent::StreamEnded,
    ] {
        assert!(!matches!(state, ClientState::Closed | ClientState::Failed));
        let (next, action) = client_session::step(state, event);
        match action {
            ClientAction::SetRemoteDescription(description) => applied.push(description.sdp),
            ClientAction::SendText(text) => sent.push(text),
            ClientAction::AddIceCandidate(candidate) => added.push(candidate.candidate),
            _ => {}
        }
        state = next;
    }
    assert!(matches!(state, ClientState::Closed));
    assert_eq!(applied, [OFFER, ANSWER]);
    assert_eq!(sent, [answer_message("first"), answer_message("second")]);
    assert_eq!(added, ["a", "b"]);
}

#[test]
fn server_applies_the_first_answer() {
    let (mut state, _) = server_session::start();
    let (mut applied, mut sent) = (Vec::new(), Vec::new());
    for event in [
        ServerEvent::OfferCreated(OFFER.to_string()),
        ServerEvent::Done,
        ServerEvent::Done,
        ServerEvent::OtherMessage,
        ServerEvent::Text(offer_message(ANSWER)),
        ServerEvent::Text("{\"type\":\"candidate\",\"candidate\":\"c\"}".to_string()),
        ServerEvent::Text(answer_message(ANSWER)),
        ServerEvent::Done,
    ] {
        let (next, action) = server_session::step(state, event);
        match action {
            ServerAction::SetRemoteDescription(description) => applied.push(description.sdp),
            ServerAction::SendText(text) => sent.push(text),
            _ => {}
        }
        state = next;
    }
    assert!(matches!(state, ServerState::Negotiated));
    assert_eq!(sent, [offer_message(OFFER)]);
    assert_eq!(applied, [ANSWER]);
}
