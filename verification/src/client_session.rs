//! The client's side of the negotiation, as a state machine.
//!
//! The machine decides; whoever drives it performs each [`ClientAction`] and reports back with a
//! [`ClientEvent`].
use vstd::prelude::*;
use webrtc::peer_connection::sdp::session_description::RTCSessionDescription;

use crate::json::{parsed, printed, Json};
use crate::session::{describe_offer, offer_description, SessionFault};
use crate::signal::{
    answer_json, answer_message, client_reading, client_signal, fields_of,
    law_answers_are_read_as_they_stand, law_candidates_are_read_as_they_stand,
    law_offers_are_read_as_they_stand, law_other_kinds_are_passed_over,
    law_session_messages_carry_their_session, read_fields, CandidateView, ClientReading,
    ClientSignal, IceCandidateInit, SignalError, SignalFields,
};

verus! {

/// Where the client stands.
#[derive(Debug)]
pub enum ClientState {
    /// Waits for a message.
    Listening,
    /// Has handed an offer to the peer connection.
    ApplyingOffer,
    /// Has asked the peer connection for an answer.
    CreatingAnswer,
    /// Has handed its answer, of this text, to the peer connection.
    ApplyingAnswer(String),
    /// Has handed its answer to the WebSocket.
    SendingAnswer,
    /// Has handed a candidate to the peer connection.
    AddingCandidate,
    /// The server ended the exchange.
    Closed,
    /// The client gave up.
    Failed,
}

/// What happened.
#[derive(Debug)]
pub enum ClientEvent {
    /// A text message came.
    Text(String),
    /// A message came that is no text.
    OtherMessage,
    /// No further message can be read.
    StreamEnded,
    /// The last action was done.
    Done,
    /// The peer connection made an answer of this text.
    AnswerCreated(String),
    /// The last action failed.
    ActionFailed,
}

/// What to do next.
pub enum ClientAction {
    /// Read the next message.
    ReadMessage,
    /// Hand the description to the peer connection as the remote one.
    SetRemoteDescription(RTCSessionDescription),
    /// Ask the peer connection for an answer.
    CreateAnswer,
    /// Hand the answer just made to the peer connection as the local description.
    SetLocalDescription,
    /// Send the text over the WebSocket.
    SendText(String),
    /// Hand the candidate to the peer connection.
    AddIceCandidate(IceCandidateInit),
    /// Stop: the exchange is over.
    Close,
    /// Stop: the exchange cannot go on.
    Abort(SessionFault),
}

/// The mathematical value of a [`ClientState`].
pub enum ClientStateView {
    Listening,
    ApplyingOffer,
    CreatingAnswer,
    ApplyingAnswer(Seq<char>),
    SendingAnswer,
    AddingCandidate,
    Closed,
    Failed,
}

/// The mathematical value of a [`ClientEvent`]. A text counts by the JSON value read from it.
pub enum ClientEventView {
    Text(Option<Json>),
    OtherMessage,
    StreamEnded,
    Done,
    AnswerCreated(Seq<char>),
    ActionFailed,
}

/// The mathematical value of a [`ClientAction`].
pub enum ClientActionView {
    ReadMessage,
    SetRemoteDescription(RTCSessionDescription),
    CreateAnswer,
    SetLocalDescription,
    SendText(Seq<char>),
    AddIceCandidate(CandidateView),
    Close,
    Abort(SessionFault),
}

impl View for ClientState {
    type V = ClientStateView;

    open spec fn view(&self) -> ClientStateView {
        match self {
            ClientState::Listening => ClientStateView::Listening,
            ClientState::ApplyingOffer => ClientStateView::ApplyingOffer,
            ClientState::CreatingAnswer => ClientStateView::CreatingAnswer,
            ClientState::ApplyingAnswer(sdp) => ClientStateView::ApplyingAnswer(sdp@),
            ClientState::SendingAnswer => ClientStateView::SendingAnswer,
            ClientState::AddingCandidate => ClientStateView::AddingCandidate,
            ClientState::Closed => ClientStateView::Closed,
            ClientState::Failed => ClientStateView::Failed,
        }
    }
}

impl View for ClientEvent {
    type V = ClientEventView;

    open spec fn view(&self) -> ClientEventView {
        match self {
            ClientEvent::Text(text) => ClientEventView::Text(parsed(text@)),
            ClientEvent::OtherMessage => ClientEventView::OtherMessage,
            ClientEvent::StreamEnded => ClientEventView::StreamEnded,
            ClientEvent::Done => ClientEventView::Done,
            ClientEvent::AnswerCreated(sdp) => ClientEventView::AnswerCreated(sdp@),
            ClientEvent::ActionFailed => ClientEventView::ActionFailed,
        }
    }
}

impl View for ClientAction {
    type V = ClientActionView;

    open spec fn view(&self) -> ClientActionView {
        match self {
            ClientAction::ReadMessage => ClientActionView::ReadMessage,
            ClientAction::SetRemoteDescription(d) => ClientActionView::SetRemoteDescription(*d),
            ClientAction::CreateAnswer => ClientActionView::CreateAnswer,
            ClientAction::SetLocalDescription => ClientActionView::SetLocalDescription,
            ClientAction::SendText(text) => ClientActionView::SendText(text@),
            ClientAction::AddIceCandidate(c) => ClientActionView::AddIceCandidate(c@),
            ClientAction::Close => ClientActionView::Close,
            ClientAction::Abort(fault) => ClientActionView::Abort(*fault),
        }
    }
}

/// Whether an event can happen in a state: messages while listening, the outcome of an action
/// after it, nothing once the exchange is over.
pub open spec fn client_expects(state: ClientStateView, event: ClientEventView) -> bool {
    match state {
        ClientStateView::Listening => event is Text || event is OtherMessage
            || event is StreamEnded,
        ClientStateView::CreatingAnswer => event is AnswerCreated || event is ActionFailed,
        ClientStateView::Closed | ClientStateView::Failed => false,
        _ => event is Done || event is ActionFailed,
    }
}

/// The end of an exchange that cannot go on.
pub open spec fn client_gives_up(fault: SessionFault) -> (ClientStateView, ClientActionView) {
    (ClientStateView::Failed, ClientActionView::Abort(fault))
}

/// What the client does about an offer, given what the outside crate makes of its session.
pub open spec fn client_takes_offer(description: Option<RTCSessionDescription>) -> (
    ClientStateView,
    ClientActionView,
) {
    match description {
        Some(d) => (
            ClientStateView::ApplyingOffer,
            ClientActionView::SetRemoteDescription(d),
        ),
        None => client_gives_up(SessionFault::Signal(SignalError::InvalidSdp)),
    }
}

/// What the client does about a message.
pub open spec fn client_takes_message(reading: ClientReading) -> (
    ClientStateView,
    ClientActionView,
) {
    match reading {
        ClientReading::Offer(sdp) => client_takes_offer(offer_description(sdp)),
        ClientReading::OfferWithoutSdp => client_gives_up(
            SessionFault::Signal(SignalError::MissingSdp),
        ),
        ClientReading::Candidate(candidate) => (
            ClientStateView::AddingCandidate,
            ClientActionView::AddIceCandidate(candidate),
        ),
        ClientReading::Ignored => (ClientStateView::Listening, ClientActionView::ReadMessage),
    }
}

/// The next state and action, for an event that can happen in the state.
pub open spec fn client_step(state: ClientStateView, event: ClientEventView) -> (
    ClientStateView,
    ClientActionView,
)
    recommends
        client_expects(state, event),
{
    match (state, event) {
        (_, ClientEventView::ActionFailed) => client_gives_up(SessionFault::ActionFailed),
        (ClientStateView::Listening, ClientEventView::Text(None)) => client_gives_up(
            SessionFault::Signal(SignalError::InvalidJson),
        ),
        (ClientStateView::Listening, ClientEventView::Text(Some(value))) => client_takes_message(
            client_reading(fields_of(value)),
        ),
        (ClientStateView::Listening, ClientEventView::StreamEnded) => (
            ClientStateView::Closed,
            ClientActionView::Close,
        ),
        (ClientStateView::ApplyingOffer, _) => (
            ClientStateView::CreatingAnswer,
            ClientActionView::CreateAnswer,
        ),
        (ClientStateView::CreatingAnswer, ClientEventView::AnswerCreated(sdp)) => (
            ClientStateView::ApplyingAnswer(sdp),
            ClientActionView::SetLocalDescription,
        ),
        (ClientStateView::ApplyingAnswer(sdp), _) => (
            ClientStateView::SendingAnswer,
            ClientActionView::SendText(printed(answer_json(sdp))),
        ),
        (_, _) => (ClientStateView::Listening, ClientActionView::ReadMessage),
    }
}

/// Stops the exchange because of `fault`.
fn give_up(fault: SessionFault) -> (r: (ClientState, ClientAction))
    ensures
        (r.0@, r.1@) == client_gives_up(fault),
{
    (ClientState::Failed, ClientAction::Abort(fault))
}

/// Takes the session of an offer, as the outside crate described it, to the peer connection.
pub fn take_offer(described: Result<RTCSessionDescription, webrtc::Error>) -> (r: (
    ClientState,
    ClientAction,
))
    ensures
        (r.0@, r.1@) == client_takes_offer(
            match described {
                Ok(description) => Some(description),
                Err(_) => None,
            },
        ),
        match described {
            Ok(description) => r.0 is ApplyingOffer && r.1 == ClientAction::SetRemoteDescription(
                description,
            ),
            Err(_) => r.0 is Failed && r.1 == ClientAction::Abort(
                SessionFault::Signal(SignalError::InvalidSdp),
            ),
        },
{
    match described {
        Ok(description) => (
            ClientState::ApplyingOffer,
            ClientAction::SetRemoteDescription(description),
        ),
        Err(_) => give_up(SessionFault::Signal(SignalError::InvalidSdp)),
    }
}

/// Acts on a message of which the fields are known.
pub fn take_fields(fields: SignalFields) -> (r: (ClientState, ClientAction))
    ensures
        (r.0@, r.1@) == client_takes_message(client_reading(fields@)),
{
    match client_signal(fields) {
        Ok(ClientSignal::Offer(sdp)) => take_offer(describe_offer(sdp)),
        Ok(ClientSignal::Candidate(candidate)) => (
            ClientState::AddingCandidate,
            ClientAction::AddIceCandidate(candidate),
        ),
        Ok(ClientSignal::Ignored) => (ClientState::Listening, ClientAction::ReadMessage),
        Err(error) => give_up(SessionFault::Signal(error)),
    }
}

/// Starts to listen.
pub fn start() -> (r: (ClientState, ClientAction))
    ensures
        r.0@ == ClientStateView::Listening,
        r.1@ == ClientActionView::ReadMessage,
        r.0 is Listening,
        r.1 is ReadMessage,
{
    (ClientState::Listening, ClientAction::ReadMessage)
}

/// Takes the client from one state to the next. The answer that it sends reads back as an answer
/// of the same session.
pub fn step(state: ClientState, event: ClientEvent) -> (r: (ClientState, ClientAction))
    requires
        client_expects(state@, event@),
    ensures
        (r.0@, r.1@) == client_step(state@, event@),
        r.1 matches ClientAction::SendText(text) ==> state@ matches ClientStateView::ApplyingAnswer(
            sdp,
        ) && parsed(text@) == Some(answer_json(sdp)),
        event matches ClientEvent::Text(text) ==> (match parsed(text@) {
            Some(value) => {
                let kind = value.member("type"@).text();
                let line = value.member("candidate"@).text();
                if kind == Some("offer"@) {
                    match value.member("sdp"@).text() {
                        Some(sdp) => match offer_description(sdp) {
                            Some(description) => r.0 is ApplyingOffer && r.1
                                == ClientAction::SetRemoteDescription(description),
                            None => r.0 is Failed && r.1 == ClientAction::Abort(
                                SessionFault::Signal(SignalError::InvalidSdp),
                            ),
                        },
                        None => r.0 is Failed && r.1 == ClientAction::Abort(
                            SessionFault::Signal(SignalError::MissingSdp),
                        ),
                    }
                } else if kind == Some("candidate"@) && line is Some {
                    r.0 is AddingCandidate && r.1 is AddIceCandidate && {
                        let read = r.1->AddIceCandidate_0;
                        &&& read.candidate@ == line->0
                        &&& match read.sdp_mid {
                            Some(mid) => value.member("sdpMid"@) == Json::Text(mid@),
                            None => !(value.member("sdpMid"@) is Text),
                        }
                        &&& match value.member("sdpMLineIndex"@).unsigned() {
                            Some(n) => read.sdp_mline_index is Some && read.sdp_mline_index->0 == n
                                % 0x1_0000,
                            None => read.sdp_mline_index is None,
                        }
                        &&& read.username_fragment is None
                    }
                } else {
                    r.0 is Listening && r.1 is ReadMessage
                }
            },
            None => r.0 is Failed && r.1 == ClientAction::Abort(
                SessionFault::Signal(SignalError::InvalidJson),
            ),
        }),
        state is Listening && event is OtherMessage ==> r.0 is Listening && r.1 is ReadMessage,
        state is Listening && event is StreamEnded ==> r.0 is Closed && r.1 is Close,
        state is ApplyingOffer && event is Done ==> r.0 is CreatingAnswer && r.1 is CreateAnswer,
        event matches ClientEvent::AnswerCreated(sdp) ==> r.0
            == ClientState::ApplyingAnswer(sdp) && r.1 is SetLocalDescription,
        state matches ClientState::ApplyingAnswer(sdp) ==> (event is Done ==> r.0 is SendingAnswer
            && r.1 is SendText && (parsed(r.1->SendText_0@) matches Some(value) && value.member(
            "type"@,
        ) == Json::Text("answer"@) && value.member("sdp"@) == Json::Text(sdp@))),
        (state is SendingAnswer || state is AddingCandidate) && event is Done ==> r.0 is Listening
            && r.1 is ReadMessage,
        event is ActionFailed ==> r.0 is Failed && r.1 == ClientAction::Abort(
            SessionFault::ActionFailed,
        ),
{
    proof {
        if state is ApplyingAnswer {
            law_session_messages_carry_their_session(state->ApplyingAnswer_0@);
        }
        if event is Text && parsed(event->Text_0@) is Some {
            law_client_acts_on_messages(parsed(event->Text_0@)->0);
        }
    }
    match event {
        ClientEvent::ActionFailed => give_up(SessionFault::ActionFailed),
        ClientEvent::StreamEnded => (ClientState::Closed, ClientAction::Close),
        ClientEvent::OtherMessage => (ClientState::Listening, ClientAction::ReadMessage),
        ClientEvent::Text(text) => match read_fields(text.as_str()) {
            Ok(fields) => take_fields(fields),
            Err(error) => give_up(SessionFault::Signal(error)),
        },
        ClientEvent::AnswerCreated(sdp) => (
            ClientState::ApplyingAnswer(sdp),
            ClientAction::SetLocalDescription,
        ),
        ClientEvent::Done => match state {
            ClientState::ApplyingOffer => (
                ClientState::CreatingAnswer,
                ClientAction::CreateAnswer,
            ),
            ClientState::ApplyingAnswer(sdp) => (
                ClientState::SendingAnswer,
                ClientAction::SendText(answer_message(sdp.as_str())),
            ),
            _ => (ClientState::Listening, ClientAction::ReadMessage),
        },
    }
}

/// What a message does to a client that listens, by what stands in it. The session under `sdp` of
/// an offer goes to the peer connection as it stands, and so do the texts under `candidate` and
/// `sdpMid` of a candidate. An offer whose session is missing or does not parse is the end.
/// Everything else is passed over.
pub proof fn law_client_acts_on_messages(value: Json)
    ensures
        ({
            let kind = value.member("type"@).text();
            let line = value.member("candidate"@).text();
            let next = client_step(
                ClientStateView::Listening,
                ClientEventView::Text(Some(value)),
            );
            if kind == Some("offer"@) {
                match value.member("sdp"@).text() {
                    Some(sdp) => match offer_description(sdp) {
                        Some(description) => next.0 is ApplyingOffer && next.1
                            == ClientActionView::SetRemoteDescription(description),
                        None => next.0 is Failed && next.1 == ClientActionView::Abort(
                            SessionFault::Signal(SignalError::InvalidSdp),
                        ),
                    },
                    None => next.0 is Failed && next.1 == ClientActionView::Abort(
                        SessionFault::Signal(SignalError::MissingSdp),
                    ),
                }
            } else if kind == Some("candidate"@) && line is Some {
                next.0 is AddingCandidate && (next.1 matches ClientActionView::AddIceCandidate(read)
                    && {
                    &&& read.candidate == line->0
                    &&& read.sdp_mid == value.member("sdpMid"@).text()
                    &&& match value.member("sdpMLineIndex"@).unsigned() {
                        Some(n) => read.sdp_mline_index is Some && read.sdp_mline_index->0 == n
                            % 0x1_0000,
                        None => read.sdp_mline_index is None,
                    }
                    &&& read.username_fragment is None
                })
            } else {
                next.0 is Listening && next.1 is ReadMessage
            }
        }),
{
    let kind = value.member("type"@).text();
    if kind == Some("offer"@) {
        law_offers_are_read_as_they_stand(value);
    } else if kind == Some("candidate"@) {
        law_candidates_are_read_as_they_stand(value);
    } else if kind == Some("answer"@) {
        law_answers_are_read_as_they_stand(value);
    } else {
        law_other_kinds_are_passed_over(value);
    }
}

/// Once an offer is applied the client asks for an answer, and what its peer connection then makes
/// is what it sends: an object of two members, its kind and the session as it was made. Then it
/// listens again.
pub proof fn law_client_sends_the_answer_it_was_given(sdp: Seq<char>)
    ensures
        ({
            let asked = client_step(ClientStateView::ApplyingOffer, ClientEventView::Done);
            let made = client_step(asked.0, ClientEventView::AnswerCreated(sdp));
            let sent = client_step(made.0, ClientEventView::Done);
            let listens = client_step(sent.0, ClientEventView::Done);
            &&& asked.1 is CreateAnswer
            &&& made.1 is SetLocalDescription
            &&& sent.1 == ClientActionView::SendText(
                printed(
                    Json::Object(map!["type"@ => Json::Text("answer"@), "sdp"@ => Json::Text(sdp)]),
                ),
            )
            &&& listens.0 is Listening
            &&& listens.1 is ReadMessage
        }),
{
}

/// The client can be told of any message while it listens, of an answer while it waits for one,
/// and of the success or failure of any other action; of nothing once the exchange is over.
pub proof fn law_what_a_client_can_be_told(state: ClientStateView, event: ClientEventView)
    ensures
        client_expects(state, event) <==> match event {
            ClientEventView::Text(_)
            | ClientEventView::OtherMessage
            | ClientEventView::StreamEnded => state is Listening,
            ClientEventView::AnswerCreated(_) => state is CreatingAnswer,
            ClientEventView::Done => state is ApplyingOffer || state is ApplyingAnswer
                || state is SendingAnswer || state is AddingCandidate,
            ClientEventView::ActionFailed => !(state is Listening || state is Closed
                || state is Failed),
        },
{
}

} // verus!
