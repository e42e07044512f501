//! The server's side of the negotiation with one client, as a state machine.
//!
//! The machine decides; whoever drives it performs each [`ServerAction`] and reports back with a
//! [`ServerEvent`].
use vstd::prelude::*;
use webrtc::peer_connection::sdp::session_description::RTCSessionDescription;

use crate::json::{parsed, printed, Json};
use crate::session::{answer_description, describe_answer, SessionFault};
use crate::signal::{
    fields_of, law_answers_are_read_as_they_stand, law_session_messages_carry_their_session,
    offer_json, offer_message, read_fields, server_reading, server_signal,
    ServerReading, ServerSignal, SignalError, SignalFields,
};

verus! {

/// Where the server stands.
#[derive(Debug)]
pub enum ServerState {
    /// Has asked the peer connection for an offer.
    CreatingOffer,
    /// Has handed its offer, of this text, to the peer connection.
    ApplyingOffer(String),
    /// Has handed its offer to the WebSocket.
    SendingOffer,
    /// Waits for the answer.
    AwaitingAnswer,
    /// Has handed the answer to the peer connection.
    ApplyingAnswer,
    /// Both sides agreed.
    Negotiated,
    /// The client went away without an answer.
    Closed,
    /// The server gave up.
    Failed,
}

/// What happened.
#[derive(Debug)]
pub enum ServerEvent {
    /// The peer connection made an offer of this text.
    OfferCreated(String),
    /// The last action was done.
    Done,
    /// A text message came.
    Text(String),
    /// A message came that is no text.
    OtherMessage,
    /// No further message can be read.
    StreamEnded,
    /// The last action failed.
    ActionFailed,
}

/// What to do next.
pub enum ServerAction {
    /// Ask the peer connection for an offer.
    CreateOffer,
    /// Hand the offer just made to the peer connection as the local description.
    SetLocalDescription,
    /// Send the text over the WebSocket.
    SendText(String),
    /// Read the next message.
    ReadMessage,
    /// Hand the description to the peer connection as the remote one.
    SetRemoteDescription(RTCSessionDescription),
    /// Stop: the exchange is over.
    Close,
    /// Stop: the exchange cannot go on.
    Abort(SessionFault),
}

/// The mathematical value of a [`ServerState`].
pub enum ServerStateView {
    CreatingOffer,
    ApplyingOffer(Seq<char>),
    SendingOffer,
    AwaitingAnswer,
    ApplyingAnswer,
    Negotiated,
    Closed,
    Failed,
}

/// The mathematical value of a [`ServerEvent`]. A text counts by the JSON value read from it.
pub enum ServerEventView {
    OfferCreated(Seq<char>),
    Done,
    Text(Option<Json>),
    OtherMessage,
    StreamEnded,
    ActionFailed,
}

/// The mathematical value of a [`ServerAction`].
pub enum ServerActionView {
    CreateOffer,
    SetLocalDescription,
    SendText(Seq<char>),
    ReadMessage,
    SetRemoteDescription(RTCSessionDescription),
    Close,
    Abort(SessionFault),
}

impl View for ServerState {
    type V = ServerStateView;

    open spec fn view(&self) -> ServerStateView {
        match self {
            ServerState::CreatingOffer => ServerStateView::CreatingOffer,
            ServerState::ApplyingOffer(sdp) => ServerStateView::ApplyingOffer(sdp@),
            ServerState::SendingOffer => ServerStateView::SendingOffer,
            ServerState::AwaitingAnswer => ServerStateView::AwaitingAnswer,
            ServerState::ApplyingAnswer => ServerStateView::ApplyingAnswer,
            ServerState::Negotiated => ServerStateView::Negotiated,
            ServerState::Closed => ServerStateView::Closed,
            ServerState::Failed => ServerStateView::Failed,
        }
    }
}

impl View for ServerEvent {
    type V = ServerEventView;

    open spec fn view(&self) -> ServerEventView {
        match self {
            ServerEvent::OfferCreated(sdp) => ServerEventView::OfferCreated(sdp@),
            ServerEvent::Done => ServerEventView::Done,
            ServerEvent::Text(text) => ServerEventView::Text(parsed(text@)),
            ServerEvent::OtherMessage => ServerEventView::OtherMessage,
            ServerEvent::StreamEnded => ServerEventView::StreamEnded,
            ServerEvent::ActionFailed => ServerEventView::ActionFailed,
        }
    }
}

impl View for ServerAction {
    type V = ServerActionView;

    open spec fn view(&self) -> ServerActionView {
        match self {
            ServerAction::CreateOffer => ServerActionView::CreateOffer,
            ServerAction::SetLocalDescription => ServerActionView::SetLocalDescription,
            ServerAction::SendText(text) => ServerActionView::SendText(text@),
            ServerAction::ReadMessage => ServerActionView::ReadMessage,
            ServerAction::SetRemoteDescription(d) => ServerActionView::SetRemoteDescription(*d),
            ServerAction::Close => ServerActionView::Close,
            ServerAction::Abort(fault) => ServerActionView::Abort(*fault),
        }
    }
}

/// Whether an event can happen in a state: the outcome of an action after it, messages while the
/// answer is awaited, nothing once the exchange is over.
pub open spec fn server_expects(state: ServerStateView, event: ServerEventView) -> bool {
    match state {
        ServerStateView::CreatingOffer => event is OfferCreated || event is ActionFailed,
        ServerStateView::AwaitingAnswer => event is Text || event is OtherMessage
            || event is StreamEnded,
        ServerStateView::Negotiated | ServerStateView::Closed | ServerStateView::Failed => false,
        _ => event is Done || event is ActionFailed,
    }
}

/// The end of an exchange that cannot go on.
pub open spec fn server_gives_up(fault: SessionFault) -> (ServerStateView, ServerActionView) {
    (ServerStateView::Failed, ServerActionView::Abort(fault))
}

/// What the server does about an answer, given what the outside crate makes of its session.
pub open spec fn server_takes_answer(description: Option<RTCSessionDescription>) -> (
    ServerStateView,
    ServerActionView,
) {
    match description {
        Some(d) => (
            ServerStateView::ApplyingAnswer,
            ServerActionView::SetRemoteDescription(d),
        ),
        None => server_gives_up(SessionFault::Signal(SignalError::InvalidSdp)),
    }
}

/// What the server does about a message.
pub open spec fn server_takes_message(reading: ServerReading) -> (
    ServerStateView,
    ServerActionView,
) {
    match reading {
        ServerReading::Answer(sdp) => server_takes_answer(answer_description(sdp)),
        ServerReading::AnswerWithoutSdp => server_gives_up(
            SessionFault::Signal(SignalError::MissingSdp),
        ),
        ServerReading::Ignored => (
            ServerStateView::AwaitingAnswer,
            ServerActionView::ReadMessage,
        ),
    }
}

/// The next state and action, for an event that can happen in the state.
pub open spec fn server_step(state: ServerStateView, event: ServerEventView) -> (
    ServerStateView,
    ServerActionView,
)
    recommends
        server_expects(state, event),
{
    match (state, event) {
        (_, ServerEventView::ActionFailed) => server_gives_up(SessionFault::ActionFailed),
        (_, ServerEventView::OfferCreated(sdp)) => (
            ServerStateView::ApplyingOffer(sdp),
            ServerActionView::SetLocalDescription,
        ),
        (ServerStateView::ApplyingOffer(sdp), _) => (
            ServerStateView::SendingOffer,
            ServerActionView::SendText(printed(offer_json(sdp))),
        ),
        (ServerStateView::SendingOffer, _) => (
            ServerStateView::AwaitingAnswer,
            ServerActionView::ReadMessage,
        ),
        (ServerStateView::AwaitingAnswer, ServerEventView::Text(None)) => server_gives_up(
            SessionFault::Signal(SignalError::InvalidJson),
        ),
        (ServerStateView::AwaitingAnswer, ServerEventView::Text(Some(value))) =>
            server_takes_message(server_reading(fields_of(value))),
        (ServerStateView::AwaitingAnswer, ServerEventView::StreamEnded) => (
            ServerStateView::Closed,
            ServerActionView::Close,
        ),
        (ServerStateView::AwaitingAnswer, _) => (
            ServerStateView::AwaitingAnswer,
            ServerActionView::ReadMessage,
        ),
        (_, _) => (ServerStateView::Negotiated, ServerActionView::Close),
    }
}

/// Stops the exchange because of `fault`.
fn give_up(fault: SessionFault) -> (r: (ServerState, ServerAction))
    ensures
        (r.0@, r.1@) == server_gives_up(fault),
{
    (ServerState::Failed, ServerAction::Abort(fault))
}

/// Takes the session of an answer, as the outside crate described it, to the peer connection.
pub fn take_answer(described: Result<RTCSessionDescription, webrtc::Error>) -> (r: (
    ServerState,
    ServerAction,
))
    ensures
        (r.0@, r.1@) == server_takes_answer(
            match described {
                Ok(description) => Some(description),
                Err(_) => None,
            },
        ),
        match described {
            Ok(description) => r.0 is ApplyingAnswer && r.1 == ServerAction::SetRemoteDescription(
                description,
            ),
            Err(_) => r.0 is Failed && r.1 == ServerAction::Abort(
                SessionFault::Signal(SignalError::InvalidSdp),
            ),
        },
{
    match described {
        Ok(description) => (
            ServerState::ApplyingAnswer,
            ServerAction::SetRemoteDescription(description),
        ),
        Err(_) => give_up(SessionFault::Signal(SignalError::InvalidSdp)),
    }
}

/// Acts on a message of which the fields are known.
pub fn take_fields(fields: SignalFields) -> (r: (ServerState, ServerAction))
    ensures
        (r.0@, r.1@) == server_takes_message(server_reading(fields@)),
{
    match server_signal(fields) {
        Ok(ServerSignal::Answer(sdp)) => take_answer(describe_answer(sdp)),
        Ok(ServerSignal::Ignored) => (ServerState::AwaitingAnswer, ServerAction::ReadMessage),
        Err(error) => give_up(SessionFault::Signal(error)),
    }
}

/// Starts with an offer.
pub fn start() -> (r: (ServerState, ServerAction))
    ensures
        r.0@ == ServerStateView::CreatingOffer,
        r.1@ == ServerActionView::CreateOffer,
        r.0 is CreatingOffer,
        r.1 is CreateOffer,
{
    (ServerState::CreatingOffer, ServerAction::CreateOffer)
}

/// Takes the server from one state to the next. The offer that it sends reads back as an offer of
/// the same session.
pub fn step(state: ServerState, event: ServerEvent) -> (r: (ServerState, ServerAction))
    requires
        server_expects(state@, event@),
    ensures
        (r.0@, r.1@) == server_step(state@, event@),
        r.1 matches ServerAction::SendText(text) ==> state@ matches ServerStateView::ApplyingOffer(
            sdp,
        ) && parsed(text@) == Some(offer_json(sdp)),
        event matches ServerEvent::Text(text) ==> (match parsed(text@) {
            Some(value) => if value.member("type"@).text() == Some("answer"@) {
                match value.member("sdp"@).text() {
                    Some(sdp) => match answer_description(sdp) {
                        Some(description) => r.0 is ApplyingAnswer && r.1
                            == ServerAction::SetRemoteDescription(description),
                        None => r.0 is Failed && r.1 == ServerAction::Abort(
                            SessionFault::Signal(SignalError::InvalidSdp),
                        ),
                    },
                    None => r.0 is Failed && r.1 == ServerAction::Abort(
                        SessionFault::Signal(SignalError::MissingSdp),
                    ),
                }
            } else {
                r.0 is AwaitingAnswer && r.1 is ReadMessage
            },
            None => r.0 is Failed && r.1 == ServerAction::Abort(
                SessionFault::Signal(SignalError::InvalidJson),
            ),
        }),
        state is AwaitingAnswer && event is OtherMessage ==> r.0 is AwaitingAnswer
            && r.1 is ReadMessage,
        state is AwaitingAnswer && event is StreamEnded ==> r.0 is Closed && r.1 is Close,
        event matches ServerEvent::OfferCreated(sdp) ==> r.0
            == ServerState::ApplyingOffer(sdp) && r.1 is SetLocalDescription,
        state matches ServerState::ApplyingOffer(sdp) ==> (event is Done ==> r.0 is SendingOffer
            && r.1 is SendText && (parsed(r.1->SendText_0@) matches Some(value) && value.member(
            "type"@,
        ) == Json::Text("offer"@) && value.member("sdp"@) == Json::Text(sdp@))),
        state is SendingOffer && event is Done ==> r.0 is AwaitingAnswer && r.1 is ReadMessage,
        state is ApplyingAnswer && event is Done ==> r.0 is Negotiated && r.1 is Close,
        event is ActionFailed ==> r.0 is Failed && r.1 == ServerAction::Abort(
            SessionFault::ActionFailed,
        ),
{
    proof {
        if state is ApplyingOffer {
            law_session_messages_carry_their_session(state->ApplyingOffer_0@);
        }
        if event is Text && parsed(event->Text_0@) is Some {
            law_server_acts_on_messages(parsed(event->Text_0@)->0);
        }
    }
    match event {
        ServerEvent::ActionFailed => give_up(SessionFault::ActionFailed),
        ServerEvent::OfferCreated(sdp) => (
            ServerState::ApplyingOffer(sdp),
            ServerAction::SetLocalDescription,
        ),
        ServerEvent::Done => match state {
            ServerState::ApplyingOffer(sdp) => (
                ServerState::SendingOffer,
                ServerAction::SendText(offer_message(sdp.as_str())),
            ),
            ServerState::SendingOffer => (
                ServerState::AwaitingAnswer,
                ServerAction::ReadMessage,
            ),
            _ => (ServerState::Negotiated, ServerAction::Close),
        },
        ServerEvent::Text(text) => match read_fields(text.as_str()) {
            Ok(fields) => take_fields(fields),
            Err(error) => give_up(SessionFault::Signal(error)),
        },
        ServerEvent::OtherMessage => (ServerState::AwaitingAnswer, ServerAction::ReadMessage),
        ServerEvent::StreamEnded => (ServerState::Closed, ServerAction::Close),
    }
}

/// What a message does to a server that awaits the answer, by what stands in it. The session under
/// `sdp` of an answer goes to the peer connection as it stands. An answer whose session is missing
/// or does not parse is the end. Everything else is passed over.
pub proof fn law_server_acts_on_messages(value: Json)
    ensures
        ({
            let next = server_step(
                ServerStateView::AwaitingAnswer,
                ServerEventView::Text(Some(value)),
            );
            if value.member("type"@).text() == Some("answer"@) {
                match value.member("sdp"@).text() {
                    Some(sdp) => match answer_description(sdp) {
                        Some(description) => next.0 is ApplyingAnswer && next.1
                            == ServerActionView::SetRemoteDescription(description),
                        None => next.0 is Failed && next.1 == ServerActionView::Abort(
                            SessionFault::Signal(SignalError::InvalidSdp),
                        ),
                    },
                    None => next.0 is Failed && next.1 == ServerActionView::Abort(
                        SessionFault::Signal(SignalError::MissingSdp),
                    ),
                }
            } else {
                next.0 is AwaitingAnswer && next.1 is ReadMessage
            }
        }),
{
    if value.member("type"@).text() == Some("answer"@) {
        law_answers_are_read_as_they_stand(value);
    }
}

/// The offer that the peer connection made is what the server sends: an object of two members, its
/// kind and the session as it was made. Then it awaits the answer.
pub proof fn law_server_sends_the_offer_it_was_given(sdp: Seq<char>)
    ensures
        ({
            let made = server_step(
                ServerStateView::CreatingOffer,
                ServerEventView::OfferCreated(sdp),
            );
            let sent = server_step(made.0, ServerEventView::Done);
            let waits = server_step(sent.0, ServerEventView::Done);
            &&& made.1 is SetLocalDescription
            &&& sent.1 == ServerActionView::SendText(
                printed(
                    Json::Object(map!["type"@ => Json::Text("offer"@), "sdp"@ => Json::Text(sdp)]),
                ),
            )
            &&& waits.0 is AwaitingAnswer
            &&& waits.1 is ReadMessage
        }),
{
}

/// The server can be told of any message while it awaits the answer, of an offer while it waits
/// for one, and of the success or failure of any other action; of nothing once the exchange is
/// over.
pub proof fn law_what_a_server_can_be_told(state: ServerStateView, event: ServerEventView)
    ensures
        server_expects(state, event) <==> match event {
            ServerEventView::Text(_)
            | ServerEventView::OtherMessage
            | ServerEventView::StreamEnded => state is AwaitingAnswer,
            ServerEventView::OfferCreated(_) => state is CreatingOffer,
            ServerEventView::Done => state is ApplyingOffer || state is SendingOffer
                || state is ApplyingAnswer,
            ServerEventView::ActionFailed => !(state is AwaitingAnswer || state is Negotiated
                || state is Closed || state is Failed),
        },
{
}

} // verus!
