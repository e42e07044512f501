//! What holds of a negotiation as a whole.
use vstd::prelude::*;
use webrtc::peer_connection::sdp::session_description::RTCSessionDescription;

use crate::client_session::{
    client_expects, client_step, ClientActionView, ClientEventView, ClientStateView,
};
use crate::json::{printed, Json};
use crate::server_session::{
    server_expects, server_step, ServerActionView, ServerEventView, ServerStateView,
};
use crate::session::{answer_description, offer_description};
use crate::signal::{
    answer_json, candidate_json, client_reading, fields_of, law_answer_reaches_server,
    law_candidate_reaches_client, law_offer_reaches_client, offer_json, server_reading,
    CandidateView, ClientReading, ServerReading,
};

verus! {

/// Where a client stands after some events, and the actions that it took on them.
pub open spec fn client_run(events: Seq<ClientEventView>) -> (
    ClientStateView,
    Seq<ClientActionView>,
)
    decreases events.len(),
{
    if events.len() == 0 {
        (ClientStateView::Listening, Seq::empty())
    } else {
        let before = client_run(events.drop_last());
        let next = client_step(before.0, events.last());
        (next.0, before.1.push(next.1))
    }
}

/// Each event can happen in the state that the events before it lead to.
pub open spec fn client_can_run(events: Seq<ClientEventView>) -> bool
    decreases events.len(),
{
    events.len() > 0 ==> client_can_run(events.drop_last()) && client_expects(
        client_run(events.drop_last()).0,
        events.last(),
    )
}

/// Where a server stands after some events, and the actions that it took on them.
pub open spec fn server_run(events: Seq<ServerEventView>) -> (
    ServerStateView,
    Seq<ServerActionView>,
)
    decreases events.len(),
{
    if events.len() == 0 {
        (ServerStateView::CreatingOffer, Seq::empty())
    } else {
        let before = server_run(events.drop_last());
        let next = server_step(before.0, events.last());
        (next.0, before.1.push(next.1))
    }
}

/// Each event can happen in the state that the events before it lead to.
pub open spec fn server_can_run(events: Seq<ServerEventView>) -> bool
    decreases events.len(),
{
    events.len() > 0 ==> server_can_run(events.drop_last()) && server_expects(
        server_run(events.drop_last()).0,
        events.last(),
    )
}

/// What `pick` makes of each item, in order, without the items of which it makes nothing.
pub open spec fn picked<A, B>(items: Seq<A>, pick: spec_fn(A) -> Option<B>) -> Seq<B>
    decreases items.len(),
{
    if items.len() == 0 {
        Seq::empty()
    } else {
        let earlier = picked(items.drop_last(), pick);
        match pick(items.last()) {
            Some(value) => earlier.push(value),
            None => earlier,
        }
    }
}

/// The sessions of the offers that the client was sent, in order.
pub open spec fn offers_read(events: Seq<ClientEventView>) -> Seq<Seq<char>> {
    picked(
        events,
        |event: ClientEventView|
            match event {
                ClientEventView::Text(Some(value)) => match client_reading(fields_of(value)) {
                    ClientReading::Offer(sdp) => Some(sdp),
                    _ => None,
                },
                _ => None,
            },
    )
}

/// The candidates that the client was sent, in order.
pub open spec fn candidates_read(events: Seq<ClientEventView>) -> Seq<CandidateView> {
    picked(
        events,
        |event: ClientEventView|
            match event {
                ClientEventView::Text(Some(value)) => match client_reading(fields_of(value)) {
                    ClientReading::Candidate(candidate) => Some(candidate),
                    _ => None,
                },
                _ => None,
            },
    )
}

/// The answers that the client's peer connection made, in order.
pub open spec fn answers_made(events: Seq<ClientEventView>) -> Seq<Seq<char>> {
    picked(
        events,
        |event: ClientEventView|
            match event {
                ClientEventView::AnswerCreated(sdp) => Some(sdp),
                _ => None,
            },
    )
}

/// The descriptions that the client handed to its peer connection, in order.
pub open spec fn offers_applied(actions: Seq<ClientActionView>) -> Seq<RTCSessionDescription> {
    picked(
        actions,
        |action: ClientActionView|
            match action {
                ClientActionView::SetRemoteDescription(description) => Some(description),
                _ => None,
            },
    )
}

/// The candidates that the client handed to its peer connection, in order.
pub open spec fn candidates_added(actions: Seq<ClientActionView>) -> Seq<CandidateView> {
    picked(
        actions,
        |action: ClientActionView|
            match action {
                ClientActionView::AddIceCandidate(candidate) => Some(candidate),
                _ => None,
            },
    )
}

/// The texts that the client sent, in order.
pub open spec fn texts_sent_by_client(actions: Seq<ClientActionView>) -> Seq<Seq<char>> {
    picked(
        actions,
        |action: ClientActionView|
            match action {
                ClientActionView::SendText(text) => Some(text),
                _ => None,
            },
    )
}

/// The sessions of the answers that the server was sent, in order.
pub open spec fn answers_read(events: Seq<ServerEventView>) -> Seq<Seq<char>> {
    picked(
        events,
        |event: ServerEventView|
            match event {
                ServerEventView::Text(Some(value)) => match server_reading(fields_of(value)) {
                    ServerReading::Answer(sdp) => Some(sdp),
                    _ => None,
                },
                _ => None,
            },
    )
}

/// The offers that the server's peer connection made, in order.
pub open spec fn offers_made(events: Seq<ServerEventView>) -> Seq<Seq<char>> {
    picked(
        events,
        |event: ServerEventView|
            match event {
                ServerEventView::OfferCreated(sdp) => Some(sdp),
                _ => None,
            },
    )
}

/// The descriptions that the server handed to its peer connection, in order.
pub open spec fn answers_applied(actions: Seq<ServerActionView>) -> Seq<RTCSessionDescription> {
    picked(
        actions,
        |action: ServerActionView|
            match action {
                ServerActionView::SetRemoteDescription(description) => Some(description),
                _ => None,
            },
    )
}

/// The texts that the server sent, in order.
pub open spec fn texts_sent_by_server(actions: Seq<ServerActionView>) -> Seq<Seq<char>> {
    picked(
        actions,
        |action: ServerActionView|
            match action {
                ServerActionView::SendText(text) => Some(text),
                _ => None,
            },
    )
}

/// The client applies the offers that it is sent, in order, and answers each of them once: the
/// texts that it sends are the answers that its peer connection made, in their order, and nothing
/// else. Whenever it listens again, or the exchange ended in order, every offer has been applied
/// and answered.
pub proof fn law_client_answers_each_offer_once(events: Seq<ClientEventView>)
    requires
        client_can_run(events),
    ensures
        ({
            let (state, actions) = client_run(events);
            let offers = offers_read(events);
            let applied = offers_applied(actions);
            let answers = answers_made(events);
            let texts = texts_sent_by_client(actions);
            &&& texts.len() <= answers.len() <= applied.len() <= offers.len() <= texts.len() + 1
            &&& forall|i: int|
                0 <= i < applied.len() ==> offer_description(offers[i]) == Some(
                    #[trigger] applied[i],
                )
            &&& forall|i: int|
                0 <= i < texts.len() ==> #[trigger] texts[i] == printed(answer_json(answers[i]))
            &&& (state is Listening || state is SendingAnswer || state is AddingCandidate
                || state is Closed) ==> texts.len() == offers.len()
            &&& (state is ApplyingOffer || state is CreatingAnswer) ==> applied.len()
                == offers.len() == answers.len() + 1
            &&& state matches ClientStateView::ApplyingAnswer(sdp) ==> answers.len() == offers.len()
                == texts.len() + 1 && answers.last() == sdp
        }),
    decreases events.len(),
{
    if events.len() > 0 {
        law_client_answers_each_offer_once(events.drop_last());
        let before = client_run(events.drop_last());
        let next = client_step(before.0, events.last());
        assert(before.1.push(next.1).drop_last() =~= before.1);
    }
}

/// The client hands every candidate that it is sent to its peer connection, in order, and no
/// other.
pub proof fn law_client_adds_each_candidate(events: Seq<ClientEventView>)
    requires
        client_can_run(events),
    ensures
        candidates_added(client_run(events).1) == candidates_read(events),
    decreases events.len(),
{
    if events.len() > 0 {
        law_client_adds_each_candidate(events.drop_last());
        let before = client_run(events.drop_last());
        let next = client_step(before.0, events.last());
        assert(before.1.push(next.1).drop_last() =~= before.1);
    }
}

/// Whether an event lets the client go on: no action failed, the stream did not end, and a text
/// is JSON and no offer without a session that parses.
pub open spec fn lets_client_go_on(event: ClientEventView) -> bool {
    match event {
        ClientEventView::ActionFailed | ClientEventView::StreamEnded => false,
        ClientEventView::Text(None) => false,
        ClientEventView::Text(Some(value)) => match client_reading(fields_of(value)) {
            ClientReading::Offer(sdp) => offer_description(sdp) is Some,
            ClientReading::OfferWithoutSdp => false,
            _ => true,
        },
        _ => true,
    }
}

/// The client goes on for as long as every event lets it: no offer, answer or candidate ends the
/// exchange, however many there were before. What does not let it go on ends it.
pub proof fn law_client_goes_on(events: Seq<ClientEventView>)
    requires
        client_can_run(events),
    ensures
        ({
            let state = client_run(events).0;
            !(state is Closed || state is Failed) <==> forall|i: int|
                0 <= i < events.len() ==> lets_client_go_on(#[trigger] events[i])
        }),
    decreases events.len(),
{
    if events.len() > 0 {
        let earlier = events.drop_last();
        law_client_goes_on(earlier);
        assert(forall|i: int| 0 <= i < earlier.len() ==> #[trigger] earlier[i] == events[i]);
        let last = events.len() - 1;
        let all = forall|i: int| 0 <= i < events.len() ==> lets_client_go_on(#[trigger] events[i]);
        if all {
            assert forall|i: int| 0 <= i < earlier.len() implies lets_client_go_on(
                #[trigger] earlier[i],
            ) by {
                assert(earlier[i] == events[i]);
            }
            assert(lets_client_go_on(events[last]));
        } else {
            let i = choose|i: int| 0 <= i < events.len() && !lets_client_go_on(#[trigger] events[i]);
            if i < last {
                assert(!lets_client_go_on(earlier[i]));
            }
        }
    }
}

/// The server sends the offer that its peer connection made, once, and takes one answer at most,
/// and that only after its offer: the first that it is sent, after which it reads no message. An
/// agreement is made of one of each.
pub proof fn law_server_negotiates_once(events: Seq<ServerEventView>)
    requires
        server_can_run(events),
    ensures
        ({
            let (state, actions) = server_run(events);
            let offers = offers_made(events);
            let texts = texts_sent_by_server(actions);
            let answers = answers_read(events);
            let applied = answers_applied(actions);
            &&& applied.len() <= answers.len() <= texts.len() <= offers.len() <= 1
            &&& texts.len() == 1 ==> texts[0] == printed(offer_json(offers[0]))
            &&& applied.len() == 1 ==> answer_description(answers[0]) == Some(applied[0])
            &&& state is CreatingOffer ==> offers.len() == 0
            &&& state matches ServerStateView::ApplyingOffer(sdp) ==> offers == seq![sdp]
                && texts.len() == 0
            &&& (state is SendingOffer || state is AwaitingAnswer || state is Closed)
                ==> texts.len() == 1 && answers.len() == 0
            &&& (state is ApplyingAnswer || state is Negotiated) ==> texts.len() == 1
                && applied.len() == 1
        }),
    decreases events.len(),
{
    if events.len() > 0 {
        law_server_negotiates_once(events.drop_last());
        let before = server_run(events.drop_last());
        let next = server_step(before.0, events.last());
        assert(before.1.push(next.1).drop_last() =~= before.1);
    }
}

/// What happens to a server whose client agrees at once.
pub open spec fn server_events(offer: Seq<char>, answer: Seq<char>) -> Seq<ServerEventView> {
    seq![
        ServerEventView::OfferCreated(offer),
        ServerEventView::Done,
        ServerEventView::Done,
        ServerEventView::Text(Some(answer_json(answer))),
        ServerEventView::Done,
    ]
}

/// What happens to a client that the server made an offer.
pub open spec fn client_events(offer: Seq<char>, answer: Seq<char>) -> Seq<ClientEventView> {
    seq![
        ClientEventView::Text(Some(offer_json(offer))),
        ClientEventView::Done,
        ClientEventView::AnswerCreated(answer),
        ClientEventView::Done,
        ClientEventView::Done,
    ]
}

/// An offer and an answer that both parse bring the two sides together: the client applies the
/// offer that the server sent, the server applies the answer that the client sent, the client
/// listens again and the server has come to an agreement.
pub proof fn law_negotiation_completes(offer: Seq<char>, answer: Seq<char>)
    ensures
        offer_description(offer) matches Some(offered) ==> answer_description(
            answer,
        ) matches Some(answered) ==> {
            &&& server_can_run(server_events(offer, answer))
            &&& server_run(server_events(offer, answer)) == (
                ServerStateView::Negotiated,
                seq![
                    ServerActionView::SetLocalDescription,
                    ServerActionView::SendText(printed(offer_json(offer))),
                    ServerActionView::ReadMessage,
                    ServerActionView::SetRemoteDescription(answered),
                    ServerActionView::Close,
                ],
            )
            &&& client_can_run(client_events(offer, answer))
            &&& client_run(client_events(offer, answer)) == (
                ClientStateView::Listening,
                seq![
                    ClientActionView::SetRemoteDescription(offered),
                    ClientActionView::CreateAnswer,
                    ClientActionView::SetLocalDescription,
                    ClientActionView::SendText(printed(answer_json(answer))),
                    ClientActionView::ReadMessage,
                ],
            )
        },
{
    law_offer_reaches_client(offer);
    law_answer_reaches_server(answer);
    if offer_description(offer) is Some && answer_description(answer) is Some {
        reveal_with_fuel(server_run, 6);
        reveal_with_fuel(server_can_run, 6);
        reveal_with_fuel(client_run, 6);
        reveal_with_fuel(client_can_run, 6);
        let s5 = server_events(offer, answer);
        let s4 = s5.drop_last();
        let s3 = s4.drop_last();
        let s2 = s3.drop_last();
        let s1 = s2.drop_last();
        assert(s1.drop_last() =~= Seq::empty());
        let c5 = client_events(offer, answer);
        let c4 = c5.drop_last();
        let c3 = c4.drop_last();
        let c2 = c3.drop_last();
        let c1 = c2.drop_last();
        assert(c1.drop_last() =~= Seq::empty());
    }
}

/// Whether the server, while it awaits the answer, passes over an event.
pub open spec fn server_passes_over(event: ServerEventView) -> bool {
    match event {
        ServerEventView::OtherMessage => true,
        ServerEventView::Text(Some(value)) => server_reading(fields_of(value)) is Ignored,
        _ => false,
    }
}

/// What happens to a server that has sent its offer and passed over some messages.
pub open spec fn server_waits(offer: Seq<char>, passed: Seq<ServerEventView>) -> Seq<
    ServerEventView,
> {
    seq![
        ServerEventView::OfferCreated(offer),
        ServerEventView::Done,
        ServerEventView::Done,
    ] + passed
}

/// The server goes on waiting for as long as it passes over what comes.
proof fn lemma_server_waits(offer: Seq<char>, passed: Seq<ServerEventView>)
    requires
        forall|i: int| 0 <= i < passed.len() ==> server_passes_over(#[trigger] passed[i]),
    ensures
        server_can_run(server_waits(offer, passed)),
        server_run(server_waits(offer, passed)).0 is AwaitingAnswer,
        offers_made(server_waits(offer, passed)) == seq![offer],
    decreases passed.len(),
{
    let events = server_waits(offer, passed);
    if passed.len() == 0 {
        reveal_with_fuel(server_run, 4);
        reveal_with_fuel(server_can_run, 4);
        reveal_with_fuel(picked, 4);
        let e2 = events.drop_last();
        let e1 = e2.drop_last();
        assert(e1.drop_last() =~= Seq::empty());
    } else {
        let earlier = passed.drop_last();
        lemma_server_waits(offer, earlier);
        assert(events.drop_last() =~= server_waits(offer, earlier));
        assert(server_passes_over(passed[passed.len() - 1]));
    }
}

/// The server takes the first answer that it is sent, whatever it passed over before: it applies
/// the description of that answer and no other, and has then come to an agreement on the offer
/// that it sent.
pub proof fn law_first_answer_is_applied(
    offer: Seq<char>,
    passed: Seq<ServerEventView>,
    message: Json,
    answer: Seq<char>,
)
    requires
        forall|i: int| 0 <= i < passed.len() ==> server_passes_over(#[trigger] passed[i]),
        server_reading(fields_of(message)) == ServerReading::Answer(answer),
    ensures
        answer_description(answer) matches Some(answered) ==> {
            let events = server_waits(offer, passed).push(
                ServerEventView::Text(Some(message)),
            ).push(ServerEventView::Done);
            let (state, actions) = server_run(events);
            &&& server_can_run(events)
            &&& state is Negotiated
            &&& texts_sent_by_server(actions) == seq![printed(offer_json(offer))]
            &&& answers_applied(actions) == seq![answered]
        },
{
    if let Some(answered) = answer_description(answer) {
        lemma_server_waits(offer, passed);
        let waiting = server_waits(offer, passed);
        let told = waiting.push(ServerEventView::Text(Some(message)));
        let events = told.push(ServerEventView::Done);
        assert(told.drop_last() =~= waiting);
        assert(events.drop_last() =~= told);
        assert(server_run(told).0 is ApplyingAnswer);
        assert(server_can_run(told));
        assert(server_can_run(events));
        law_server_negotiates_once(waiting);
        law_server_negotiates_once(events);
        assert(answers_read(told) =~= seq![answer]);
        assert(answers_read(events) =~= seq![answer]);
        assert(offers_made(told) =~= seq![offer]);
        assert(offers_made(events) =~= seq![offer]);
    }
}

/// Messages that are not meant for a side leave it where it is: the client passes over answers,
/// the server over offers and candidates.
pub proof fn law_stray_messages_change_nothing(sdp: Seq<char>, candidate: CandidateView)
    ensures
        client_step(ClientStateView::Listening, ClientEventView::Text(Some(answer_json(sdp)))) == (
            ClientStateView::Listening,
            ClientActionView::ReadMessage,
        ),
        server_step(
            ServerStateView::AwaitingAnswer,
            ServerEventView::Text(Some(offer_json(sdp))),
        ) == (ServerStateView::AwaitingAnswer, ServerActionView::ReadMessage),
        server_step(
            ServerStateView::AwaitingAnswer,
            ServerEventView::Text(Some(candidate_json(candidate))),
        ) == (ServerStateView::AwaitingAnswer, ServerActionView::ReadMessage),
{
    law_answer_reaches_server(sdp);
    law_offer_reaches_client(sdp);
    law_candidate_reaches_client(candidate);
}

/// While it listens, the client gives up on a JSON message only where that is an offer whose
/// session is missing or does not parse. Of the server the same holds of answers.
pub proof fn law_only_bad_sessions_end_it(value: Json)
    ensures
        client_step(ClientStateView::Listening, ClientEventView::Text(Some(value))).0 is Failed
            <==> fields_of(value).kind == Some("offer"@) && (match fields_of(value).sdp {
            Some(sdp) => offer_description(sdp) is None,
            None => true,
        }),
        server_step(ServerStateView::AwaitingAnswer, ServerEventView::Text(Some(value))).0 is Failed
            <==> fields_of(value).kind == Some("answer"@) && (match fields_of(value).sdp {
            Some(sdp) => answer_description(sdp) is None,
            None => true,
        }),
{
}

} // verus!
