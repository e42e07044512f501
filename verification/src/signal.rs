//! The signaling messages that the server and the client exchange over the WebSocket.
//!
//! Each message is the text of a JSON object whose `type` is `offer`, `answer` or `candidate`.
use vstd::prelude::*;

use crate::json;
use crate::json::{parsed, printed, Json, JsonNumber};

verus! {

/// Why a message, or what was to go into one, cannot be used.
#[derive(Clone, Copy, Debug, PartialEq, Eq, Structural)]
pub enum SignalError {
    /// The text is no JSON.
    InvalidJson,
    /// An offer or an answer comes without a text under `sdp`.
    MissingSdp,
    /// The session description does not parse.
    InvalidSdp,
    /// A local candidate has no textual form.
    InvalidCandidate,
}

/// The characters of an optional string.
pub open spec fn chars_of(text: Option<String>) -> Option<Seq<char>> {
    match text {
        Some(s) => Some(s@),
        None => None,
    }
}

/// An ICE candidate as it travels in a message.
#[derive(Debug)]
pub struct IceCandidateInit {
    pub candidate: String,
    pub sdp_mid: Option<String>,
    pub sdp_mline_index: Option<u16>,
    pub username_fragment: Option<String>,
}

/// The mathematical value of an [`IceCandidateInit`].
pub struct CandidateView {
    pub candidate: Seq<char>,
    pub sdp_mid: Option<Seq<char>>,
    pub sdp_mline_index: Option<u16>,
    pub username_fragment: Option<Seq<char>>,
}

impl View for IceCandidateInit {
    type V = CandidateView;

    open spec fn view(&self) -> CandidateView {
        CandidateView {
            candidate: self.candidate@,
            sdp_mid: chars_of(self.sdp_mid),
            sdp_mline_index: self.sdp_mline_index,
            username_fragment: chars_of(self.username_fragment),
        }
    }
}

/// What the readers look at in a message: each string member that is a string, and the line
/// index where it is a non-negative integer.
#[derive(Debug)]
pub struct SignalFields {
    pub kind: Option<String>,
    pub sdp: Option<String>,
    pub candidate: Option<String>,
    pub sdp_mid: Option<String>,
    pub sdp_mline_index: Option<u64>,
}

/// The mathematical value of [`SignalFields`].
pub struct FieldsView {
    pub kind: Option<Seq<char>>,
    pub sdp: Option<Seq<char>>,
    pub candidate: Option<Seq<char>>,
    pub sdp_mid: Option<Seq<char>>,
    pub sdp_mline_index: Option<u64>,
}

impl View for SignalFields {
    type V = FieldsView;

    open spec fn view(&self) -> FieldsView {
        FieldsView {
            kind: chars_of(self.kind),
            sdp: chars_of(self.sdp),
            candidate: chars_of(self.candidate),
            sdp_mid: chars_of(self.sdp_mid),
            sdp_mline_index: self.sdp_mline_index,
        }
    }
}

/// The fields of a JSON value.
pub open spec fn fields_of(value: Json) -> FieldsView {
    FieldsView {
        kind: value.member("type"@).text(),
        sdp: value.member("sdp"@).text(),
        candidate: value.member("candidate"@).text(),
        sdp_mid: value.member("sdpMid"@).text(),
        sdp_mline_index: value.member("sdpMLineIndex"@).unsigned(),
    }
}

/// What a message means to the client.
pub enum ClientReading {
    /// A session offered by the server.
    Offer(Seq<char>),
    /// An offer that lacks its session description.
    OfferWithoutSdp,
    /// A candidate of the server.
    Candidate(CandidateView),
    /// Nothing that the client acts on.
    Ignored,
}

/// The low sixteen bits of a line index.
pub open spec fn low_bits(index: u64) -> u16 {
    (index % 0x1_0000) as u16
}

/// The meaning of a message to the client, from its fields.
pub open spec fn client_reading(fields: FieldsView) -> ClientReading {
    if fields.kind == Some("offer"@) {
        match fields.sdp {
            Some(sdp) => ClientReading::Offer(sdp),
            None => ClientReading::OfferWithoutSdp,
        }
    } else if fields.kind == Some("candidate"@) {
        match fields.candidate {
            Some(candidate) => ClientReading::Candidate(
                CandidateView {
                    candidate,
                    sdp_mid: fields.sdp_mid,
                    sdp_mline_index: match fields.sdp_mline_index {
                        Some(index) => Some(low_bits(index)),
                        None => None,
                    },
                    username_fragment: None,
                },
            ),
            None => ClientReading::Ignored,
        }
    } else {
        ClientReading::Ignored
    }
}

/// What a message means to the server.
pub enum ServerReading {
    /// The session that the client agreed to.
    Answer(Seq<char>),
    /// An answer that lacks its session description.
    AnswerWithoutSdp,
    /// Nothing that the server acts on.
    Ignored,
}

/// The meaning of a message to the server, from its fields.
pub open spec fn server_reading(fields: FieldsView) -> ServerReading {
    if fields.kind == Some("answer"@) {
        match fields.sdp {
            Some(sdp) => ServerReading::Answer(sdp),
            None => ServerReading::AnswerWithoutSdp,
        }
    } else {
        ServerReading::Ignored
    }
}

/// A message that the client acts on, or one that it passes over.
#[derive(Debug)]
pub enum ClientSignal {
    Offer(String),
    Candidate(IceCandidateInit),
    Ignored,
}

impl View for ClientSignal {
    type V = ClientReading;

    open spec fn view(&self) -> ClientReading {
        match self {
            ClientSignal::Offer(sdp) => ClientReading::Offer(sdp@),
            ClientSignal::Candidate(candidate) => ClientReading::Candidate(candidate@),
            ClientSignal::Ignored => ClientReading::Ignored,
        }
    }
}

/// A message that the server acts on, or one that it passes over.
#[derive(Debug)]
pub enum ServerSignal {
    Answer(String),
    Ignored,
}

impl View for ServerSignal {
    type V = ServerReading;

    open spec fn view(&self) -> ServerReading {
        match self {
            ServerSignal::Answer(sdp) => ServerReading::Answer(sdp@),
            ServerSignal::Ignored => ServerReading::Ignored,
        }
    }
}

/// The string member of `value` under `key`.
fn text_member(value: &serde_json::Value, key: &str) -> (r: Option<String>)
    ensures
        chars_of(r) == json::json_of(*value).member(key@).text(),
{
    match json::as_text(json::member(value, key)) {
        Some(text) => Some(text.to_owned()),
        None => None,
    }
}

/// Reads the fields of a message. It fails on a text that is no JSON and on nothing else.
pub fn read_fields(text: &str) -> (r: Result<SignalFields, SignalError>)
    ensures
        match r {
            Ok(fields) => parsed(text@) matches Some(value) && fields@ == fields_of(value),
            Err(error) => parsed(text@) is None && error == SignalError::InvalidJson,
        },
        r matches Ok(fields) ==> parsed(text@) matches Some(value) && {
            &&& match fields.kind {
                Some(text) => value.member("type"@) == Json::Text(text@),
                None => !(value.member("type"@) is Text),
            }
            &&& match fields.sdp {
                Some(text) => value.member("sdp"@) == Json::Text(text@),
                None => !(value.member("sdp"@) is Text),
            }
            &&& match fields.candidate {
                Some(text) => value.member("candidate"@) == Json::Text(text@),
                None => !(value.member("candidate"@) is Text),
            }
            &&& match fields.sdp_mid {
                Some(text) => value.member("sdpMid"@) == Json::Text(text@),
                None => !(value.member("sdpMid"@) is Text),
            }
            &&& match fields.sdp_mline_index {
                Some(index) => value.member("sdpMLineIndex"@) == Json::Number(
                    JsonNumber::Unsigned(index),
                ),
                None => !(value.member("sdpMLineIndex"@) matches Json::Number(
                    JsonNumber::Unsigned(_),
                )),
            }
        },
{
    match json::parse(text) {
        Ok(value) => Ok(
            SignalFields {
                kind: text_member(&value, "type"),
                sdp: text_member(&value, "sdp"),
                candidate: text_member(&value, "candidate"),
                sdp_mid: text_member(&value, "sdpMid"),
                sdp_mline_index: json::as_unsigned(json::member(&value, "sdpMLineIndex")),
            },
        ),
        Err(_) => Err(SignalError::InvalidJson),
    }
}

/// Whether an optional string is there and equal to `expected`.
fn is_kind(kind: &Option<String>, expected: &str) -> (b: bool)
    ensures
        b == (chars_of(*kind) == Some(expected@)),
{
    match kind {
        Some(kind) => *kind == expected.to_owned(),
        None => false,
    }
}

/// The low sixteen bits of an optional line index.
fn narrow_index(index: Option<u64>) -> (r: Option<u16>)
    ensures
        r == (match index {
            Some(index) => Some(low_bits(index)),
            None => None,
        }),
{
    match index {
        Some(index) => {
            assert(index as u16 == (index % 0x1_0000) as u16) by (bit_vector);
            Some(index as u16)
        },
        None => None,
    }
}

/// Tells what a message means to the client. An offer must bring its session description; a
/// candidate message without a candidate is passed over, as is every other message.
pub fn client_signal(fields: SignalFields) -> (r: Result<ClientSignal, SignalError>)
    ensures
        match r {
            Ok(signal) => signal@ == client_reading(fields@),
            Err(error) => client_reading(fields@) is OfferWithoutSdp && error
                == SignalError::MissingSdp,
        },
        (fields.kind is Some && fields.kind->0@ == "offer"@ && fields.sdp is Some) ==> (
        r matches Ok(ClientSignal::Offer(sdp)) && sdp@ == fields.sdp->0@),
        (fields.kind is Some && fields.kind->0@ == "candidate"@ && fields.candidate is Some) ==> (
        r matches Ok(ClientSignal::Candidate(read)) && read.candidate@ == fields.candidate->0@
            && read.sdp_mid == fields.sdp_mid && read.username_fragment is None && (
        match fields.sdp_mline_index {
            Some(index) => read.sdp_mline_index is Some && read.sdp_mline_index->0 == index
                % 0x1_0000,
            None => read.sdp_mline_index is None,
        })),
{
    proof {
        kinds_differ();
    }
    if is_kind(&fields.kind, "offer") {
        match fields.sdp {
            Some(sdp) => Ok(ClientSignal::Offer(sdp)),
            None => Err(SignalError::MissingSdp),
        }
    } else if is_kind(&fields.kind, "candidate") {
        match fields.candidate {
            Some(candidate) => Ok(
                ClientSignal::Candidate(
                    IceCandidateInit {
                        candidate,
                        sdp_mid: fields.sdp_mid,
                        sdp_mline_index: narrow_index(fields.sdp_mline_index),
                        username_fragment: None,
                    },
                ),
            ),
            None => Ok(ClientSignal::Ignored),
        }
    } else {
        Ok(ClientSignal::Ignored)
    }
}

/// Tells what a message means to the server. An answer must bring its session description; every
/// other message is passed over.
pub fn server_signal(fields: SignalFields) -> (r: Result<ServerSignal, SignalError>)
    ensures
        match r {
            Ok(signal) => signal@ == server_reading(fields@),
            Err(error) => server_reading(fields@) is AnswerWithoutSdp && error
                == SignalError::MissingSdp,
        },
        (fields.kind is Some && fields.kind->0@ == "answer"@ && fields.sdp is Some) ==> (
        r matches Ok(ServerSignal::Answer(sdp)) && sdp@ == fields.sdp->0@),
{
    if is_kind(&fields.kind, "answer") {
        match fields.sdp {
            Some(sdp) => Ok(ServerSignal::Answer(sdp)),
            None => Err(SignalError::MissingSdp),
        }
    } else {
        Ok(ServerSignal::Ignored)
    }
}

/// The value of a message that carries a session description.
pub open spec fn session_json(kind: Seq<char>, sdp: Seq<char>) -> Json {
    Json::Object(map!["type"@ => Json::Text(kind), "sdp"@ => Json::Text(sdp)])
}

/// The value of the message by which the server offers a session.
pub open spec fn offer_json(sdp: Seq<char>) -> Json {
    session_json("offer"@, sdp)
}

/// The value of the message by which the client agrees to a session.
pub open spec fn answer_json(sdp: Seq<char>) -> Json {
    session_json("answer"@, sdp)
}

/// The value of the message that carries a candidate. What is absent is null in it; the user
/// name fragment does not travel.
pub open spec fn candidate_json(candidate: CandidateView) -> Json {
    Json::Object(
        map![
            "type"@ => Json::Text("candidate"@),
            "candidate"@ => Json::Text(candidate.candidate),
            "sdpMid"@ => match candidate.sdp_mid {
                Some(mid) => Json::Text(mid),
                None => Json::Null,
            },
            "sdpMLineIndex"@ => match candidate.sdp_mline_index {
                Some(index) => Json::Number(JsonNumber::Unsigned(index as u64)),
                None => Json::Null,
            },
        ],
    )
}

/// The keys of the messages differ from each other.
proof fn keys_differ()
    ensures
        "type"@ != "sdp"@,
        "type"@ != "candidate"@,
        "type"@ != "sdpMid"@,
        "type"@ != "sdpMLineIndex"@,
        "sdp"@ != "candidate"@,
        "sdp"@ != "sdpMid"@,
        "sdp"@ != "sdpMLineIndex"@,
        "candidate"@ != "sdpMid"@,
        "candidate"@ != "sdpMLineIndex"@,
        "sdpMid"@ != "sdpMLineIndex"@,
{
    reveal_strlit("type");
    reveal_strlit("sdp");
    reveal_strlit("candidate");
    reveal_strlit("sdpMid");
    reveal_strlit("sdpMLineIndex");
    assert("type"@.len() == 4 && "sdp"@.len() == 3 && "candidate"@.len() == 9);
    assert("sdpMid"@.len() == 6 && "sdpMLineIndex"@.len() == 13);
}

/// The kinds of the messages differ from each other.
proof fn kinds_differ()
    ensures
        "offer"@ != "answer"@,
        "offer"@ != "candidate"@,
        "answer"@ != "candidate"@,
{
    reveal_strlit("offer");
    reveal_strlit("answer");
    reveal_strlit("candidate");
    assert("offer"@.len() == 5 && "answer"@.len() == 6 && "candidate"@.len() == 9);
}

/// The fields of a message, and a candidate, count by their own characters and numbers.
pub proof fn law_fields_count_by_their_characters(fields: SignalFields, read: IceCandidateInit)
    ensures
        fields.kind matches Some(text) ==> fields@.kind == Some(text@),
        fields.kind is None ==> fields@.kind is None,
        fields.sdp matches Some(text) ==> fields@.sdp == Some(text@),
        fields.sdp is None ==> fields@.sdp is None,
        fields.candidate matches Some(text) ==> fields@.candidate == Some(text@),
        fields.candidate is None ==> fields@.candidate is None,
        fields.sdp_mid matches Some(text) ==> fields@.sdp_mid == Some(text@),
        fields.sdp_mid is None ==> fields@.sdp_mid is None,
        fields@.sdp_mline_index == fields.sdp_mline_index,
        read@.candidate == read.candidate@,
        read.sdp_mid matches Some(text) ==> read@.sdp_mid == Some(text@),
        read.sdp_mid is None ==> read@.sdp_mid is None,
        read@.sdp_mline_index == read.sdp_mline_index,
        read.username_fragment matches Some(text) ==> read@.username_fragment == Some(text@),
        read.username_fragment is None ==> read@.username_fragment is None,
{
}

/// An offer and an answer are objects of two members: the kind of the message under `type`, and
/// under `sdp` the characters of the session as it was given.
pub proof fn law_session_messages_carry_their_session(sdp: Seq<char>)
    ensures
        offer_json(sdp) matches Json::Object(members) && {
            &&& members.dom() == set!["type"@, "sdp"@]
            &&& members["type"@] == Json::Text("offer"@)
            &&& members["sdp"@] == Json::Text(sdp)
        },
        answer_json(sdp) matches Json::Object(members) && {
            &&& members.dom() == set!["type"@, "sdp"@]
            &&& members["type"@] == Json::Text("answer"@)
            &&& members["sdp"@] == Json::Text(sdp)
        },
{
    keys_differ();
    let offered = offer_json(sdp)->Object_0;
    let answered = answer_json(sdp)->Object_0;
    assert(offered.dom() =~= set!["type"@, "sdp"@]);
    assert(answered.dom() =~= set!["type"@, "sdp"@]);
}

/// A candidate message is an object of four members: its kind, the candidate's line as it was
/// given, and the media section, of which what is absent is null.
pub proof fn law_candidate_messages_carry_their_candidate(candidate: CandidateView)
    ensures
        candidate_json(candidate) matches Json::Object(members) && {
            &&& members.dom() == set!["type"@, "candidate"@, "sdpMid"@, "sdpMLineIndex"@]
            &&& members["type"@] == Json::Text("candidate"@)
            &&& members["candidate"@] == Json::Text(candidate.candidate)
            &&& match candidate.sdp_mid {
                Some(mid) => members["sdpMid"@] == Json::Text(mid),
                None => members["sdpMid"@] is Null,
            }
            &&& match candidate.sdp_mline_index {
                Some(index) => members["sdpMLineIndex"@] == Json::Number(
                    JsonNumber::Unsigned(index as u64),
                ),
                None => members["sdpMLineIndex"@] is Null,
            }
        },
{
    keys_differ();
    assert(candidate_json(candidate)->Object_0.dom()
        =~= set!["type"@, "candidate"@, "sdpMid"@, "sdpMLineIndex"@]);
}

/// The client takes from an offer exactly the characters that stand under its `sdp`, whatever
/// else the message holds, and the server passes over it. An offer without a text there lacks its
/// session.
pub proof fn law_offers_are_read_as_they_stand(value: Json)
    requires
        value.member("type"@).text() == Some("offer"@),
    ensures
        match value.member("sdp"@).text() {
            Some(sdp) => client_reading(fields_of(value)) == ClientReading::Offer(sdp),
            None => client_reading(fields_of(value)) is OfferWithoutSdp,
        },
        server_reading(fields_of(value)) is Ignored,
{
    kinds_differ();
}

/// The server takes from an answer exactly the characters that stand under its `sdp`, whatever
/// else the message holds, and the client passes over it. An answer without a text there lacks
/// its session.
pub proof fn law_answers_are_read_as_they_stand(value: Json)
    requires
        value.member("type"@).text() == Some("answer"@),
    ensures
        match value.member("sdp"@).text() {
            Some(sdp) => server_reading(fields_of(value)) == ServerReading::Answer(sdp),
            None => server_reading(fields_of(value)) is AnswerWithoutSdp,
        },
        client_reading(fields_of(value)) is Ignored,
{
    kinds_differ();
}

/// The client takes from a candidate message exactly the characters that stand under its
/// `candidate` and `sdpMid`, and the low sixteen bits of its `sdpMLineIndex`; the server passes
/// over it. Without a text under `candidate` the client passes over it too.
pub proof fn law_candidates_are_read_as_they_stand(value: Json)
    requires
        value.member("type"@).text() == Some("candidate"@),
    ensures
        match value.member("candidate"@).text() {
            Some(line) => client_reading(fields_of(value)) matches ClientReading::Candidate(read)
                && {
                &&& read.candidate == line
                &&& read.sdp_mid == value.member("sdpMid"@).text()
                &&& match value.member("sdpMLineIndex"@).unsigned() {
                    Some(n) => read.sdp_mline_index is Some && read.sdp_mline_index->0 == n
                        % 0x1_0000,
                    None => read.sdp_mline_index is None,
                }
                &&& read.username_fragment is None
            },
            None => client_reading(fields_of(value)) is Ignored,
        },
        server_reading(fields_of(value)) is Ignored,
{
    kinds_differ();
}

/// Both sides pass over a message of any other kind, or of none.
pub proof fn law_other_kinds_are_passed_over(value: Json)
    requires
        value.member("type"@).text() != Some("offer"@),
        value.member("type"@).text() != Some("answer"@),
        value.member("type"@).text() != Some("candidate"@),
    ensures
        client_reading(fields_of(value)) is Ignored,
        server_reading(fields_of(value)) is Ignored,
{
}

/// The client reads from an offer the session that the server put into it, and the server passes
/// over an offer.
pub proof fn law_offer_reaches_client(sdp: Seq<char>)
    ensures
        client_reading(fields_of(offer_json(sdp))) == ClientReading::Offer(sdp),
        server_reading(fields_of(offer_json(sdp))) == ServerReading::Ignored,
{
    keys_differ();
    kinds_differ();
}

/// The server reads from an answer the session that the client put into it, and the client passes
/// over an answer.
pub proof fn law_answer_reaches_server(sdp: Seq<char>)
    ensures
        server_reading(fields_of(answer_json(sdp))) == ServerReading::Answer(sdp),
        client_reading(fields_of(answer_json(sdp))) == ClientReading::Ignored,
{
    keys_differ();
    kinds_differ();
}

/// The client reads from a candidate message the candidate that was put into it, without its user
/// name fragment, and the server passes over a candidate message.
pub proof fn law_candidate_reaches_client(candidate: CandidateView)
    ensures
        client_reading(fields_of(candidate_json(candidate))) == ClientReading::Candidate(
            CandidateView { username_fragment: None, ..candidate },
        ),
        server_reading(fields_of(candidate_json(candidate))) == ServerReading::Ignored,
{
    keys_differ();
    kinds_differ();
    if candidate.sdp_mline_index is Some {
        let index = candidate.sdp_mline_index->0;
        assert(low_bits(index as u64) == index);
    }
}

/// Writes a message that carries a session description.
fn session_message(kind: &str, sdp: &str) -> (r: String)
    ensures
        r@ == printed(session_json(kind@, sdp@)),
        parsed(r@) == Some(session_json(kind@, sdp@)),
{
    let mut message = json::null();
    json::set_member(&mut message, "type", json::from_text(kind));
    json::set_member(&mut message, "sdp", json::from_text(sdp));
    json::print(&message)
}

/// Writes the message by which the server offers a session. The client reads the same session
/// from it.
pub fn offer_message(sdp: &str) -> (r: String)
    ensures
        r@ == printed(offer_json(sdp@)),
        parsed(r@) matches Some(value) && value == offer_json(sdp@) && client_reading(
            fields_of(value),
        ) == ClientReading::Offer(sdp@),
        parsed(r@) matches Some(value) && value is Object && value.members().dom()
            == set!["type"@, "sdp"@] && value.member("type"@) == Json::Text("offer"@)
            && value.member("sdp"@) == Json::Text(sdp@),
{
    proof {
        law_offer_reaches_client(sdp@);
        law_session_messages_carry_their_session(sdp@);
    }
    session_message("offer", sdp)
}

/// Writes the message by which the client agrees to a session. The server reads the same session
/// from it.
pub fn answer_message(sdp: &str) -> (r: String)
    ensures
        r@ == printed(answer_json(sdp@)),
        parsed(r@) matches Some(value) && value == answer_json(sdp@) && server_reading(
            fields_of(value),
        ) == ServerReading::Answer(sdp@),
        parsed(r@) matches Some(value) && value is Object && value.members().dom()
            == set!["type"@, "sdp"@] && value.member("type"@) == Json::Text("answer"@)
            && value.member("sdp"@) == Json::Text(sdp@),
{
    proof {
        law_answer_reaches_server(sdp@);
        law_session_messages_carry_their_session(sdp@);
    }
    session_message("answer", sdp)
}

/// Writes the message that carries a candidate. The client reads the same candidate from it,
/// without its user name fragment.
pub fn candidate_message(candidate: &IceCandidateInit) -> (r: String)
    ensures
        r@ == printed(candidate_json(candidate@)),
        parsed(r@) matches Some(value) && value == candidate_json(candidate@) && client_reading(
            fields_of(value),
        ) == ClientReading::Candidate(CandidateView { username_fragment: None, ..candidate@ }),
        parsed(r@) matches Some(value) && {
            &&& value is Object
            &&& value.members().dom() == set!["type"@, "candidate"@, "sdpMid"@, "sdpMLineIndex"@]
            &&& value.member("type"@) == Json::Text("candidate"@)
            &&& value.member("candidate"@) == Json::Text(candidate.candidate@)
            &&& value.member("sdpMid"@) == (match candidate.sdp_mid {
                Some(mid) => Json::Text(mid@),
                None => Json::Null,
            })
            &&& value.member("sdpMLineIndex"@) == (match candidate.sdp_mline_index {
                Some(index) => Json::Number(JsonNumber::Unsigned(index as u64)),
                None => Json::Null,
            })
        },
{
    proof {
        law_candidate_reaches_client(candidate@);
        law_candidate_messages_carry_their_candidate(candidate@);
    }
    let mid = match &candidate.sdp_mid {
        Some(mid) => json::from_text(mid.as_str()),
        None => json::null(),
    };
    let index = match candidate.sdp_mline_index {
        Some(index) => json::from_index(index),
        None => json::null(),
    };
    let mut message = json::null();
    json::set_member(&mut message, "type", json::from_text("candidate"));
    json::set_member(&mut message, "candidate", json::from_text(candidate.candidate.as_str()));
    json::set_member(&mut message, "sdpMid", mid);
    json::set_member(&mut message, "sdpMLineIndex", index);
    json::print(&message)
}

} // verus!
