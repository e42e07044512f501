//! The candidates that the server gathers for itself and announces to its client.
use vstd::prelude::*;

use crate::json::{parsed, printed, Json, JsonNumber};
use crate::signal::{
    candidate_json, candidate_message, client_reading, fields_of, law_candidate_reaches_client,
    law_candidate_messages_carry_their_candidate, CandidateView, ClientReading, IceCandidateInit,
    SignalError,
};

verus! {

/// A candidate as the ICE agent gathered it. `protocol` is `udp` or `tcp`, `typ` is `host`,
/// `srflx`, `prflx` or `relay`.
#[derive(Debug)]
pub struct LocalCandidate {
    pub stats_id: String,
    pub foundation: String,
    pub priority: u32,
    pub address: String,
    pub protocol: String,
    pub port: u16,
    pub typ: String,
    pub component: u16,
    pub related_address: String,
    pub related_port: u16,
}

/// Why the outside crate refuses a candidate or a session description.
#[verifier::external_type_specification]
#[verifier::external_body]
pub struct ExWebrtcError(webrtc::Error);

/// The line that `RTCIceCandidate::to_json` writes for a candidate, or nothing where it refuses
/// the candidate. The identifier of the candidate plays no part in it.
pub uninterp spec fn candidate_line(
    foundation: Seq<char>,
    priority: u32,
    address: Seq<char>,
    protocol: Seq<char>,
    port: u16,
    typ: Seq<char>,
    component: u16,
    related_address: Seq<char>,
    related_port: u16,
) -> Option<Seq<char>>;

impl LocalCandidate {
    /// The line that stands for this candidate in a message.
    pub open spec fn line(&self) -> Option<Seq<char>> {
        candidate_line(
            self.foundation@,
            self.priority,
            self.address@,
            self.protocol@,
            self.port,
            self.typ@,
            self.component,
            self.related_address@,
            self.related_port,
        )
    }

    /// A priority is given, or one can be derived from the component.
    pub open spec fn has_priority(&self) -> bool {
        self.priority != 0 || self.component <= 256
    }
}

/// The candidate that a line stands for: it belongs to the first media section.
pub open spec fn announced(line: Seq<char>) -> CandidateView {
    CandidateView {
        candidate: line,
        sdp_mid: Some(""@),
        sdp_mline_index: Some(0),
        username_fragment: None,
    }
}

/// Calls `webrtc::ice_transport::ice_candidate::RTCIceCandidate::to_json`, which computes a
/// missing priority from the component and so needs one of at most 256 there. Whether it
/// succeeds, and with which line, depends on the fields of the candidate but for its identifier;
/// the media identification is empty, the line index zero, and there is no user name fragment.
#[verifier::external_body]
fn to_json(c: LocalCandidate) -> (r: Result<IceCandidateInit, webrtc::Error>)
    requires
        c.has_priority(),
    ensures
        candidate_line(
            c.foundation@,
            c.priority,
            c.address@,
            c.protocol@,
            c.port,
            c.typ@,
            c.component,
            c.related_address@,
            c.related_port,
        ) == (match r {
            Ok(init) => Some(init.candidate@),
            Err(_) => None,
        }),
        r matches Ok(init) ==> init@ == announced(init.candidate@),
{
    webrtc::ice_transport::ice_candidate::RTCIceCandidate {
        stats_id: c.stats_id, foundation: c.foundation, priority: c.priority, address: c.address,
        protocol: c.protocol.as_str().into(), port: c.port, typ: c.typ.as_str().into(),
        component: c.component, related_address: c.related_address,
        related_port: c.related_port, tcp_type: String::new(),
    }
    .to_json()
    .map(|init| IceCandidateInit {
        candidate: init.candidate, sdp_mid: init.sdp_mid,
        sdp_mline_index: init.sdp_mline_index, username_fragment: init.username_fragment,
    })
}

/// Writes the message for what the ICE agent reported. The end of gathering, which comes as no
/// candidate, is not announced. A candidate without a textual form is an error.
pub fn announce_candidate(candidate: Option<LocalCandidate>) -> (r: Result<
    Option<String>,
    SignalError,
>)
    requires
        candidate matches Some(c) ==> c.has_priority(),
    ensures
        match candidate {
            None => r == Ok::<Option<String>, SignalError>(None),
            Some(c) => match c.line() {
                Some(line) => r matches Ok(Some(text)) && text@ == printed(
                    candidate_json(announced(line)),
                ) && parsed(text@) == Some(candidate_json(announced(line))),
                None => r == Err::<Option<String>, SignalError>(SignalError::InvalidCandidate),
            },
        },
        candidate matches Some(c) ==> match candidate_line(
            c.foundation@,
            c.priority,
            c.address@,
            c.protocol@,
            c.port,
            c.typ@,
            c.component,
            c.related_address@,
            c.related_port,
        ) {
            Some(line) => r matches Ok(Some(text)) && parsed(text@) matches Some(value) && {
                &&& value.member("type"@) == Json::Text("candidate"@)
                &&& value.member("candidate"@) == Json::Text(line)
                &&& value.member("sdpMid"@) == Json::Text(""@)
                &&& value.member("sdpMLineIndex"@) == Json::Number(JsonNumber::Unsigned(0))
            },
            None => r matches Err(error) && error == SignalError::InvalidCandidate,
        },
{
    match candidate {
        Some(c) => match to_json(c) {
            Ok(init) => Ok(Some(candidate_message(&init))),
            Err(_) => Err(SignalError::InvalidCandidate),
        },
        None => Ok(None),
    }
}

/// What is announced of a candidate is the line that stands for its own foundation, priority,
/// address, protocol, port, type, component, related address and related port, each unchanged and
/// whatever its identifier is. The line travels as it stands, and the client reads it from the
/// message for the first media section.
pub proof fn law_announcement_carries_the_candidate(c: LocalCandidate, line: Seq<char>)
    requires
        candidate_line(
            c.foundation@,
            c.priority,
            c.address@,
            c.protocol@,
            c.port,
            c.typ@,
            c.component,
            c.related_address@,
            c.related_port,
        ) == Some(line),
    ensures
        c.line() == Some(line),
        ({
            let value = candidate_json(announced(line));
            &&& value.member("candidate"@) == Json::Text(line)
            &&& value.member("sdpMid"@) == Json::Text(""@)
            &&& value.member("sdpMLineIndex"@) == Json::Number(JsonNumber::Unsigned(0))
            &&& client_reading(fields_of(value)) matches ClientReading::Candidate(read) && {
                &&& read.candidate == line
                &&& read.sdp_mid == Some(""@)
                &&& read.sdp_mline_index == Some(0u16)
            }
        }),
{
    law_candidate_messages_carry_their_candidate(announced(line));
    law_candidate_reaches_client(announced(line));
}

/// Candidates that differ in their identifier alone are announced by the same line.
pub proof fn law_identifier_plays_no_part(one: LocalCandidate, other: LocalCandidate)
    requires
        one.foundation@ == other.foundation@,
        one.priority == other.priority,
        one.address@ == other.address@,
        one.protocol@ == other.protocol@,
        one.port == other.port,
        one.typ@ == other.typ@,
        one.component == other.component,
        one.related_address@ == other.related_address@,
        one.related_port == other.related_port,
    ensures
        one.line() == other.line(),
        one.has_priority() == other.has_priority(),
{
}

/// Every candidate with a priority can be announced, and every one of a component up to 256.
pub proof fn law_what_can_be_announced(c: LocalCandidate)
    ensures
        c.has_priority() <==> (c.priority != 0 || c.component <= 256),
{
}

} // verus!
