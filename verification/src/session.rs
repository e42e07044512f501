//! What the session descriptions of an offer and of an answer are to the peer connections.
use vstd::prelude::*;

use crate::signal::SignalError;

verus! {

/// Why a negotiation is given up.
#[derive(Clone, Copy, Debug, PartialEq, Eq, Structural)]
pub enum SessionFault {
    /// A message of the other side cannot be used.
    Signal(SignalError),
    /// The peer connection or the WebSocket refused an action.
    ActionFailed,
}

/// A session description in the form that a peer connection takes.
#[verifier::external_type_specification]
#[verifier::external_body]
pub struct ExSessionDescription(
    webrtc::peer_connection::sdp::session_description::RTCSessionDescription,
);

/// What `RTCSessionDescription::offer` makes of a text, or nothing where it refuses the text.
pub uninterp spec fn offer_description(sdp: Seq<char>) -> Option<
    webrtc::peer_connection::sdp::session_description::RTCSessionDescription,
>;

/// What `RTCSessionDescription::answer` makes of a text, or nothing where it refuses the text.
pub uninterp spec fn answer_description(sdp: Seq<char>) -> Option<
    webrtc::peer_connection::sdp::session_description::RTCSessionDescription,
>;

/// Calls `webrtc::peer_connection::sdp::session_description::RTCSessionDescription::offer`, which
/// parses the text. Whether it succeeds, and with which description, depends on the text alone.
#[verifier::external_body]
pub(crate) fn describe_offer(sdp: String) -> (r: Result<
    webrtc::peer_connection::sdp::session_description::RTCSessionDescription,
    webrtc::Error,
>)
    ensures
        match r {
            Ok(description) => offer_description(sdp@) == Some(description),
            Err(_) => offer_description(sdp@) is None,
        },
{
    webrtc::peer_connection::sdp::session_description::RTCSessionDescription::offer(sdp)
}

/// Calls `webrtc::peer_connection::sdp::session_description::RTCSessionDescription::answer`, which
/// parses the text. Whether it succeeds, and with which description, depends on the text alone.
#[verifier::external_body]
pub(crate) fn describe_answer(sdp: String) -> (r: Result<
    webrtc::peer_connection::sdp::session_description::RTCSessionDescription,
    webrtc::Error,
>)
    ensures
        match r {
            Ok(description) => answer_description(sdp@) == Some(description),
            Err(_) => answer_description(sdp@) is None,
        },
{
    webrtc::peer_connection::sdp::session_description::RTCSessionDescription::answer(sdp)
}

} // verus!
