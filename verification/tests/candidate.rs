use webrtc_video::candidate::{announce_candidate, LocalCandidate};
use webrtc_video::signal::{client_signal, read_fields, ClientSignal, SignalError};

fn host() -> LocalCandidate {
    LocalCandidate {
        stats_id: "id".to_string(),
        foundation: "77".to_string(),
        priority: 2130706431,
        address: "192.0.2.1".to_string(),
        protocol: "udp".to_string(),
        port: 4444,
        typ: "host".to_string(),
        component: 1,
        related_address: String::new(),
        related_port: 0,
    }
}

fn line(candidate: LocalCandidate) -> String {
    let text = announce_candidate(Some(candidate)).unwrap().unwrap();
    match client_signal(read_fields(&text).unwrap()).unwrap() {
        ClientSignal::Candidate(c) => {
            assert_eq!(c.sdp_mid.as_deref(), Some(""));
            assert_eq!(c.sdp_mline_index, Some(0));
            assert_eq!(c.username_fragment, None);
            c.candidate
        }
        other => panic!("{other:?}"),
    }
}

#[test]
fn host_candidate_line() {
    assert_eq!(line(host()), "candidate:77 1 udp 2130706431 192.0.2.1 4444 typ host");
}

#[test]
fn reflexive_candidate_line() {
    let candidate = LocalCandidate {
        typ: "srflx".to_string(),
        related_address: "10.0.0.1".to_string(),
        related_port: 5,
        ..host()
    };
    assert_eq!(
        line(candidate),
        "candidate:77 1 udp 2130706431 192.0.2.1 4444 typ srflx raddr 10.0.0.1 rport 5"
    );
}

#[test]
fn missing_priority_is_computed() {
    let candidate = LocalCandidate { priority: 0, component: 256, ..host() };
    assert_eq!(line(candidate), "candidate:77 256 udp 2130706176 192.0.2.1 4444 typ host");
}

#[test]
fn identifier_plays_no_part() {
    let candidate = LocalCandidate { stats_id: "other".to_string(), ..host() };
    assert_eq!(line(candidate), line(host()));
}

#[test]
fn announcement_text() {
    assert_eq!(
        announce_candidate(Some(host())).unwrap().unwrap(),
        "{\"candidate\":\"candidate:77 1 udp 2130706431 192.0.2.1 4444 typ host\",\"sdpMLineIndex\":0,\"sdpMid\":\"\",\"type\":\"candidate\"}"
    );
}

#[test]
fn end_of_gathering_is_not_announced() {
    assert_eq!(announce_candidate(None), Ok(None));
}

#[test]
fn candidate_without_textual_form() {
    let unknown = LocalCandidate { typ: "somewhere".to_string(), ..host() };
    assert_eq!(announce_candidate(Some(unknown)), Err(SignalError::InvalidCandidate));
    let nowhere = LocalCandidate { address: "nowhere".to_string(), ..host() };
    assert_eq!(announce_candidate(Some(nowhere)), Err(SignalError::InvalidCandidate));
}
