use webrtc_video::signal::{
    answer_message, candidate_message, client_signal, offer_message, read_fields, server_signal,
    ClientSignal, IceCandidateInit, ServerSignal, SignalError, SignalFields,
};

fn fields(kind: &str) -> SignalFields {
    SignalFields {
        kind: Some(kind.to_string()),
        sdp: None,
        candidate: None,
        sdp_mid: None,
        sdp_mline_index: None,
    }
}

fn read_by_client(text: &str) -> ClientSignal {
    client_signal(read_fields(text).unwrap()).unwrap()
}

fn read_by_server(text: &str) -> ServerSignal {
    server_signal(read_fields(text).unwrap()).unwrap()
}

#[test]
fn offer_text() {
    assert_eq!(offer_message("v=0"), "{\"sdp\":\"v=0\",\"type\":\"offer\"}");
}

#[test]
fn answer_text() {
    assert_eq!(
        answer_message("a\r\n\"b\""),
        "{\"sdp\":\"a\\r\\n\\\"b\\\"\",\"type\":\"answer\"}"
    );
}

#[test]
fn candidate_text() {
    let candidate = IceCandidateInit {
        candidate: "candidate:1".to_string(),
        sdp_mid: Some("0".to_string()),
        sdp_mline_index: Some(7),
        username_fragment: Some("left out".to_string()),
    };
    assert_eq!(
        candidate_message(&candidate),
        "{\"candidate\":\"candidate:1\",\"sdpMLineIndex\":7,\"sdpMid\":\"0\",\"type\":\"candidate\"}"
    );
}

#[test]
fn candidate_text_without_section() {
    let candidate = IceCandidateInit {
        candidate: String::new(),
        sdp_mid: None,
        sdp_mline_index: None,
        username_fragment: None,
    };
    assert_eq!(
        candidate_message(&candidate),
        "{\"candidate\":\"\",\"sdpMLineIndex\":null,\"sdpMid\":null,\"type\":\"candidate\"}"
    );
}

#[test]
fn client_reads_what_server_offers() {
    let sdp = "v=0\r\ns=\u{1F4E1} \"x\" \\ \u{0}\r\n";
    let text = offer_message(sdp);
    match read_by_client(&text) {
        ClientSignal::Offer(read) => assert_eq!(read, sdp),
        other => panic!("{other:?}"),
    }
    assert!(matches!(read_by_server(&text), ServerSignal::Ignored));
}

#[test]
fn server_reads_what_client_answers() {
    let text = answer_message("v=0\r\n");
    match read_by_server(&text) {
        ServerSignal::Answer(read) => assert_eq!(read, "v=0\r\n"),
        other => panic!("{other:?}"),
    }
    assert!(matches!(read_by_client(&text), ClientSignal::Ignored));
}

#[test]
fn client_reads_the_candidate_of_the_server() {
    let text = candidate_message(&IceCandidateInit {
        candidate: "candidate:9".to_string(),
        sdp_mid: Some(String::new()),
        sdp_mline_index: Some(65535),
        username_fragment: Some("left out".to_string()),
    });
    match read_by_client(&text) {
        ClientSignal::Candidate(c) => {
            assert_eq!(c.candidate, "candidate:9");
            assert_eq!(c.sdp_mid.as_deref(), Some(""));
            assert_eq!(c.sdp_mline_index, Some(65535));
            assert_eq!(c.username_fragment, None);
        }
        other => panic!("{other:?}"),
    }
    assert!(matches!(read_by_server(&text), ServerSignal::Ignored));
}

#[test]
fn line_index_keeps_its_low_bits() {
    let text = "{\"type\":\"candidate\",\"candidate\":\"c\",\"sdpMLineIndex\":65537}";
    match read_by_client(text) {
        ClientSignal::Candidate(c) => assert_eq!(c.sdp_mline_index, Some(1)),
        other => panic!("{other:?}"),
    }
}

#[test]
fn line_index_that_is_no_count_is_absent() {
    for index in ["-1", "1.5", "\"1\"", "null"] {
        let text = format!("{{\"type\":\"candidate\",\"candidate\":\"c\",\"sdpMLineIndex\":{index}}}");
        match read_by_client(&text) {
            ClientSignal::Candidate(c) => {
                assert_eq!(c.sdp_mline_index, None);
                assert_eq!(c.sdp_mid, None);
            }
            other => panic!("{other:?}"),
        }
    }
}

#[test]
fn text_that_is_no_json() {
    assert_eq!(read_fields("offer").unwrap_err(), SignalError::InvalidJson);
    assert_eq!(read_fields("").unwrap_err(), SignalError::InvalidJson);
}

#[test]
fn offer_without_sdp() {
    assert_eq!(client_signal(fields("offer")).unwrap_err(), SignalError::MissingSdp);
    let read = read_fields("{\"type\":\"offer\",\"sdp\":5}").unwrap();
    assert_eq!(client_signal(read).unwrap_err(), SignalError::MissingSdp);
}

#[test]
fn answer_without_sdp() {
    assert_eq!(server_signal(fields("answer")).unwrap_err(), SignalError::MissingSdp);
}

#[test]
fn candidate_without_candidate_is_passed_over() {
    assert!(matches!(client_signal(fields("candidate")), Ok(ClientSignal::Ignored)));
}

#[test]
fn other_values_are_passed_over() {
    for text in ["[]", "1", "null", "\"offer\"", "{}", "{\"type\":5}", "{\"type\":\"Offer\"}"] {
        assert!(matches!(read_by_client(text), ClientSignal::Ignored));
        assert!(matches!(read_by_server(text), ServerSignal::Ignored));
    }
}

#[test]
fn fields_are_read_by_their_keys() {
    let read = read_fields(
        "{\"type\":\"t\",\"sdp\":\"s\",\"candidate\":\"c\",\"sdpMid\":\"m\",\"sdpMLineIndex\":4}",
    )
    .unwrap();
    assert_eq!(read.kind.as_deref(), Some("t"));
    assert_eq!(read.sdp.as_deref(), Some("s"));
    assert_eq!(read.candidate.as_deref(), Some("c"));
    assert_eq!(read.sdp_mid.as_deref(), Some("m"));
    assert_eq!(read.sdp_mline_index, Some(4));
}
