use pty_gateway::frames::{
    error_message, frame_json, frames_for_output, unknown_tag_message, welcome_message, Outgoing,
};
use pty_gateway::GatewayError;

#[test]
fn output_frame_has_the_exact_wire_form() {
    let f = Outgoing::Output { data: String::from("hi") };
    assert_eq!(frame_json(&f).as_str(), "{\"type\":\"output\",\"data\":\"hi\"}");
}

#[test]
fn error_frame_has_the_exact_wire_form() {
    let f = Outgoing::Error { message: String::from("bad") };
    assert_eq!(
        frame_json(&f).as_str(),
        "{\"type\":\"error\",\"message\":\"bad\"}"
    );
}

#[test]
fn frame_payloads_are_quoted_with_escapes() {
    // a payload holding a quote and a newline must come out escaped,
    // not pasted in verbatim
    let f = Outgoing::Output { data: String::from("a\"b\nc") };
    assert_eq!(
        frame_json(&f).as_str(),
        "{\"type\":\"output\",\"data\":\"a\\\"b\\nc\"}"
    );
}

#[test]
fn output_frames_keep_the_order_chunks_were_produced_in() {
    let chunks = vec![
        String::from("first"),
        String::from("second"),
        String::from("third"),
    ];
    let frames = frames_for_output(&chunks);
    assert_eq!(frames.len(), 3);
    for (i, f) in frames.iter().enumerate() {
        match f {
            Outgoing::Output { data } => assert_eq!(data, &chunks[i]),
            Outgoing::Error { .. } => panic!("no error frame belongs here"),
        }
    }
}

#[test]
fn welcome_message_names_the_session() {
    assert_eq!(
        welcome_message(5).as_str(),
        "session 00000000-0000-0000-0000-000000000005\n$ "
    );
}

#[test]
fn every_error_has_its_notice() {
    assert_eq!(
        error_message(GatewayError::SessionDead).as_str(),
        "session is no longer alive"
    );
    assert_eq!(
        error_message(GatewayError::MalformedEnvelope).as_str(),
        "malformed envelope"
    );
    assert_eq!(
        error_message(GatewayError::DuplicateSession).as_str(),
        "session identifier already registered"
    );
    assert_eq!(
        error_message(GatewayError::HandshakeFailure).as_str(),
        "handshake failed"
    );
    assert_eq!(
        error_message(GatewayError::SpawnFailure).as_str(),
        "could not spawn the session process"
    );
    assert_eq!(
        error_message(GatewayError::TransportError).as_str(),
        "transport error"
    );
}

#[test]
fn unknown_tag_warning_names_the_tag() {
    assert_eq!(
        unknown_tag_message("reboot").as_str(),
        "unknown envelope type: reboot"
    );
}
