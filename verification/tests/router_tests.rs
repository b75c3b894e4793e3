use pty_gateway::envelope::Envelope;
use pty_gateway::frames::Outgoing;
use pty_gateway::registry::Registry;
use pty_gateway::router::{create_session, handle_text, route};
use pty_gateway::session::{Session, SessionState, DEFAULT_COLS, DEFAULT_ROWS};

#[test]
fn input_envelope_yields_output_frames_containing_the_input() {
    let mut s = Session::new(1, 0);
    s.activate();
    let (env, outcome) = handle_text(&mut s, "{\"type\":\"input\",\"data\":\"echo hi\"}");
    assert_eq!(env, Envelope::Input { data: String::from("echo hi") });
    assert!(!outcome.teardown);
    match outcome.frame {
        Some(Outgoing::Output { data }) => {
            assert!(data.contains("hi"));
            assert!(data.starts_with("processed: echo hi\nsession "));
            assert!(data.ends_with("\n$ "));
        }
        other => panic!("expected an output frame, got {:?}", other),
    }
    assert_eq!(s.state, SessionState::Active);
}

#[test]
fn resize_envelope_returns_no_error_and_keeps_the_session_active() {
    let mut s = Session::new(2, 0);
    s.activate();
    let (env, outcome) = handle_text(&mut s, "{\"type\":\"resize\",\"cols\":80,\"rows\":24}");
    assert_eq!(env, Envelope::Resize { cols: 80, rows: 24 });
    assert!(outcome.frame.is_none());
    assert!(!outcome.teardown);
    assert_eq!(s.state, SessionState::Active);
    assert_eq!(s.cols, 80);
    assert_eq!(s.rows, 24);
}

#[test]
fn close_envelope_asks_for_teardown() {
    let mut s = Session::new(3, 0);
    s.activate();
    let (env, outcome) = handle_text(&mut s, "{\"type\":\"close\"}");
    assert_eq!(env, Envelope::Close);
    assert!(outcome.frame.is_none());
    assert!(outcome.teardown);
    assert_eq!(s.state, SessionState::Closing);
}

#[test]
fn malformed_text_draws_an_error_frame_and_stays_open() {
    let mut s = Session::new(4, 0);
    s.activate();
    let (env, outcome) = handle_text(&mut s, "this is not json");
    assert_eq!(env, Envelope::Malformed);
    assert!(!outcome.teardown);
    match outcome.frame {
        Some(Outgoing::Error { message }) => assert_eq!(message.as_str(), "malformed envelope"),
        other => panic!("expected an error frame, got {:?}", other),
    }
    assert_eq!(s.state, SessionState::Active);
}

#[test]
fn unknown_tag_draws_a_warning_frame_and_stays_open() {
    let mut s = Session::new(5, 0);
    s.activate();
    let (env, outcome) = handle_text(&mut s, "{\"type\":\"reboot\"}");
    assert_eq!(env, Envelope::Unknown { tag: String::from("reboot") });
    assert!(!outcome.teardown);
    match outcome.frame {
        Some(Outgoing::Error { message }) => {
            assert_eq!(message.as_str(), "unknown envelope type: reboot")
        }
        other => panic!("expected an error frame, got {:?}", other),
    }
    assert_eq!(s.state, SessionState::Active);
}

#[test]
fn input_to_a_dead_session_reports_session_dead() {
    let mut s = Session::new(6, 0);
    s.activate();
    s.terminate();
    let env = Envelope::Input { data: String::from("ls") };
    let outcome = route(&mut s, &env, "01:02:03 UTC", 7);
    assert!(!outcome.teardown);
    match outcome.frame {
        Some(Outgoing::Error { message }) => {
            assert_eq!(message.as_str(), "session is no longer alive")
        }
        other => panic!("expected an error frame, got {:?}", other),
    }
    assert_eq!(s.state, SessionState::Closed);
    assert_eq!(s.last_activity, 0);
}

#[test]
fn route_input_echoes_with_the_given_clock() {
    let mut s = Session::new(7, 0);
    s.activate();
    let env = Envelope::Input { data: String::from("pwd") };
    let outcome = route(&mut s, &env, "12:00:00 UTC", 9);
    match outcome.frame {
        Some(Outgoing::Output { data }) => {
            assert_eq!(
                data.as_str(),
                "processed: pwd\nsession 00000000-0000-0000-0000-000000000007\nat 12:00:00 UTC\n$ "
            )
        }
        other => panic!("expected an output frame, got {:?}", other),
    }
    assert_eq!(s.last_activity, 9);
}

#[test]
fn created_sessions_start_in_created_state() {
    let s = create_session();
    assert_eq!(s.state, SessionState::Created);
    assert_eq!(s.cols, DEFAULT_COLS);
    assert_eq!(s.rows, DEFAULT_ROWS);
    assert_eq!(s.created_at, s.last_activity);
}

#[test]
fn generated_identifiers_register_without_collision() {
    // a run of freshly generated sessions registers cleanly: every insert
    // succeeds, so every generated identifier was new
    let mut reg = Registry::new();
    for _ in 0..64 {
        let s = create_session();
        assert_eq!(reg.insert(s.id, s), Ok(()));
    }
    assert_eq!(reg.len(), 64);
}

#[test]
fn a_whole_session_lifecycle_holds_together() {
    let mut reg = Registry::new();
    let mut s = create_session();
    s.activate();
    let id = s.id;
    reg.insert(id, s).unwrap();

    // input is echoed back
    let (_, outcome) = handle_text(&mut s, "{\"type\":\"input\",\"data\":\"uptime\"}");
    assert!(matches!(outcome.frame, Some(Outgoing::Output { .. })));

    // a resize leaves the session alive
    let (_, outcome) = handle_text(&mut s, "{\"type\":\"resize\",\"cols\":100,\"rows\":40}");
    assert!(outcome.frame.is_none());
    assert_eq!(s.state, SessionState::Active);

    // an explicit close asks for teardown, and teardown finishes the job
    let (_, outcome) = handle_text(&mut s, "{\"type\":\"close\"}");
    assert!(outcome.teardown);
    assert_eq!(s.state, SessionState::Closing);
    reg.remove(id);
    reg.insert(id, s).unwrap();
    let gone = reg.teardown(id).unwrap();
    assert_eq!(gone.state, SessionState::Closed);
    assert_eq!(reg.len(), 0);
}

#[test]
fn abrupt_disconnect_cleanup_removes_entry_and_kills_the_process() {
    // the connection vanished: the one cleanup routine runs and the
    // registry entry is gone, the backing session terminated
    let mut reg = Registry::new();
    let mut s = create_session();
    s.activate();
    let id = s.id;
    reg.insert(id, s).unwrap();
    let gone = reg.teardown(id).unwrap();
    assert_eq!(gone.state, SessionState::Closed);
    assert!(!reg.contains(id));
    // cleanup under a racing second disconnect is a no-op
    assert_eq!(reg.teardown(id), None);
}
