use pty_gateway::registry::Registry;
use pty_gateway::session::{Session, SessionState};
use pty_gateway::GatewayError;

#[test]
fn insert_then_lookup_finds_the_session() {
    let mut reg = Registry::new();
    assert_eq!(reg.len(), 0);
    let s = Session::new(7, 0);
    assert_eq!(reg.insert(7, s), Ok(()));
    assert_eq!(reg.len(), 1);
    assert!(reg.contains(7));
    assert_eq!(reg.lookup(7), Some(s));
}

#[test]
fn lookup_of_an_absent_identifier_is_not_found() {
    let reg = Registry::new();
    assert_eq!(reg.lookup(42), None);
    assert!(!reg.contains(42));
}

#[test]
fn duplicate_insert_fails_and_changes_nothing() {
    let mut reg = Registry::new();
    let first = Session::new(7, 0);
    let mut second = Session::new(7, 1);
    second.activate();
    assert_eq!(reg.insert(7, first), Ok(()));
    assert_eq!(reg.insert(7, second), Err(GatewayError::DuplicateSession));
    assert_eq!(reg.len(), 1);
    // the original entry survived
    assert_eq!(reg.lookup(7), Some(first));
}

#[test]
fn remove_twice_has_the_same_effect_as_once() {
    let mut reg = Registry::new();
    let s = Session::new(3, 0);
    reg.insert(3, s).unwrap();
    assert_eq!(reg.remove(3), Some(s));
    assert_eq!(reg.len(), 0);
    assert!(!reg.contains(3));
    // removing again: same observable state, nothing returned
    assert_eq!(reg.remove(3), None);
    assert_eq!(reg.len(), 0);
    assert!(!reg.contains(3));
}

#[test]
fn teardown_removes_the_entry_and_terminates_the_session() {
    let mut reg = Registry::new();
    let mut s = Session::new(5, 0);
    s.activate();
    reg.insert(5, s).unwrap();
    let gone = reg.teardown(5).unwrap();
    assert_eq!(gone.state, SessionState::Closed);
    assert!(!reg.contains(5));
    assert_eq!(reg.len(), 0);
    // teardown is idempotent
    assert_eq!(reg.teardown(5), None);
    assert_eq!(reg.len(), 0);
}

#[test]
fn entries_are_independent_across_sessions() {
    let mut reg = Registry::new();
    let mut a = Session::new(1, 0);
    a.activate();
    let mut b = Session::new(2, 0);
    b.activate();
    reg.insert(1, a).unwrap();
    reg.insert(2, b).unwrap();
    reg.teardown(1);
    // tearing one session down leaves the other untouched
    assert!(!reg.contains(1));
    assert_eq!(reg.lookup(2), Some(b));
    assert_eq!(reg.len(), 1);
}
