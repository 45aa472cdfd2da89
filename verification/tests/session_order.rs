//! A session yields its snapshots in the exact order they arrive, then the
//! terminal absent value, and keeps reporting the end once it is reached.

use simetry::{GenericMoment, Moment, ScriptedSession, Simetry};

fn snapshot_with_id(id: &str) -> GenericMoment {
    let mut m = GenericMoment::unsupported();
    m.vehicle_unique_id = Some(String::from(id));
    m
}

#[test]
fn snapshots_come_in_order_then_the_terminal_absent_value() {
    let script = vec![snapshot_with_id("s1"), snapshot_with_id("s2"), snapshot_with_id("s3")];
    let mut session = ScriptedSession::new(String::from("demo"), script);

    let first = session.next_moment().expect("the first snapshot");
    assert_eq!(first.vehicle_unique_id().as_deref(), Some("s1"));
    let second = session.next_moment().expect("the second snapshot");
    assert_eq!(second.vehicle_unique_id().as_deref(), Some("s2"));
    let third = session.next_moment().expect("the third snapshot");
    assert_eq!(third.vehicle_unique_id().as_deref(), Some("s3"));

    assert!(session.next_moment().is_none());
    // The terminal absent value is idempotent: nothing is reordered or
    // resurrected by asking again.
    assert!(session.next_moment().is_none());
    assert!(session.next_moment().is_none());
}

#[test]
fn name_is_stable_for_the_session_lifetime() {
    let mut session = ScriptedSession::new(String::from("demo sim"), vec![
        snapshot_with_id("s1"),
    ]);
    assert_eq!(session.name(), "demo sim");
    let _ = session.next_moment();
    assert_eq!(session.name(), "demo sim");
    let _ = session.next_moment();
    assert_eq!(session.name(), "demo sim");
}

#[test]
fn empty_script_terminates_at_once() {
    let mut session = ScriptedSession::new(String::from("demo"), Vec::new());
    assert!(session.next_moment().is_none());
}
