use abide_vfs::clock::Timestamp;
use abide_vfs::connection::{
    perform, step, ConnectionAction, ConnectionEvent, ConnectionState,
};
use abide_vfs::session::SessionRegistry;

fn events() -> Vec<ConnectionEvent> {
    vec![
        ConnectionEvent::Accepted,
        ConnectionEvent::Sent,
        ConnectionEvent::SendFailed,
        ConnectionEvent::Text,
        ConnectionEvent::Other,
        ConnectionEvent::Closed,
        ConnectionEvent::Failed,
        ConnectionEvent::Ended,
    ]
}

fn run(events: &[ConnectionEvent]) -> (ConnectionState, Vec<ConnectionAction>) {
    let mut state = ConnectionState::Connecting;
    let mut actions = Vec::new();
    for event in events {
        let (next, action) = step(state, *event);
        state = next;
        actions.push(action);
    }
    (state, actions)
}

#[test]
fn accepted_connection_is_greeted_then_active() {
    assert_eq!(
        step(ConnectionState::Connecting, ConnectionEvent::Accepted),
        (ConnectionState::Connecting, ConnectionAction::Greet)
    );
    assert_eq!(
        step(ConnectionState::Connecting, ConnectionEvent::Sent),
        (ConnectionState::Active, ConnectionAction::Receive)
    );
}

#[test]
fn failed_greeting_ends_the_connection_and_unregisters() {
    assert_eq!(
        run(&[ConnectionEvent::Accepted, ConnectionEvent::SendFailed]),
        (ConnectionState::Terminated, vec![ConnectionAction::Greet, ConnectionAction::Unregister])
    );
}

#[test]
fn active_connection_answers_text_and_passes_over_the_rest() {
    assert_eq!(
        step(ConnectionState::Active, ConnectionEvent::Text),
        (ConnectionState::Active, ConnectionAction::Answer)
    );
    assert_eq!(
        step(ConnectionState::Active, ConnectionEvent::Sent),
        (ConnectionState::Active, ConnectionAction::Receive)
    );
    assert_eq!(
        step(ConnectionState::Active, ConnectionEvent::Other),
        (ConnectionState::Active, ConnectionAction::Receive)
    );
}

#[test]
fn every_end_unregisters() {
    for event in [
        ConnectionEvent::Closed,
        ConnectionEvent::Failed,
        ConnectionEvent::Ended,
        ConnectionEvent::SendFailed,
        ConnectionEvent::Accepted,
    ] {
        assert_eq!(
            step(ConnectionState::Active, event),
            (ConnectionState::Terminated, ConnectionAction::Unregister),
            "event {:?}",
            event
        );
    }
    for event in [
        ConnectionEvent::Closed,
        ConnectionEvent::Failed,
        ConnectionEvent::Ended,
        ConnectionEvent::SendFailed,
        ConnectionEvent::Text,
        ConnectionEvent::Other,
    ] {
        assert_eq!(
            step(ConnectionState::Connecting, event),
            (ConnectionState::Terminated, ConnectionAction::Unregister),
            "event {:?}",
            event
        );
    }
}

#[test]
fn terminated_connection_does_nothing() {
    for event in events() {
        assert_eq!(
            step(ConnectionState::Terminated, event),
            (ConnectionState::Terminated, ConnectionAction::Nothing)
        );
    }
}

#[test]
fn a_whole_conversation() {
    let (state, actions) = run(&[
        ConnectionEvent::Accepted,
        ConnectionEvent::Sent,
        ConnectionEvent::Text,
        ConnectionEvent::Sent,
        ConnectionEvent::Other,
        ConnectionEvent::Text,
        ConnectionEvent::SendFailed,
        ConnectionEvent::Text,
    ]);
    assert_eq!(state, ConnectionState::Terminated);
    assert_eq!(
        actions,
        vec![
            ConnectionAction::Greet,
            ConnectionAction::Receive,
            ConnectionAction::Answer,
            ConnectionAction::Receive,
            ConnectionAction::Receive,
            ConnectionAction::Answer,
            ConnectionAction::Unregister,
            ConnectionAction::Nothing,
        ]
    );
}

#[test]
fn unregister_comes_exactly_once_on_every_run_that_ends() {
    let all = events();
    for a in &all {
        for b in &all {
            for c in &all {
                let (state, actions) = run(&[ConnectionEvent::Accepted, *a, *b, *c]);
                let count = actions.iter().filter(|x| **x == ConnectionAction::Unregister).count();
                if state == ConnectionState::Terminated {
                    assert_eq!(count, 1);
                } else {
                    assert_eq!(count, 0);
                }
            }
        }
    }
}

#[test]
fn session_is_there_from_the_greeting_until_the_end() {
    let traces: Vec<Vec<ConnectionEvent>> = vec![
        vec![ConnectionEvent::Accepted, ConnectionEvent::SendFailed],
        vec![ConnectionEvent::Accepted, ConnectionEvent::Sent, ConnectionEvent::Closed],
        vec![ConnectionEvent::Accepted, ConnectionEvent::Sent, ConnectionEvent::Failed],
        vec![ConnectionEvent::Accepted, ConnectionEvent::Sent, ConnectionEvent::Ended],
        vec![
            ConnectionEvent::Accepted,
            ConnectionEvent::Sent,
            ConnectionEvent::Text,
            ConnectionEvent::SendFailed,
        ],
        vec![
            ConnectionEvent::Accepted,
            ConnectionEvent::Sent,
            ConnectionEvent::Text,
            ConnectionEvent::Sent,
            ConnectionEvent::Other,
            ConnectionEvent::Closed,
        ],
    ];
    for trace in traces {
        let mut registry = SessionRegistry::new();
        registry.create_with("other".to_string(), Timestamp { secs: 0, nanos: 0 });
        let mut state = ConnectionState::Connecting;
        for (i, event) in trace.iter().enumerate() {
            let (next, action) = step(state, *event);
            state = next;
            perform(&mut registry, action, "s", Timestamp { secs: i as i64 + 1, nanos: 0 });
            assert_eq!(registry.contains("s"), state != ConnectionState::Terminated);
            assert!(registry.contains("other"));
        }
        assert_eq!(state, ConnectionState::Terminated);
        assert!(!registry.contains("s"));
    }
}

#[test]
fn perform_records_the_activity_of_an_answer() {
    let mut registry = SessionRegistry::new();
    perform(&mut registry, ConnectionAction::Greet, "s", Timestamp { secs: 1, nanos: 0 });
    perform(&mut registry, ConnectionAction::Receive, "s", Timestamp { secs: 2, nanos: 0 });
    perform(&mut registry, ConnectionAction::Answer, "s", Timestamp { secs: 3, nanos: 0 });
    perform(&mut registry, ConnectionAction::Nothing, "s", Timestamp { secs: 4, nanos: 0 });
    let session = registry.get("s").unwrap();
    assert_eq!(session.connected_at, Timestamp { secs: 1, nanos: 0 });
    assert_eq!(session.last_activity, Timestamp { secs: 3, nanos: 0 });
    perform(&mut registry, ConnectionAction::Answer, "ghost", Timestamp { secs: 5, nanos: 0 });
    assert!(!registry.contains("ghost"));
}
