use process_supervisor::error::SupervisorError;
use process_supervisor::event::{Event, LineKind, Payload};
use process_supervisor::lines::LineReader;
use process_supervisor::registry::Registry;
use process_supervisor::session::{Input, SessionStatus};
use process_supervisor::stream::{take_chunk, take_end, Stream};
use process_supervisor::supervisor::{accept_launch, build_args, cancel, LaunchOutcome};
use serde_json::{Number, Value};

#[test]
fn a_process_writes_one_json_line_and_exits_well() {
    let args = build_args("hello", None, None);
    assert_eq!(args[1], "hello");

    let mut registry = Registry::new();
    let mut spawned = accept_launch(&mut registry, LaunchOutcome::Launched { pid: 4242 }).unwrap();
    let mut events = vec![spawned.started];

    let mut out = LineReader::new();
    let mut err = LineReader::new();
    events.extend(take_chunk(&mut spawned.session, Stream::Stdout, &mut out, b"{\"x\":1}\n").events);
    events.extend(take_end(&mut spawned.session, Stream::Stdout, &mut out).events);
    events.extend(take_end(&mut spawned.session, Stream::Stderr, &mut err).events);
    events.extend(spawned.session.step(Input::Exited(Some(0))));

    let mut object = serde_json::Map::new();
    object.insert("x".to_string(), Value::Number(Number::from(1)));
    assert_eq!(
        events,
        vec![
            Event::Started { session_id: "session_4242".to_string(), pid: 4242 },
            Event::Progress {
                session_id: "session_4242".to_string(),
                payload: Payload::Structured(Value::Object(object)),
            },
            Event::Complete { session_id: "session_4242".to_string(), exit_code: 0 },
        ]
    );
    match &events[1] {
        Event::Progress { payload, .. } => {
            assert_eq!(payload.kind(), LineKind::StructuredData);
            assert_eq!(payload.kind().label(), "json");
        }
        other => panic!("not a progress event: {:?}", other),
    }
    assert!(events[2].success());
    assert_eq!(spawned.session.status(), SessionStatus::Completed);
}

#[test]
fn a_binary_that_does_not_exist_fails_the_spawn() {
    let mut registry = Registry::new();
    let outcome = LaunchOutcome::Failed { cause: "No such file or directory (os error 2)".to_string() };
    let result = accept_launch(&mut registry, outcome);
    match result {
        Err(SupervisorError::SpawnFailed { cause }) => {
            assert_eq!(cause, "No such file or directory (os error 2)");
        }
        other => panic!("not a failed spawn: {:?}", other),
    }
    assert_eq!(registry.active(), None);
    assert!(!cancel(&mut registry).cancelled);
}

#[test]
fn a_spawn_is_cancelled_at_once() {
    let mut registry = Registry::new();
    let mut spawned = accept_launch(&mut registry, LaunchOutcome::Launched { pid: 900 }).unwrap();
    let mut events = vec![spawned.started];

    let answer = cancel(&mut registry);
    assert!(answer.cancelled);
    assert_eq!(answer.pid, Some(900));
    assert_eq!(answer.reason, None);
    assert!(spawned.session.note_cancel(900));

    let mut out = LineReader::new();
    let mut err = LineReader::new();
    events.extend(take_end(&mut spawned.session, Stream::Stdout, &mut out).events);
    events.extend(take_end(&mut spawned.session, Stream::Stderr, &mut err).events);
    events.extend(spawned.session.step(Input::Exited(None)));

    assert_eq!(events.len(), 2);
    assert_eq!(events[0].name(), "started");
    assert_eq!(events[1], Event::Complete { session_id: "session_900".to_string(), exit_code: -1 });
    assert!(!events[1].success());
    assert_eq!(spawned.session.status(), SessionStatus::Cancelled);
}

#[test]
fn a_cancelled_process_may_leave_a_code_behind() {
    let mut registry = Registry::new();
    let mut spawned = accept_launch(&mut registry, LaunchOutcome::Launched { pid: 901 }).unwrap();
    let answer = cancel(&mut registry);
    spawned.session.note_cancel(answer.pid.unwrap());
    let events = spawned.session.run(vec![
        Input::StderrLine("terminated".to_string()),
        Input::StderrClosed,
        Input::StdoutClosed,
        Input::Exited(Some(143)),
    ]);
    assert_eq!(
        events,
        vec![
            Event::Error { session_id: "session_901".to_string(), message: "terminated".to_string() },
            Event::Complete { session_id: "session_901".to_string(), exit_code: 143 },
        ]
    );
    assert!(!events[1].success());
}
