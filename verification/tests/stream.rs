use process_supervisor::event::{Event, Payload};
use process_supervisor::lines::LineReader;
use process_supervisor::session::{Session, SessionStatus};
use process_supervisor::stream::{take_chunk, take_end, take_failure, Stream};
use serde_json::{Number, Value};

fn progress(pid: u32, payload: Payload) -> Event {
    Event::Progress { session_id: format!("session_{}", pid), payload }
}

fn error(pid: u32, message: &str) -> Event {
    Event::Error { session_id: format!("session_{}", pid), message: message.to_string() }
}

#[test]
fn lines_of_standard_output_become_progress_events() {
    let (mut session, _) = Session::start(5);
    let mut reader = LineReader::new();
    let drained = take_chunk(&mut session, Stream::Stdout, &mut reader, b"plain\n[1]\npart");
    assert!(!drained.failed);
    assert_eq!(
        drained.events,
        vec![
            progress(5, Payload::Raw("plain".to_string())),
            progress(5, Payload::Structured(Value::Array(vec![Value::Number(Number::from(1))]))),
        ]
    );
    assert_eq!(session.status(), SessionStatus::Running);
}

#[test]
fn lines_of_standard_error_become_error_events() {
    let (mut session, _) = Session::start(5);
    let mut reader = LineReader::new();
    let drained = take_chunk(&mut session, Stream::Stderr, &mut reader, b"warn: x\r\n{\"a\":1}\n");
    assert_eq!(drained.events, vec![error(5, "warn: x"), error(5, "{\"a\":1}")]);
}

#[test]
fn a_chunk_without_a_line_feed_gives_no_event() {
    let (mut session, _) = Session::start(5);
    let mut reader = LineReader::new();
    let drained = take_chunk(&mut session, Stream::Stdout, &mut reader, b"no end yet");
    assert!(drained.events.is_empty());
    assert_eq!(session.status(), SessionStatus::Started);
}

#[test]
fn the_end_of_a_stream_hands_out_the_last_line() {
    let (mut session, _) = Session::start(5);
    let mut reader = LineReader::new();
    take_chunk(&mut session, Stream::Stdout, &mut reader, b"one\ntwo");
    let drained = take_end(&mut session, Stream::Stdout, &mut reader);
    assert!(!drained.failed);
    assert_eq!(drained.events, vec![progress(5, Payload::Raw("two".to_string()))]);
    assert!(!session.state().stdout_open);
    assert!(session.state().stderr_open);
}

#[test]
fn the_last_end_completes_the_session() {
    let (mut session, _) = Session::start(5);
    let mut out = LineReader::new();
    let mut err = LineReader::new();
    session.step(process_supervisor::session::Input::Exited(Some(0)));
    assert!(take_end(&mut session, Stream::Stderr, &mut err).events.is_empty());
    take_chunk(&mut session, Stream::Stdout, &mut out, b"tail");
    let drained = take_end(&mut session, Stream::Stdout, &mut out);
    assert_eq!(
        drained.events,
        vec![
            progress(5, Payload::Raw("tail".to_string())),
            Event::Complete { session_id: "session_5".to_string(), exit_code: 0 },
        ]
    );
}

#[test]
fn a_line_that_cannot_be_read_ends_the_stream() {
    let (mut session, _) = Session::start(5);
    let mut reader = LineReader::new();
    let drained = take_chunk(&mut session, Stream::Stdout, &mut reader, b"ok\n\xff\nlost\n");
    assert!(drained.failed);
    assert_eq!(drained.events, vec![progress(5, Payload::Raw("ok".to_string()))]);
    assert!(!session.state().stdout_open);
    assert!(reader.is_stopped());
    let after = take_chunk(&mut session, Stream::Stdout, &mut reader, b"more\n");
    assert!(after.events.is_empty());
    assert!(!after.failed);
    let end = take_end(&mut session, Stream::Stdout, &mut reader);
    assert!(end.events.is_empty());
}

#[test]
fn a_broken_stream_does_not_stop_its_sibling() {
    let (mut session, _) = Session::start(5);
    let mut out = LineReader::new();
    let mut err = LineReader::new();
    assert!(take_chunk(&mut session, Stream::Stdout, &mut out, b"\x80\n").failed);
    let drained = take_chunk(&mut session, Stream::Stderr, &mut err, b"still here\n");
    assert_eq!(drained.events, vec![error(5, "still here")]);
    take_end(&mut session, Stream::Stderr, &mut err);
    let done = session.step(process_supervisor::session::Input::Exited(Some(2)));
    assert_eq!(done, Some(Event::Complete { session_id: "session_5".to_string(), exit_code: 2 }));
}

#[test]
fn a_read_error_drops_what_was_pending() {
    let (mut session, _) = Session::start(5);
    let mut reader = LineReader::new();
    take_chunk(&mut session, Stream::Stderr, &mut reader, b"seen\nunfinished");
    let events = take_failure(&mut session, Stream::Stderr, &mut reader);
    assert!(events.is_empty());
    assert!(!session.state().stderr_open);
    assert!(reader.is_stopped());
}

#[test]
fn a_read_error_on_the_last_open_stream_completes_the_session() {
    let (mut session, _) = Session::start(5);
    let mut out = LineReader::new();
    let mut err = LineReader::new();
    take_end(&mut session, Stream::Stdout, &mut out);
    session.step(process_supervisor::session::Input::Exited(None));
    let events = take_failure(&mut session, Stream::Stderr, &mut err);
    assert_eq!(events, vec![Event::Complete { session_id: "session_5".to_string(), exit_code: -1 }]);
}

#[test]
fn a_last_line_that_cannot_be_read_still_ends_the_stream() {
    let (mut session, _) = Session::start(5);
    let mut reader = LineReader::new();
    take_chunk(&mut session, Stream::Stdout, &mut reader, b"\xe2\x82");
    let drained = take_end(&mut session, Stream::Stdout, &mut reader);
    assert!(drained.failed);
    assert!(drained.events.is_empty());
    assert!(!session.state().stdout_open);
}
