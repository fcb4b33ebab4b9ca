//! One supervised run of the process, as a state machine.
//!
//! A session is created when the process has been launched. The caller then
//! reports what it sees (a line on either output stream, the end of a stream,
//! the exit of the process, a cancellation request) and delivers the event,
//! if any, that each report gives rise to. The machine decides which reports
//! become events and when the single completion event is due: when both
//! streams have ended and the exit has been reported, in whatever order
//! these arrive.

use vstd::prelude::*;
use crate::classify::{classified, classify_line, json_value_of};
use crate::event::{exit_code_of, Event, EventView};
use crate::text::{decimal, decimal_string};

verus! {

/// The identifier of the session that supervises process `pid`.
pub open spec fn session_id_of(pid: u32) -> Seq<char> {
    "session_"@ + decimal(pid as nat)
}

/// The identifier of the session that supervises process `pid`: the word
/// `session_` followed by the identifier in decimal.
pub fn session_id(pid: u32) -> (id: String)
    ensures
        id@ == session_id_of(pid),
{
    let mut id = String::from_str("session_");
    let digits = decimal_string(pid);
    id.append(digits.as_str());
    id
}

/// Where a session stands in its life.
#[derive(Clone, Copy, Debug, PartialEq, Eq, Structural)]
pub enum SessionStatus {
    /// The process was launched and nothing has been heard of it yet.
    Started,
    /// Output, the end of a stream or the exit has been reported, and the
    /// session is not over.
    Running,
    /// The session is over and the process exited with code zero.
    Completed,
    /// The session is over and its termination had been requested before the
    /// process exited.
    Cancelled,
    /// The session is over and the process exited otherwise.
    Failed,
}

impl SessionStatus {
    /// The word that stands for the status.
    pub open spec fn label_spec(self) -> Seq<char> {
        match self {
            SessionStatus::Started => "started"@,
            SessionStatus::Running => "running"@,
            SessionStatus::Completed => "completed"@,
            SessionStatus::Cancelled => "cancelled"@,
            SessionStatus::Failed => "failed"@,
        }
    }

    /// The word that stands for the status in an answer.
    pub fn label(&self) -> (label: &'static str)
        ensures
            label@ == self.label_spec(),
    {
        match self {
            SessionStatus::Started => "started",
            SessionStatus::Running => "running",
            SessionStatus::Completed => "completed",
            SessionStatus::Cancelled => "cancelled",
            SessionStatus::Failed => "failed",
        }
    }
}

/// What is known of the exit of the process.
#[derive(Clone, Copy, Debug)]
pub enum ProcessExit {
    /// No exit has been reported.
    Pending,
    /// The process has exited, with this status, which is `None` where no
    /// exit code could be had.
    Reported(Option<i32>),
}

/// What the caller reports to a session.
#[derive(Debug)]
pub enum Input {
    /// A line was read from standard output.
    StdoutLine(String),
    /// A line was read from standard error.
    StderrLine(String),
    /// Standard output has ended, by its close or by a read error.
    StdoutClosed,
    /// Standard error has ended, by its close or by a read error.
    StderrClosed,
    /// The process has exited; `None` where no exit code could be had.
    Exited(Option<i32>),
    /// The termination of the process has been requested.
    CancelRequested,
}

/// A report with its text as a sequence of characters.
pub enum InputView {
    StdoutLine(Seq<char>),
    StderrLine(Seq<char>),
    StdoutClosed,
    StderrClosed,
    Exited(Option<i32>),
    CancelRequested,
}

impl View for Input {
    type V = InputView;

    open spec fn view(&self) -> InputView {
        match *self {
            Input::StdoutLine(line) => InputView::StdoutLine(line@),
            Input::StderrLine(line) => InputView::StderrLine(line@),
            Input::StdoutClosed => InputView::StdoutClosed,
            Input::StderrClosed => InputView::StderrClosed,
            Input::Exited(status) => InputView::Exited(status),
            Input::CancelRequested => InputView::CancelRequested,
        }
    }
}

/// The state of a session.
#[derive(Clone, Copy, Debug)]
pub struct SessionState {
    /// The identifier of the supervised process.
    pub pid: u32,
    /// Whether anything has been heard of the process.
    pub heard: bool,
    /// Whether standard output may still yield lines.
    pub stdout_open: bool,
    /// Whether standard error may still yield lines.
    pub stderr_open: bool,
    /// What is known of the exit.
    pub exit: ProcessExit,
    /// Whether termination was requested before the exit was reported.
    pub cancel_requested: bool,
}

impl SessionState {
    /// The state of a session whose process has just been launched.
    pub open spec fn initial(pid: u32) -> SessionState {
        SessionState {
            pid,
            heard: false,
            stdout_open: true,
            stderr_open: true,
            exit: ProcessExit::Pending,
            cancel_requested: false,
        }
    }

    /// Whether the session is over: both streams have ended and the exit has
    /// been reported.
    pub open spec fn finished(self) -> bool {
        !self.stdout_open && !self.stderr_open && self.exit is Reported
    }

    /// The exit code of a session whose exit has been reported.
    pub open spec fn exit_code(self) -> i32 {
        match self.exit {
            ProcessExit::Reported(status) => exit_code_of(status),
            ProcessExit::Pending => exit_code_of(None),
        }
    }

    /// Where the session stands.
    pub open spec fn status(self) -> SessionStatus {
        if self.finished() {
            if self.cancel_requested {
                SessionStatus::Cancelled
            } else if self.exit_code() == 0 {
                SessionStatus::Completed
            } else {
                SessionStatus::Failed
            }
        } else if self.heard {
            SessionStatus::Running
        } else {
            SessionStatus::Started
        }
    }

    /// The state that follows on a report.
    ///
    /// A line changes nothing but that the process has been heard of, and
    /// only while its stream is open. Of several exits the first counts. A
    /// cancellation request counts only before the exit.
    pub open spec fn next(self, input: InputView) -> SessionState {
        match input {
            InputView::StdoutLine(_) => if self.stdout_open {
                SessionState { heard: true, ..self }
            } else {
                self
            },
            InputView::StderrLine(_) => if self.stderr_open {
                SessionState { heard: true, ..self }
            } else {
                self
            },
            InputView::StdoutClosed => SessionState { heard: true, stdout_open: false, ..self },
            InputView::StderrClosed => SessionState { heard: true, stderr_open: false, ..self },
            InputView::Exited(status) => if self.exit is Pending {
                SessionState { heard: true, exit: ProcessExit::Reported(status), ..self }
            } else {
                self
            },
            InputView::CancelRequested => if self.exit is Pending {
                SessionState { cancel_requested: true, ..self }
            } else {
                self
            },
        }
    }

    /// The event that a report gives rise to, if any.
    ///
    /// A line read from an open stream becomes a progress or an error event.
    /// The report that ends the session becomes its completion event.
    /// Everything else passes in silence.
    pub open spec fn emits(self, input: InputView) -> Option<EventView> {
        match input {
            InputView::StdoutLine(line) => if self.stdout_open {
                Some(
                    EventView::Progress {
                        session_id: session_id_of(self.pid),
                        kind: classified(line, json_value_of(line)).kind(),
                        payload: classified(line, json_value_of(line)),
                    },
                )
            } else {
                None
            },
            InputView::StderrLine(line) => if self.stderr_open {
                Some(EventView::Error { session_id: session_id_of(self.pid), message: line })
            } else {
                None
            },
            _ => if !self.finished() && self.next(input).finished() {
                Some(
                    EventView::Complete {
                        session_id: session_id_of(self.pid),
                        exit_code: self.next(input).exit_code(),
                        success: self.next(input).exit_code() == 0,
                    },
                )
            } else {
                None
            },
        }
    }
}

impl SessionState {
    /// The state that follows on a sequence of reports, taken in order.
    pub open spec fn after(self, inputs: Seq<InputView>) -> SessionState
        decreases inputs.len(),
    {
        if inputs.len() == 0 {
            self
        } else {
            self.after(inputs.drop_last()).next(inputs.last())
        }
    }

    /// The events that a sequence of reports gives rise to, in the order in
    /// which they are emitted.
    pub open spec fn events(self, inputs: Seq<InputView>) -> Seq<EventView>
        decreases inputs.len(),
    {
        if inputs.len() == 0 {
            Seq::empty()
        } else {
            let before = self.events(inputs.drop_last());
            match self.after(inputs.drop_last()).emits(inputs.last()) {
                Some(event) => before.push(event),
                None => before,
            }
        }
    }
}

/// Reports taken in two parts give what they give when taken at once: the
/// same state and the same events in the same order. So whatever holds of a
/// session after a sequence of reports holds of it however the caller hands
/// the reports over.
pub proof fn lemma_reports_in_parts(state: SessionState, first: Seq<InputView>, second: Seq<InputView>)
    ensures
        state.after(first + second) == state.after(first).after(second),
        state.events(first + second) == state.events(first) + state.after(first).events(second),
    decreases second.len(),
{
    if second.len() == 0 {
        assert(first + second =~= first);
        assert(state.events(first) + state.after(first).events(second) =~= state.events(first));
    } else {
        let init = second.drop_last();
        lemma_reports_in_parts(state, first, init);
        assert((first + second).drop_last() =~= first + init);
        assert((first + second).last() == second.last());
        match state.after(first + init).emits(second.last()) {
            Some(event) => {
                assert(state.events(first + second) =~= state.events(first) + state.after(
                    first,
                ).events(second));
            },
            None => {},
        }
    }
}

/// A cancellation request never becomes an event, and it leaves the streams
/// and the exit of the session as they are.
pub proof fn lemma_cancel_request_is_silent(state: SessionState)
    ensures
        state.emits(InputView::CancelRequested) is None,
        state.next(InputView::CancelRequested).finished() == state.finished(),
        state.next(InputView::CancelRequested).stdout_open == state.stdout_open,
        state.next(InputView::CancelRequested).stderr_open == state.stderr_open,
        state.next(InputView::CancelRequested).exit == state.exit,
{
}

/// The event that announces the session of process `pid`.
pub open spec fn started_event(pid: u32) -> EventView {
    EventView::Started { session_id: session_id_of(pid), pid }
}

/// The view of an event that may be absent.
pub open spec fn event_view(event: Option<Event>) -> Option<EventView> {
    match event {
        Some(event) => Some(event@),
        None => None,
    }
}

/// The views of a sequence of events.
pub open spec fn event_views(events: Seq<Event>) -> Seq<EventView> {
    events.map_values(|event: Event| event@)
}

/// The views of a sequence of reports.
pub open spec fn input_views(inputs: Seq<Input>) -> Seq<InputView> {
    inputs.map_values(|input: Input| input@)
}

/// A supervised run of one process.
#[derive(Debug)]
pub struct Session {
    state: SessionState,
}

impl View for Session {
    type V = SessionState;

    closed spec fn view(&self) -> SessionState {
        self.state
    }
}

impl Session {
    /// Opens the session of the process `pid`, which has just been launched,
    /// and gives the event that announces it.
    pub fn start(pid: u32) -> (opened: (Session, Event))
        ensures
            opened.0@ == SessionState::initial(pid),
            opened.1@ == started_event(pid),
    {
        let state = SessionState {
            pid,
            heard: false,
            stdout_open: true,
            stderr_open: true,
            exit: ProcessExit::Pending,
            cancel_requested: false,
        };
        (Session { state }, Event::Started { session_id: session_id(pid), pid })
    }

    /// The identifier of the supervised process.
    pub fn pid(&self) -> (pid: u32)
        ensures
            pid == self@.pid,
    {
        self.state.pid
    }

    /// The identifier of the session.
    pub fn id(&self) -> (id: String)
        ensures
            id@ == session_id_of(self@.pid),
    {
        session_id(self.state.pid)
    }

    /// The state of the session.
    pub fn state(&self) -> (state: SessionState)
        ensures
            state == self@,
    {
        self.state
    }

    /// Whether the session is over.
    pub fn is_finished(&self) -> (finished: bool)
        ensures
            finished == self@.finished(),
    {
        !self.state.stdout_open && !self.state.stderr_open && match self.state.exit {
            ProcessExit::Reported(_) => true,
            ProcessExit::Pending => false,
        }
    }

    /// Where the session stands.
    pub fn status(&self) -> (status: SessionStatus)
        ensures
            status == self@.status(),
    {
        if self.is_finished() {
            let code: i32 = match self.state.exit {
                ProcessExit::Reported(Some(code)) => code,
                _ => crate::event::NO_EXIT_CODE,
            };
            if self.state.cancel_requested {
                SessionStatus::Cancelled
            } else if code == 0 {
                SessionStatus::Completed
            } else {
                SessionStatus::Failed
            }
        } else if self.state.heard {
            SessionStatus::Running
        } else {
            SessionStatus::Started
        }
    }

    /// Takes a report, moves to the state that follows on it, and returns the
    /// event that the caller has to deliver for it, if any.
    pub fn step(&mut self, input: Input) -> (event: Option<Event>)
        ensures
            final(self)@ == old(self)@.next(input@),
            event_view(event) == old(self)@.emits(input@),
    {
        let was_finished = self.is_finished();
        match input {
            Input::StdoutLine(line) => {
                if self.state.stdout_open {
                    self.state.heard = true;
                    let payload = classify_line(line);
                    Some(Event::Progress { session_id: session_id(self.state.pid), payload })
                } else {
                    None
                }
            },
            Input::StderrLine(line) => {
                if self.state.stderr_open {
                    self.state.heard = true;
                    Some(Event::Error { session_id: session_id(self.state.pid), message: line })
                } else {
                    None
                }
            },
            Input::StdoutClosed => {
                self.state.heard = true;
                self.state.stdout_open = false;
                self.completion_if_due(was_finished)
            },
            Input::StderrClosed => {
                self.state.heard = true;
                self.state.stderr_open = false;
                self.completion_if_due(was_finished)
            },
            Input::Exited(status) => {
                match self.state.exit {
                    ProcessExit::Pending => {
                        self.state.heard = true;
                        self.state.exit = ProcessExit::Reported(status);
                    },
                    ProcessExit::Reported(_) => {},
                }
                self.completion_if_due(was_finished)
            },
            Input::CancelRequested => {
                match self.state.exit {
                    ProcessExit::Pending => {
                        self.state.cancel_requested = true;
                    },
                    ProcessExit::Reported(_) => {},
                }
                None
            },
        }
    }

    /// Records that the termination of process `pid` has been requested, if
    /// that is the process of this session, and says whether it is. The
    /// request of another process leaves the session as it is.
    pub fn note_cancel(&mut self, pid: u32) -> (mine: bool)
        ensures
            mine == (pid == old(self)@.pid),
            final(self)@ == if mine {
                old(self)@.next(InputView::CancelRequested)
            } else {
                old(self)@
            },
    {
        if pid == self.state.pid {
            let silent = self.step(Input::CancelRequested);
            true
        } else {
            false
        }
    }

    /// Takes a sequence of reports in order and returns the events that the
    /// caller has to deliver, in the order in which they are due.
    pub fn run(&mut self, inputs: Vec<Input>) -> (events: Vec<Event>)
        ensures
            final(self)@ == old(self)@.after(input_views(inputs@)),
            event_views(events@) == old(self)@.events(input_views(inputs@)),
    {
        let mut events: Vec<Event> = Vec::new();
        let ghost all = input_views(inputs@);
        proof {
            assert(all.take(0) =~= Seq::<InputView>::empty());
            assert(event_views(events@) =~= Seq::<EventView>::empty());
        }
        for input in it: inputs
            invariant
                all == input_views(it.seq()),
                self@ == old(self)@.after(all.take(it.index() as int)),
                event_views(events@) == old(self)@.events(all.take(it.index() as int)),
        {
            let ghost done = all.take(it.index() as int);
            let ghost before = events@;
            proof {
                assert(all.take(it.index() as int + 1) =~= done.push(input@));
                assert(done.push(input@).drop_last() =~= done);
            }
            match self.step(input) {
                Some(event) => {
                    events.push(event);
                    assert(event_views(events@) =~= event_views(before).push(event@));
                },
                None => {},
            }
        }
        proof {
            assert(all.take(all.len() as int) =~= all);
        }
        events
    }

    fn completion_if_due(&self, was_finished: bool) -> (event: Option<Event>)
        ensures
            !was_finished && self@.finished() ==> event_view(event) == Some(
                EventView::Complete {
                    session_id: session_id_of(self@.pid),
                    exit_code: self@.exit_code(),
                    success: self@.exit_code() == 0,
                },
            ),
            was_finished || !self@.finished() ==> event is None,
    {
        if !was_finished && self.is_finished() {
            let status: Option<i32> = match self.state.exit {
                ProcessExit::Reported(status) => status,
                ProcessExit::Pending => None,
            };
            Some(Event::completion(session_id(self.state.pid), status))
        } else {
            None
        }
    }
}

} // verus!
