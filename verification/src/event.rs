//! The events that a supervised session hands to its observers.

use vstd::prelude::*;

verus! {

/// Makes `serde_json::Value` known to the verifier, as a type of which
/// nothing is known but that it has values.
#[verifier::external_type_specification]
#[verifier::external_body]
pub struct ExJsonValue(serde_json::Value);

/// How a line of standard output was understood.
#[derive(Clone, Copy, Debug, PartialEq, Eq, Structural)]
pub enum LineKind {
    /// The line is a JSON text; the payload is the parsed value.
    StructuredData,
    /// The line is anything else; the payload is the line itself.
    RawText,
}

/// What a progress event carries.
#[derive(Debug, PartialEq)]
pub enum Payload {
    /// The value that the line denotes.
    Structured(serde_json::Value),
    /// The line as it was read.
    Raw(String),
}

/// A payload with its text as a sequence of characters.
pub enum PayloadView {
    Structured(serde_json::Value),
    Raw(Seq<char>),
}

impl View for Payload {
    type V = PayloadView;

    open spec fn view(&self) -> PayloadView {
        match *self {
            Payload::Structured(value) => PayloadView::Structured(value),
            Payload::Raw(text) => PayloadView::Raw(text@),
        }
    }
}

impl PayloadView {
    /// The kind that goes with the payload.
    pub open spec fn kind(self) -> LineKind {
        match self {
            PayloadView::Structured(_) => LineKind::StructuredData,
            PayloadView::Raw(_) => LineKind::RawText,
        }
    }
}

/// The exit code reported when the process left none behind, as when a
/// signal ended it.
pub const NO_EXIT_CODE: i32 = -1;

/// The exit code that a completion event reports for an exit status.
pub open spec fn exit_code_of(status: Option<i32>) -> i32 {
    match status {
        Some(code) => code,
        None => NO_EXIT_CODE,
    }
}

/// One event of a session.
#[derive(Debug, PartialEq)]
pub enum Event {
    /// The process was launched.
    Started { session_id: String, pid: u32 },
    /// The process wrote a line to standard output.
    Progress { session_id: String, payload: Payload },
    /// The process wrote a line to standard error.
    Error { session_id: String, message: String },
    /// The process has exited and both of its output streams are drained.
    Complete { session_id: String, exit_code: i32 },
}

/// An event as a mathematical value, with the attributes that follow from
/// its fields written out.
pub enum EventView {
    Started { session_id: Seq<char>, pid: u32 },
    Progress { session_id: Seq<char>, kind: LineKind, payload: PayloadView },
    Error { session_id: Seq<char>, message: Seq<char> },
    Complete { session_id: Seq<char>, exit_code: i32, success: bool },
}

impl View for Event {
    type V = EventView;

    open spec fn view(&self) -> EventView {
        match *self {
            Event::Started { session_id, pid } => EventView::Started { session_id: session_id@, pid },
            Event::Progress { session_id, payload } => EventView::Progress {
                session_id: session_id@,
                kind: payload@.kind(),
                payload: payload@,
            },
            Event::Error { session_id, message } => EventView::Error {
                session_id: session_id@,
                message: message@,
            },
            Event::Complete { session_id, exit_code } => EventView::Complete {
                session_id: session_id@,
                exit_code,
                success: exit_code == 0,
            },
        }
    }
}

impl EventView {
    /// The session that the event belongs to.
    pub open spec fn session_id(self) -> Seq<char> {
        match self {
            EventView::Started { session_id, .. } => session_id,
            EventView::Progress { session_id, .. } => session_id,
            EventView::Error { session_id, .. } => session_id,
            EventView::Complete { session_id, .. } => session_id,
        }
    }

    /// The name under which observers know the event, which is also the name
    /// of the channel that carries it.
    pub open spec fn name(self) -> Seq<char> {
        match self {
            EventView::Started { .. } => "started"@,
            EventView::Progress { .. } => "progress"@,
            EventView::Error { .. } => "error"@,
            EventView::Complete { .. } => "complete"@,
        }
    }
}

/// A completion event tells of success exactly when its exit code is zero.
pub proof fn lemma_success_means_exit_code_zero(event: Event)
    ensures
        event@ matches EventView::Complete { exit_code, success, .. } ==> (success <==> exit_code
            == 0),
{
}

impl LineKind {
    /// The word that stands for the kind in a progress event.
    pub open spec fn label_spec(self) -> Seq<char> {
        match self {
            LineKind::StructuredData => "json"@,
            LineKind::RawText => "text"@,
        }
    }

    /// The word that stands for the kind in a progress event: `json` or `text`.
    pub fn label(&self) -> (label: &'static str)
        ensures
            label@ == self.label_spec(),
    {
        match self {
            LineKind::StructuredData => "json",
            LineKind::RawText => "text",
        }
    }
}

impl Payload {
    /// The kind that goes with the payload.
    pub fn kind(&self) -> (kind: LineKind)
        ensures
            kind == self@.kind(),
    {
        match self {
            Payload::Structured(_) => LineKind::StructuredData,
            Payload::Raw(_) => LineKind::RawText,
        }
    }
}

impl Event {
    /// The completion event of session `session_id` for the exit status
    /// `status`, where `None` stands for a status that could not be had.
    pub fn completion(session_id: String, status: Option<i32>) -> (event: Event)
        ensures
            event@ == (EventView::Complete {
                session_id: session_id@,
                exit_code: exit_code_of(status),
                success: exit_code_of(status) == 0,
            }),
    {
        let exit_code: i32 = match status {
            Some(code) => code,
            None => NO_EXIT_CODE,
        };
        Event::Complete { session_id, exit_code }
    }

    /// The session that the event belongs to.
    pub fn session_id(&self) -> (id: &String)
        ensures
            id@ == self@.session_id(),
    {
        match self {
            Event::Started { session_id, .. } => session_id,
            Event::Progress { session_id, .. } => session_id,
            Event::Error { session_id, .. } => session_id,
            Event::Complete { session_id, .. } => session_id,
        }
    }

    /// Whether the process ended well. It did exactly when the event is a
    /// completion whose exit code is zero.
    pub fn success(&self) -> (success: bool)
        ensures
            success == (self@ matches EventView::Complete { exit_code, .. } && exit_code == 0),
    {
        match self {
            Event::Complete { exit_code, .. } => *exit_code == 0,
            _ => false,
        }
    }

    /// The name under which observers know the event, which is also the name
    /// of the channel that carries it.
    pub fn name(&self) -> (name: &'static str)
        ensures
            name@ == self@.name(),
    {
        match self {
            Event::Started { .. } => "started",
            Event::Progress { .. } => "progress",
            Event::Error { .. } => "error",
            Event::Complete { .. } => "complete",
        }
    }
}

} // verus!
