//! The commands of the supervisor: launching a session and cancelling the
//! active one.
//!
//! The supervisor does not launch or signal anything itself. It says what is
//! to be launched, takes what came of the launch, and says which process a
//! cancellation has to terminate. The registry is handed in by the caller,
//! who owns it for as long as the application runs.

use vstd::prelude::*;
use crate::error::{SupervisorError, SupervisorErrorView};
use crate::event::Event;
use crate::registry::Registry;
use crate::session::{session_id, session_id_of, started_event, Session, SessionState, SessionStatus};
use crate::text::{string_view, text_view, texts};

verus! {

/// The tools that the launched process may use without asking, when it is
/// left to work on its own.
pub const ALLOWED_TOOLS: &'static str =
    "Bash,Read,Write,Edit,MultiEdit,Glob,Grep,LS,TodoRead,TodoWrite";

/// The arguments of a launch: the prompt, the output format, then the model
/// where one is named, then the allowed tools where the process is to work on
/// its own.
pub open spec fn args_of(prompt: Seq<char>, model: Option<Seq<char>>, hands_off: Option<bool>) -> Seq<
    Seq<char>,
> {
    seq!["-p"@, prompt, "--output-format"@, "stream-json"@] + (match model {
        Some(model) => seq!["--model"@, model],
        None => Seq::empty(),
    }) + (if hands_off == Some(true) {
        seq!["--allowedTools"@, ALLOWED_TOOLS@]
    } else {
        Seq::empty()
    })
}

/// Builds the arguments with which the process is launched.
pub fn build_args(prompt: &str, model: Option<&str>, hands_off: Option<bool>) -> (args: Vec<String>)
    ensures
        texts(args@) == args_of(prompt@, text_view(model), hands_off),
{
    let mut args: Vec<String> = Vec::new();
    args.push(String::from_str("-p"));
    args.push(String::from_str(prompt));
    args.push(String::from_str("--output-format"));
    args.push(String::from_str("stream-json"));
    match model {
        Some(model) => {
            args.push(String::from_str("--model"));
            args.push(String::from_str(model));
        },
        None => {},
    }
    match hands_off {
        Some(true) => {
            args.push(String::from_str("--allowedTools"));
            args.push(String::from_str(ALLOWED_TOOLS));
        },
        _ => {},
    }
    assert(texts(args@) =~= args_of(prompt@, text_view(model), hands_off));
    args
}

/// What came of the attempt to launch the process.
#[derive(Debug)]
pub enum LaunchOutcome {
    /// The process runs under the identifier `pid`.
    Launched { pid: u32 },
    /// The process could not be launched; `cause` says why.
    Failed { cause: String },
}

/// What a successful launch hands back to the caller of the command.
#[derive(Debug)]
pub struct SpawnResult {
    /// The identifier of the session.
    pub session_id: String,
    /// The identifier of the process.
    pub pid: u32,
    /// Where the session stands: it has started.
    pub status: SessionStatus,
}

/// Everything that a successful launch gives rise to.
#[derive(Debug)]
pub struct Spawned {
    /// The answer to the caller of the command.
    pub result: SpawnResult,
    /// The session, which takes the reports on the process from now on.
    pub session: Session,
    /// The event to deliver before the command returns.
    pub started: Event,
}

/// Takes what came of a launch.
///
/// A failed launch is an error: nothing is registered and no event is due. A
/// successful one puts the process into the registry, in place of whatever
/// was there, opens its session and gives the event that announces it.
pub fn accept_launch(registry: &mut Registry, outcome: LaunchOutcome) -> (spawned: Result<
    Spawned,
    SupervisorError,
>)
    ensures
        outcome matches LaunchOutcome::Failed { cause } ==> {
            &&& spawned matches Err(error)
            &&& error@ == (SupervisorErrorView::SpawnFailed { cause: cause@ })
            &&& final(registry)@ == old(registry)@
        },
        outcome matches LaunchOutcome::Launched { pid } ==> {
            &&& spawned matches Ok(s)
            &&& final(registry)@ == Some(pid)
            &&& s.started@ == started_event(pid)
            &&& s.session@ == SessionState::initial(pid)
            &&& s.result.session_id@ == session_id_of(pid)
            &&& s.result.pid == pid
            &&& s.result.status == SessionStatus::Started
        },
{
    match outcome {
        LaunchOutcome::Failed { cause } => Err(SupervisorError::SpawnFailed { cause }),
        LaunchOutcome::Launched { pid } => {
            registry.set(pid);
            let (session, started) = Session::start(pid);
            let result = SpawnResult {
                session_id: session_id(pid),
                pid,
                status: SessionStatus::Started,
            };
            Ok(Spawned { result, session, started })
        },
    }
}

/// The answer to a cancellation.
#[derive(Debug, PartialEq, Eq)]
pub struct CancelResult {
    /// Whether a process was tracked and its termination is now due.
    pub cancelled: bool,
    /// The process to terminate, where there is one.
    pub pid: Option<u32>,
    /// Why nothing was cancelled, where nothing was.
    pub reason: Option<String>,
}

/// What a cancellation answers when no process is tracked.
pub open spec fn no_active_process() -> Seq<char> {
    "no active process"@
}

/// Cancels the tracked process: takes its identifier out of the registry and
/// names it as the process that the caller has to ask to terminate.
///
/// The answer does not wait for the process to end, and it is no event.
/// With nothing tracked there is nothing to terminate, which is an answer
/// and no error.
pub fn cancel(registry: &mut Registry) -> (result: CancelResult)
    ensures
        final(registry)@ is None,
        result.cancelled == old(registry)@ is Some,
        result.pid == old(registry)@,
        string_view(result.reason) == if old(registry)@ is Some {
            None
        } else {
            Some(no_active_process())
        },
{
    match registry.take_and_clear() {
        Some(pid) => CancelResult { cancelled: true, pid: Some(pid), reason: None },
        None => CancelResult {
            cancelled: false,
            pid: None,
            reason: Some(String::from_str("no active process")),
        },
    }
}

} // verus!
