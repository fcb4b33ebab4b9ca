//! Finding out whether the tool is installed, from what a run with the
//! version flag gave.
//!
//! The run itself, with its bounded wait, is the caller's. Here its outcome
//! becomes an answer; every outcome has one, and none is an error.

use vstd::prelude::*;
use vstd::utf8::{decode_utf8, valid_utf8};
use crate::text::{joined, string_view, trim, trimmed};

verus! {

/// The flag that asks the tool for its version.
pub const VERSION_FLAG: &'static str = "--version";

/// The text that the standard library makes of `bytes` when it replaces
/// what is not UTF-8 by the replacement character.
pub uninterp spec fn lossy_text(bytes: Seq<u8>) -> Seq<char>;

/// Calls `String::from_utf8_lossy`.
///
/// The contract gives the text a name and states the one thing that the
/// standard library documents in a line: bytes that are UTF-8 are decoded
/// as they are.
#[verifier::external_body]
fn text_lossy(bytes: &[u8]) -> (text: String)
    ensures
        text@ == lossy_text(bytes@),
        valid_utf8(bytes@) ==> text@ == decode_utf8(bytes@),
{
    String::from_utf8_lossy(bytes).into_owned()
}

/// What came of running the tool with the version flag.
#[derive(Debug)]
pub enum ProbeOutcome {
    /// The tool ran and exited, well or not, having written these bytes.
    Exited { success: bool, stdout: Vec<u8>, stderr: Vec<u8> },
    /// The tool could not be launched; `cause` says why.
    LaunchFailed { cause: String },
    /// The tool did not exit within the time it was given.
    TimedOut,
}

/// An outcome with its bytes and text as sequences.
pub enum ProbeOutcomeView {
    Exited { success: bool, stdout: Seq<u8>, stderr: Seq<u8> },
    LaunchFailed { cause: Seq<char> },
    TimedOut,
}

impl View for ProbeOutcome {
    type V = ProbeOutcomeView;

    open spec fn view(&self) -> ProbeOutcomeView {
        match *self {
            ProbeOutcome::Exited { success, stdout, stderr } => ProbeOutcomeView::Exited {
                success,
                stdout: stdout@,
                stderr: stderr@,
            },
            ProbeOutcome::LaunchFailed { cause } => ProbeOutcomeView::LaunchFailed {
                cause: cause@,
            },
            ProbeOutcome::TimedOut => ProbeOutcomeView::TimedOut,
        }
    }
}

/// Whether the tool is installed, and what is known of it.
#[derive(Debug, PartialEq, Eq)]
pub struct DetectResult {
    /// Whether the tool ran and exited well.
    pub installed: bool,
    /// What the tool gave as its version, where it is installed.
    pub version: Option<String>,
    /// The command under which the tool was found, where it is installed.
    pub path: Option<String>,
    /// What went wrong, where it is not.
    pub error: Option<String>,
}

/// An answer with its texts as sequences of characters.
pub struct DetectView {
    pub installed: bool,
    pub version: Option<Seq<char>>,
    pub path: Option<Seq<char>>,
    pub error: Option<Seq<char>>,
}

impl View for DetectResult {
    type V = DetectView;

    open spec fn view(&self) -> DetectView {
        DetectView {
            installed: self.installed,
            version: string_view(self.version),
            path: string_view(self.path),
            error: string_view(self.error),
        }
    }
}

/// The answer for a tool that could not be launched.
pub open spec fn not_found(cause: Seq<char>) -> DetectView {
    DetectView {
        installed: false,
        version: None,
        path: None,
        error: Some("CLI not found: "@ + cause),
    }
}

/// The answer for a tool that did not exit in time.
pub open spec fn timed_out() -> DetectView {
    DetectView {
        installed: false,
        version: None,
        path: None,
        error: Some("CLI did not answer in time"@),
    }
}

/// The answer for a tool that ran under `command` and exited, having
/// written the texts `output` and `errors`.
///
/// After a good exit the tool is installed and its version is the output
/// without the whitespace around it. After a bad one it is not, and the
/// error is what it wrote to standard error, or to standard output where
/// that is empty, again without the whitespace around it.
pub open spec fn exited(command: Seq<char>, success: bool, output: Seq<char>, errors: Seq<char>) -> DetectView {
    if success {
        DetectView {
            installed: true,
            version: Some(trimmed(output)),
            path: Some(command),
            error: None,
        }
    } else {
        DetectView {
            installed: false,
            version: None,
            path: None,
            error: Some(
                if trimmed(errors).len() == 0 {
                    trimmed(output)
                } else {
                    trimmed(errors)
                },
            ),
        }
    }
}

/// The answer for the outcome of a run under `command`.
pub open spec fn detection(command: Seq<char>, outcome: ProbeOutcomeView) -> DetectView {
    match outcome {
        ProbeOutcomeView::Exited { success, stdout, stderr } => exited(
            command,
            success,
            lossy_text(stdout),
            lossy_text(stderr),
        ),
        ProbeOutcomeView::LaunchFailed { cause } => not_found(cause),
        ProbeOutcomeView::TimedOut => timed_out(),
    }
}

/// Answers for a tool that ran under `command` and exited, having written
/// the texts `output` and `errors`.
pub fn detect_from_text(command: &str, success: bool, output: &str, errors: &str) -> (result:
    DetectResult)
    ensures
        result@ == exited(command@, success, output@, errors@),
{
    let version = trim(output);
    if success {
        DetectResult {
            installed: true,
            version: Some(version),
            path: Some(String::from_str(command)),
            error: None,
        }
    } else {
        let complaint = trim(errors);
        let error = if complaint.as_str().unicode_len() == 0 {
            version
        } else {
            complaint
        };
        DetectResult { installed: false, version: None, path: None, error: Some(error) }
    }
}

/// Answers for the outcome of a run of the tool under `command` with the
/// version flag. Every outcome has an answer.
pub fn detect_result(command: &str, outcome: ProbeOutcome) -> (result: DetectResult)
    ensures
        result@ == detection(command@, outcome@),
{
    match outcome {
        ProbeOutcome::Exited { success, stdout, stderr } => {
            let output = text_lossy(stdout.as_slice());
            let errors = text_lossy(stderr.as_slice());
            detect_from_text(command, success, output.as_str(), errors.as_str())
        },
        ProbeOutcome::LaunchFailed { cause } => DetectResult {
            installed: false,
            version: None,
            path: None,
            error: Some(joined("CLI not found: ", cause.as_str())),
        },
        ProbeOutcome::TimedOut => DetectResult {
            installed: false,
            version: None,
            path: None,
            error: Some(String::from_str("CLI did not answer in time")),
        },
    }
}

} // verus!
