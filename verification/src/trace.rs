//! What holds of every sequence of events that a session can produce.
//!
//! A session is driven by reports. The functions here follow a session from
//! its start through any sequence of reports and collect the events it emits
//! on the way, the opening event included. The lemmas state the order of
//! those events, whatever the reports were.

use vstd::prelude::*;
use crate::event::EventView;
use crate::session::{session_id_of, started_event, InputView, SessionState};

verus! {

/// The state of the session of process `pid` after the reports `inputs`.
pub open spec fn state_after(pid: u32, inputs: Seq<InputView>) -> SessionState {
    SessionState::initial(pid).after(inputs)
}

/// The events of the session of process `pid`, in the order in which they
/// were emitted, from its opening through the reports `inputs`.
pub open spec fn events_after(pid: u32, inputs: Seq<InputView>) -> Seq<EventView> {
    seq![started_event(pid)] + SessionState::initial(pid).events(inputs)
}

/// Whether the reports tell of the exit of the process.
pub open spec fn reports_exit(inputs: Seq<InputView>) -> bool {
    exists|i: int| 0 <= i < inputs.len() && #[trigger] inputs[i] is Exited
}

/// Whether the reports tell of everything that ends a session: the end of
/// both streams and the exit of the process.
pub open spec fn reports_the_end(inputs: Seq<InputView>) -> bool {
    &&& inputs.contains(InputView::StdoutClosed)
    &&& inputs.contains(InputView::StderrClosed)
    &&& reports_exit(inputs)
}

proof fn lemma_state_tracks_reports(pid: u32, inputs: Seq<InputView>)
    ensures
        state_after(pid, inputs).pid == pid,
        state_after(pid, inputs).stdout_open == !inputs.contains(InputView::StdoutClosed),
        state_after(pid, inputs).stderr_open == !inputs.contains(InputView::StderrClosed),
        state_after(pid, inputs).exit is Reported == reports_exit(inputs),
    decreases inputs.len(),
{
    if inputs.len() > 0 {
        let init = inputs.drop_last();
        let last = inputs.last();
        lemma_state_tracks_reports(pid, init);
        assert(inputs =~= init.push(last));
        assert forall|c: InputView| inputs.contains(c) == (init.contains(c) || last == c) by {
            if init.contains(c) {
                let i = choose|i: int| 0 <= i < init.len() && init[i] == c;
                assert(inputs[i] == c);
            }
            if last == c {
                assert(inputs[inputs.len() - 1] == c);
            }
            if inputs.contains(c) {
                let i = choose|i: int| 0 <= i < inputs.len() && inputs[i] == c;
                if i < init.len() {
                    assert(init[i] == c);
                }
            }
        }
        assert(reports_exit(inputs) == (reports_exit(init) || last is Exited)) by {
            if reports_exit(init) {
                let i = choose|i: int| 0 <= i < init.len() && #[trigger] init[i] is Exited;
                assert(inputs[i] is Exited);
            }
            if last is Exited {
                assert(inputs[inputs.len() - 1] is Exited);
            }
            if reports_exit(inputs) {
                let i = choose|i: int| 0 <= i < inputs.len() && #[trigger] inputs[i] is Exited;
                if i < init.len() {
                    assert(init[i] is Exited);
                }
            }
        }
    }
}

proof fn lemma_trace_shape(pid: u32, inputs: Seq<InputView>)
    ensures
        events_after(pid, inputs).len() >= 1,
        events_after(pid, inputs)[0] == started_event(pid),
        forall|i: int|
            1 <= i < events_after(pid, inputs).len() ==> !(#[trigger] events_after(pid, inputs)[i]
                is Started),
        forall|i: int|
            0 <= i < events_after(pid, inputs).len() - 1 ==> !(#[trigger] events_after(
                pid,
                inputs,
            )[i] is Complete),
        state_after(pid, inputs).finished() <==> events_after(pid, inputs).last() is Complete,
        state_after(pid, inputs).finished() ==> events_after(pid, inputs).last() == (
        EventView::Complete {
            session_id: session_id_of(pid),
            exit_code: state_after(pid, inputs).exit_code(),
            success: state_after(pid, inputs).exit_code() == 0,
        }),
        forall|i: int|
            0 <= i < events_after(pid, inputs).len() ==> (#[trigger] events_after(
                pid,
                inputs,
            )[i]).session_id() == session_id_of(pid),
    decreases inputs.len(),
{
    if inputs.len() > 0 {
        let init = inputs.drop_last();
        let last = inputs.last();
        lemma_trace_shape(pid, init);
        lemma_state_tracks_reports(pid, init);
        let before = events_after(pid, init);
        let state = state_after(pid, init);
        match state.emits(last) {
            Some(event) => {
                assert(events_after(pid, inputs) =~= before.push(event));
                assert(!state.finished());
            },
            None => {
                assert(events_after(pid, inputs) =~= before);
            },
        }
    }
}

/// The opening event comes first and only once: every session's events begin
/// with the event that announces it, and no later event is of that kind.
pub proof fn lemma_started_comes_first(pid: u32, inputs: Seq<InputView>)
    ensures
        events_after(pid, inputs).len() >= 1,
        events_after(pid, inputs)[0] == started_event(pid),
        forall|i: int|
            1 <= i < events_after(pid, inputs).len() ==> !(#[trigger] events_after(pid, inputs)[i]
                is Started),
{
    lemma_trace_shape(pid, inputs);
}

/// The completion event comes last and only once: an event of that kind has
/// no event after it, so none of its own kind either, and every progress and
/// error event of the session stands before it.
pub proof fn lemma_complete_comes_last(pid: u32, inputs: Seq<InputView>)
    ensures
        forall|i: int|
            0 <= i < events_after(pid, inputs).len() && (#[trigger] events_after(pid, inputs)[i]
                is Complete) ==> i == events_after(pid, inputs).len() - 1,
        forall|i: int, j: int|
            0 <= i < events_after(pid, inputs).len() && 0 <= j < events_after(pid, inputs).len()
                && (#[trigger] events_after(pid, inputs)[i] is Complete) && (
            #[trigger] events_after(pid, inputs)[j] is Complete) ==> i == j,
{
    lemma_trace_shape(pid, inputs);
}

/// The completion event is emitted exactly when the session is over, and it
/// tells the exit code that was reported: once both streams have ended and
/// the process has exited, the last event is the completion; before that, no
/// event is.
pub proof fn lemma_complete_when_over(pid: u32, inputs: Seq<InputView>)
    ensures
        reports_the_end(inputs) <==> state_after(pid, inputs).finished(),
        reports_the_end(inputs) ==> events_after(pid, inputs).last() == (EventView::Complete {
            session_id: session_id_of(pid),
            exit_code: state_after(pid, inputs).exit_code(),
            success: state_after(pid, inputs).exit_code() == 0,
        }),
        !reports_the_end(inputs) ==> forall|i: int|
            0 <= i < events_after(pid, inputs).len() ==> !(#[trigger] events_after(pid, inputs)[i]
                is Complete),
{
    lemma_trace_shape(pid, inputs);
    lemma_state_tracks_reports(pid, inputs);
}

/// A cancellation request does not silence the completion event: a session
/// that was asked to end still completes, once, when its streams have ended
/// and its process has exited.
pub proof fn lemma_cancelled_session_completes(pid: u32, inputs: Seq<InputView>)
    requires
        inputs.contains(InputView::CancelRequested),
        reports_the_end(inputs),
    ensures
        events_after(pid, inputs).last() is Complete,
        forall|i: int|
            0 <= i < events_after(pid, inputs).len() - 1 ==> !(#[trigger] events_after(
                pid,
                inputs,
            )[i] is Complete),
{
    lemma_trace_shape(pid, inputs);
    lemma_state_tracks_reports(pid, inputs);
}

/// Every event of a session carries the session's identifier.
pub proof fn lemma_events_carry_session_id(pid: u32, inputs: Seq<InputView>)
    ensures
        forall|i: int|
            0 <= i < events_after(pid, inputs).len() ==> (#[trigger] events_after(
                pid,
                inputs,
            )[i]).session_id() == session_id_of(pid),
{
    lemma_trace_shape(pid, inputs);
}

} // verus!
