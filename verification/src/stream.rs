//! Draining one output stream of the process into its session.
//!
//! The caller reads a stream chunk by chunk. Each chunk, and the end of the
//! stream, is handed over here together with the stream's reader and the
//! session: the reader cuts the bytes into lines, the session takes each
//! line as a report and, when the stream ends or can no longer be read, the
//! report of its end. What comes back are the events to deliver, in order.

use vstd::prelude::*;
use crate::event::{Event, EventView};
use crate::lines::{Batch, LineReader, ReaderState};
use crate::session::{event_views, Input, InputView, Session};
use crate::text::texts;

verus! {

/// One of the two output streams of the process.
#[derive(Clone, Copy, Debug, PartialEq, Eq, Structural)]
pub enum Stream {
    /// Standard output, whose lines become progress events.
    Stdout,
    /// Standard error, whose lines become error events.
    Stderr,
}

impl Stream {
    /// The report of a line read from the stream.
    pub open spec fn line_report(self, line: Seq<char>) -> InputView {
        match self {
            Stream::Stdout => InputView::StdoutLine(line),
            Stream::Stderr => InputView::StderrLine(line),
        }
    }

    /// The report of the end of the stream.
    pub open spec fn end_report(self) -> InputView {
        match self {
            Stream::Stdout => InputView::StdoutClosed,
            Stream::Stderr => InputView::StderrClosed,
        }
    }

    /// The reports that a piece of the stream gives rise to: one for each
    /// line, in order, and then that of the end where the piece is the last.
    pub open spec fn reports(self, lines: Seq<Seq<char>>, ends: bool) -> Seq<InputView> {
        lines.map_values(|line: Seq<char>| self.line_report(line)) + if ends {
            seq![self.end_report()]
        } else {
            Seq::empty()
        }
    }

    fn line_input(self, line: String) -> (input: Input)
        ensures
            input@ == self.line_report(line@),
    {
        match self {
            Stream::Stdout => Input::StdoutLine(line),
            Stream::Stderr => Input::StderrLine(line),
        }
    }

    fn end_input(self) -> (input: Input)
        ensures
            input@ == self.end_report(),
    {
        match self {
            Stream::Stdout => Input::StdoutClosed,
            Stream::Stderr => Input::StderrClosed,
        }
    }
}

/// What draining a piece of a stream gave.
#[derive(Debug)]
pub struct Drained {
    /// The events to deliver, in order.
    pub events: Vec<Event>,
    /// Whether the stream held a line that could not be read, which the
    /// caller may want to log. The stream has then been reported as ended.
    pub failed: bool,
}

/// Reports the lines of a batch, and the end of the stream where `ends`, to
/// the session.
fn report_batch(session: &mut Session, stream: Stream, batch: Batch, ends: bool) -> (drained: Drained)
    ensures
        final(session)@ == old(session)@.after(stream.reports(texts(batch.lines@), ends)),
        event_views(drained.events@) == old(session)@.events(
            stream.reports(texts(batch.lines@), ends),
        ),
        drained.failed == batch.failed,
{
    let failed = batch.failed;
    let ghost lines = texts(batch.lines@);
    let ghost line_reports = stream.reports(lines, false);
    let mut events: Vec<Event> = Vec::new();
    proof {
        assert(line_reports =~= lines.map_values(|line: Seq<char>| stream.line_report(line)));
        assert(line_reports.take(0) =~= Seq::<InputView>::empty());
        assert(event_views(events@) =~= Seq::<EventView>::empty());
    }
    for line in it: batch.lines
        invariant
            lines == texts(it.seq()),
            line_reports == lines.map_values(|line: Seq<char>| stream.line_report(line)),
            session@ == old(session)@.after(line_reports.take(it.index() as int)),
            event_views(events@) == old(session)@.events(line_reports.take(it.index() as int)),
    {
        let ghost done = line_reports.take(it.index() as int);
        let ghost before = events@;
        let input = stream.line_input(line);
        proof {
            assert(line_reports.take(it.index() as int + 1) =~= done.push(input@));
            assert(done.push(input@).drop_last() =~= done);
        }
        match session.step(input) {
            Some(event) => {
                events.push(event);
                assert(event_views(events@) =~= event_views(before).push(event@));
            },
            None => {},
        }
    }
    proof {
        assert(line_reports.take(line_reports.len() as int) =~= line_reports);
    }
    if ends {
        let ghost before = events@;
        let ghost middle = session@;
        let input = stream.end_input();
        proof {
            assert(stream.reports(lines, true) =~= line_reports.push(input@));
            assert(line_reports.push(input@).drop_last() =~= line_reports);
        }
        match session.step(input) {
            Some(event) => {
                events.push(event);
                assert(event_views(events@) =~= event_views(before).push(event@));
            },
            None => {},
        }
    }
    Drained { events, failed }
}

/// Takes the next chunk of `stream`.
///
/// The reader cuts it into lines and the session takes each as a report.
/// Where a line cannot be read, the stream is reported as ended after the
/// lines before it, and the result is marked as failed.
pub fn take_chunk(session: &mut Session, stream: Stream, reader: &mut LineReader, chunk: &[u8]) -> (drained:
    Drained)
    requires
        old(reader).wf(),
    ensures
        final(reader).wf(),
        final(reader)@ == old(reader)@.after(chunk@),
        drained.failed == old(reader)@.fails_on(chunk@),
        final(session)@ == old(session)@.after(
            stream.reports(old(reader)@.lines_on(chunk@), old(reader)@.fails_on(chunk@)),
        ),
        event_views(drained.events@) == old(session)@.events(
            stream.reports(old(reader)@.lines_on(chunk@), old(reader)@.fails_on(chunk@)),
        ),
{
    let batch = reader.push(chunk);
    let ends = batch.failed;
    report_batch(session, stream, batch, ends)
}

/// Takes the end of `stream`.
///
/// The reader hands out the last line, where there is one that can be read,
/// and the session takes it and then the report of the end. A reader that
/// had stopped before has reported the end already: nothing happens.
pub fn take_end(session: &mut Session, stream: Stream, reader: &mut LineReader) -> (drained:
    Drained)
    requires
        old(reader).wf(),
    ensures
        final(reader).wf(),
        final(reader)@ == ReaderState::halted(),
        drained.failed == old(reader)@.fails_at_end(),
        final(session)@ == old(session)@.after(
            stream.reports(old(reader)@.lines_at_end(), !old(reader)@.stopped),
        ),
        event_views(drained.events@) == old(session)@.events(
            stream.reports(old(reader)@.lines_at_end(), !old(reader)@.stopped),
        ),
{
    let ends = !reader.is_stopped();
    let batch = reader.finish();
    report_batch(session, stream, batch, ends)
}

/// Takes a read error on `stream`.
///
/// The reader drops what is pending and stops, and the session takes the
/// report of the end. A reader that had stopped before has reported the end
/// already: nothing happens.
pub fn take_failure(session: &mut Session, stream: Stream, reader: &mut LineReader) -> (events:
    Vec<Event>)
    requires
        old(reader).wf(),
    ensures
        final(reader).wf(),
        final(reader)@ == ReaderState::halted(),
        final(session)@ == old(session)@.after(
            stream.reports(Seq::empty(), !old(reader)@.stopped),
        ),
        event_views(events@) == old(session)@.events(
            stream.reports(Seq::empty(), !old(reader)@.stopped),
        ),
{
    let ends = !reader.is_stopped();
    reader.abandon();
    let batch = Batch { lines: Vec::new(), failed: false };
    assert(texts(batch.lines@) =~= Seq::<Seq<char>>::empty());
    let drained = report_batch(session, stream, batch, ends);
    drained.events
}

} // verus!
