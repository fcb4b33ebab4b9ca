//! Cutting the bytes of an output stream into lines of text.
//!
//! A line ends at a line feed. The line feed is not part of the line, nor is
//! a carriage return that stands directly before it. What follows the last
//! line feed is a line of its own once the stream has ended, unless it is
//! empty. A line that is not UTF-8 cannot be read: it ends the reading, and
//! nothing after it is handed out.

use vstd::prelude::*;
use vstd::utf8::{decode_utf8, valid_utf8};
use crate::text::texts;

verus! {

/// The byte that ends a line.
pub const LINE_FEED: u8 = 10;

/// The byte that is dropped where it stands directly before a line feed.
pub const CARRIAGE_RETURN: u8 = 13;

/// The bytes after the last line feed in `bytes`: the beginning of a line
/// that has not ended yet.
pub open spec fn pending_after(bytes: Seq<u8>) -> Seq<u8>
    decreases bytes.len(),
{
    if bytes.len() == 0 {
        Seq::empty()
    } else if bytes.last() == LINE_FEED {
        Seq::empty()
    } else {
        pending_after(bytes.drop_last()).push(bytes.last())
    }
}

/// The lines that have ended in `bytes`, each without its line feed.
pub open spec fn raw_lines(bytes: Seq<u8>) -> Seq<Seq<u8>>
    decreases bytes.len(),
{
    if bytes.len() == 0 {
        Seq::empty()
    } else if bytes.last() == LINE_FEED {
        raw_lines(bytes.drop_last()).push(pending_after(bytes.drop_last()))
    } else {
        raw_lines(bytes.drop_last())
    }
}

/// A line without the carriage return at its end, if it has one.
pub open spec fn without_return(line: Seq<u8>) -> Seq<u8> {
    if line.len() > 0 && line.last() == CARRIAGE_RETURN {
        line.drop_last()
    } else {
        line
    }
}

/// The lines that have ended in `bytes`, each without its line feed and
/// without a carriage return before it.
pub open spec fn lines_in(bytes: Seq<u8>) -> Seq<Seq<u8>> {
    raw_lines(bytes).map_values(|line: Seq<u8>| without_return(line))
}

/// The lines put back together: each followed by a line feed.
pub open spec fn terminated(lines: Seq<Seq<u8>>) -> Seq<u8>
    decreases lines.len(),
{
    if lines.len() == 0 {
        Seq::empty()
    } else {
        terminated(lines.drop_last()) + lines.last().push(LINE_FEED)
    }
}

/// How many lines can be read: the number of lines before the first that is
/// not UTF-8, or the number of all lines where each is.
pub open spec fn readable_count(lines: Seq<Seq<u8>>) -> nat
    decreases lines.len(),
{
    if lines.len() == 0 {
        0
    } else {
        let before = readable_count(lines.drop_last());
        if before == lines.len() - 1 && valid_utf8(lines.last()) {
            before + 1
        } else {
            before
        }
    }
}

/// The text of each line.
pub open spec fn decoded(lines: Seq<Seq<u8>>) -> Seq<Seq<char>> {
    lines.map_values(|line: Seq<u8>| decode_utf8(line))
}

/// The lines of text that a reader hands out for the bytes `bytes`: the
/// lines that have ended, up to the first that cannot be read.
pub open spec fn text_lines(bytes: Seq<u8>) -> Seq<Seq<char>> {
    decoded(lines_in(bytes).take(readable_count(lines_in(bytes)) as int))
}

/// Whether reading `bytes` fails: one of the lines that have ended is not
/// UTF-8.
pub open spec fn reading_fails(bytes: Seq<u8>) -> bool {
    readable_count(lines_in(bytes)) < lines_in(bytes).len()
}

/// No line feed is left in what is pending.
pub proof fn lemma_pending_has_no_line_feed(bytes: Seq<u8>)
    ensures
        !pending_after(bytes).contains(LINE_FEED),
        pending_after(bytes).len() <= bytes.len(),
    decreases bytes.len(),
{
    if bytes.len() > 0 && bytes.last() != LINE_FEED {
        lemma_pending_has_no_line_feed(bytes.drop_last());
        let rest = pending_after(bytes.drop_last());
        if rest.push(bytes.last()).contains(LINE_FEED) {
            let i = choose|i: int|
                0 <= i < rest.push(bytes.last()).len() && rest.push(bytes.last())[i] == LINE_FEED;
            if i < rest.len() {
                assert(rest[i] == LINE_FEED);
            }
        }
    }
}

/// Bytes without a line feed are all pending, and no line has ended in them.
pub proof fn lemma_no_line_feed_no_line(bytes: Seq<u8>)
    requires
        !bytes.contains(LINE_FEED),
    ensures
        pending_after(bytes) == bytes,
        raw_lines(bytes).len() == 0,
        lines_in(bytes).len() == 0,
    decreases bytes.len(),
{
    if bytes.len() > 0 {
        let init = bytes.drop_last();
        assert(bytes[bytes.len() - 1] != LINE_FEED);
        if init.contains(LINE_FEED) {
            let i = choose|i: int| 0 <= i < init.len() && init[i] == LINE_FEED;
            assert(bytes[i] == LINE_FEED);
        }
        lemma_no_line_feed_no_line(init);
        assert(init.push(bytes.last()) =~= bytes);
    } else {
        assert(pending_after(bytes) =~= bytes);
    }
}

/// Cutting loses nothing and adds nothing: the lines that have ended, each
/// with its line feed, followed by what is pending, are the bytes that were
/// cut; and no line holds a line feed.
pub proof fn lemma_lines_reassemble(bytes: Seq<u8>)
    ensures
        terminated(raw_lines(bytes)) + pending_after(bytes) == bytes,
        forall|i: int|
            0 <= i < raw_lines(bytes).len() ==> !(#[trigger] raw_lines(bytes)[i]).contains(
                LINE_FEED,
            ),
    decreases bytes.len(),
{
    if bytes.len() == 0 {
        assert(terminated(raw_lines(bytes)) + pending_after(bytes) =~= bytes);
    } else {
        let init = bytes.drop_last();
        lemma_lines_reassemble(init);
        lemma_pending_has_no_line_feed(init);
        assert(init.push(bytes.last()) =~= bytes);
        if bytes.last() == LINE_FEED {
            let lines = raw_lines(init).push(pending_after(init));
            assert(lines.drop_last() =~= raw_lines(init));
            assert(terminated(lines) + pending_after(bytes) =~= (terminated(raw_lines(init))
                + pending_after(init)).push(LINE_FEED));
        } else {
            assert(terminated(raw_lines(init)) + pending_after(init).push(bytes.last()) =~= (
            terminated(raw_lines(init)) + pending_after(init)).push(bytes.last()));
        }
    }
}

/// What one more byte does to the lines and to what is pending.
pub proof fn lemma_one_more_byte(bytes: Seq<u8>, byte: u8)
    ensures
        byte == LINE_FEED ==> pending_after(bytes.push(byte)) == Seq::<u8>::empty()
            && lines_in(bytes.push(byte)) == lines_in(bytes).push(
            without_return(pending_after(bytes)),
        ),
        byte != LINE_FEED ==> pending_after(bytes.push(byte)) == pending_after(bytes).push(byte)
            && lines_in(bytes.push(byte)) == lines_in(bytes),
{
    assert(bytes.push(byte).drop_last() =~= bytes);
    if byte == LINE_FEED {
        assert(lines_in(bytes.push(byte)) =~= lines_in(bytes).push(
            without_return(pending_after(bytes)),
        ));
    }
}

/// It does not matter where a stream is cut into chunks: the bytes `first`
/// followed by `second` hold the lines of `first` and then the lines of what
/// `first` left pending followed by `second`, and leave pending what the
/// latter leaves pending.
pub proof fn lemma_chunks_do_not_matter(first: Seq<u8>, second: Seq<u8>)
    ensures
        lines_in(first + second) == lines_in(first) + lines_in(pending_after(first) + second),
        pending_after(first + second) == pending_after(pending_after(first) + second),
    decreases second.len(),
{
    if second.len() == 0 {
        assert(first + second =~= first);
        assert(pending_after(first) + second =~= pending_after(first));
        lemma_pending_has_no_line_feed(first);
        lemma_no_line_feed_no_line(pending_after(first));
        assert(lines_in(first) + lines_in(pending_after(first)) =~= lines_in(first));
    } else {
        let init = second.drop_last();
        let byte = second.last();
        lemma_chunks_do_not_matter(first, init);
        assert(first + second =~= (first + init).push(byte));
        assert(pending_after(first) + second =~= (pending_after(first) + init).push(byte));
        lemma_one_more_byte(first + init, byte);
        lemma_one_more_byte(pending_after(first) + init, byte);
        if byte == LINE_FEED {
            assert(lines_in(first + second) =~= lines_in(first) + lines_in(
                pending_after(first) + second,
            ));
        }
    }
}

/// What the count of readable lines says: every line before it is UTF-8, and
/// the line at it, if there is one, is not.
pub proof fn lemma_readable_count(lines: Seq<Seq<u8>>)
    ensures
        readable_count(lines) <= lines.len(),
        forall|i: int| 0 <= i < readable_count(lines) ==> valid_utf8(#[trigger] lines[i]),
        readable_count(lines) < lines.len() ==> !valid_utf8(lines[readable_count(lines) as int]),
    decreases lines.len(),
{
    if lines.len() > 0 {
        let init = lines.drop_last();
        lemma_readable_count(init);
        assert forall|i: int| 0 <= i < readable_count(lines) implies valid_utf8(
            #[trigger] lines[i],
        ) by {
            if i < init.len() {
                assert(lines[i] == init[i]);
            }
        }
        if readable_count(lines) < lines.len() && readable_count(lines) < init.len() {
            assert(lines[readable_count(lines) as int] == init[readable_count(init) as int]);
        }
    }
}

/// A line that cannot be read ends the reading for good: whatever bytes
/// follow, the lines handed out stay the same.
pub proof fn lemma_failure_is_final(bytes: Seq<u8>, more: Seq<u8>)
    requires
        reading_fails(bytes),
    ensures
        reading_fails(bytes + more),
        text_lines(bytes + more) == text_lines(bytes),
    decreases more.len(),
{
    if more.len() == 0 {
        assert(bytes + more =~= bytes);
    } else {
        let init = more.drop_last();
        let byte = more.last();
        lemma_failure_is_final(bytes, init);
        assert(bytes + more =~= (bytes + init).push(byte));
        lemma_one_more_byte(bytes + init, byte);
        if byte == LINE_FEED {
            let lines = lines_in(bytes + init);
            let line = without_return(pending_after(bytes + init));
            assert(lines.push(line).drop_last() =~= lines);
            assert(lines.push(line).take(readable_count(lines) as int) =~= lines.take(
                readable_count(lines) as int,
            ));
        }
    }
}

/// The line that the end of the stream makes of the pending bytes: none
/// where nothing is pending or where the bytes are not UTF-8.
pub open spec fn closing_lines(pending: Seq<u8>) -> Seq<Seq<char>> {
    if pending.len() > 0 && valid_utf8(pending) {
        seq![decode_utf8(pending)]
    } else {
        Seq::empty()
    }
}

/// Whether the pending bytes cannot be read as the last line.
pub open spec fn closing_fails(pending: Seq<u8>) -> bool {
    pending.len() > 0 && !valid_utf8(pending)
}

proof fn lemma_readable_count_of_parts(first: Seq<Seq<u8>>, second: Seq<Seq<u8>>)
    requires
        readable_count(first) == first.len(),
    ensures
        readable_count(first + second) == first.len() + readable_count(second),
    decreases second.len(),
{
    if second.len() == 0 {
        assert(first + second =~= first);
    } else {
        lemma_readable_count_of_parts(first, second.drop_last());
        assert((first + second).drop_last() =~= first + second.drop_last());
    }
}

/// It does not matter where the stream is cut into chunks: a reader that
/// takes two chunks one after the other hands out what it hands out for the
/// two as one, fails where it fails on the two as one, and is left in the
/// same state.
pub proof fn lemma_reading_in_chunks(reader: ReaderState, first: Seq<u8>, second: Seq<u8>)
    ensures
        reader.after(first).after(second) == reader.after(first + second),
        reader.lines_on(first) + reader.after(first).lines_on(second) == reader.lines_on(
            first + second,
        ),
        (reader.fails_on(first) || reader.after(first).fails_on(second)) == reader.fails_on(
            first + second,
        ),
{
    if reader.stopped {
        assert(reader.lines_on(first) + reader.after(first).lines_on(second) =~= reader.lines_on(
            first + second,
        ));
    } else {
        let bytes = reader.pending + first;
        assert(bytes + second =~= reader.pending + (first + second));
        if reading_fails(bytes) {
            lemma_failure_is_final(bytes, second);
            assert(reader.lines_on(first) + reader.after(first).lines_on(second)
                =~= reader.lines_on(first + second));
        } else {
            let rest = pending_after(bytes) + second;
            let ended = lines_in(bytes);
            let later = lines_in(rest);
            lemma_chunks_do_not_matter(bytes, second);
            lemma_readable_count(ended);
            lemma_readable_count(later);
            lemma_readable_count_of_parts(ended, later);
            assert(ended.take(ended.len() as int) =~= ended);
            assert((ended + later).take((ended.len() + readable_count(later)) as int) =~= ended
                + later.take(readable_count(later) as int));
            assert(decoded(ended + later.take(readable_count(later) as int)) =~= decoded(ended)
                + decoded(later.take(readable_count(later) as int)));
        }
    }
}

/// Calls `String::from_utf8`.
///
/// The contract says what the standard library documents: the call succeeds
/// exactly on bytes that are UTF-8, and the string then holds the characters
/// that the bytes encode. The error is dropped.
#[verifier::external_body]
fn text_of(bytes: Vec<u8>) -> (text: Option<String>)
    ensures
        text is Some == valid_utf8(bytes@),
        text is Some ==> text->0@ == decode_utf8(bytes@),
{
    String::from_utf8(bytes).ok()
}

/// What a reader hands out at one step.
#[derive(Debug)]
pub struct Batch {
    /// The lines that became readable, in the order of the stream.
    pub lines: Vec<String>,
    /// Whether the reading has ended on a line that is not UTF-8.
    pub failed: bool,
}

/// The state of a reader.
pub struct ReaderState {
    /// The beginning of the line that has not ended yet.
    pub pending: Seq<u8>,
    /// Whether the reader has stopped: the stream has ended or a line could
    /// not be read.
    pub stopped: bool,
}

impl ReaderState {
    /// The state of a reader that has stopped.
    pub open spec fn halted() -> ReaderState {
        ReaderState { pending: Seq::empty(), stopped: true }
    }

    /// The lines that the reader hands out for the next chunk of the stream:
    /// the lines that end in what was pending followed by the chunk, up to
    /// the first that cannot be read; none once the reader has stopped.
    pub open spec fn lines_on(self, chunk: Seq<u8>) -> Seq<Seq<char>> {
        if self.stopped {
            Seq::empty()
        } else {
            text_lines(self.pending + chunk)
        }
    }

    /// Whether the reading fails on the next chunk of the stream.
    pub open spec fn fails_on(self, chunk: Seq<u8>) -> bool {
        !self.stopped && reading_fails(self.pending + chunk)
    }

    /// The state after the next chunk of the stream: stopped where the
    /// reading fails, else with the bytes after the last line feed pending.
    pub open spec fn after(self, chunk: Seq<u8>) -> ReaderState {
        if self.stopped {
            self
        } else if reading_fails(self.pending + chunk) {
            ReaderState::halted()
        } else {
            ReaderState { pending: pending_after(self.pending + chunk), stopped: false }
        }
    }

    /// The lines that the reader hands out at the end of the stream: what
    /// is pending, where it can be read.
    pub open spec fn lines_at_end(self) -> Seq<Seq<char>> {
        if self.stopped {
            Seq::empty()
        } else {
            closing_lines(self.pending)
        }
    }

    /// Whether the reading fails at the end of the stream.
    pub open spec fn fails_at_end(self) -> bool {
        !self.stopped && closing_fails(self.pending)
    }
}

/// Cuts a stream of bytes, handed over chunk by chunk, into lines of text.
#[derive(Debug)]
pub struct LineReader {
    pending: Vec<u8>,
    stopped: bool,
}

impl View for LineReader {
    type V = ReaderState;

    closed spec fn view(&self) -> ReaderState {
        ReaderState { pending: self.pending@, stopped: self.stopped }
    }
}

impl LineReader {
    /// Whether the reader is in order: what is pending is the beginning of
    /// one line, so it holds no line feed.
    pub closed spec fn wf(&self) -> bool {
        !self.pending@.contains(LINE_FEED)
    }

    /// A reader at the beginning of a stream.
    pub fn new() -> (reader: LineReader)
        ensures
            reader.wf(),
            reader@.pending.len() == 0,
            !reader@.stopped,
    {
        LineReader { pending: Vec::new(), stopped: false }
    }

    /// Gives the stream up after a read error: what is pending is dropped
    /// and the reader stops.
    pub fn abandon(&mut self)
        requires
            old(self).wf(),
        ensures
            final(self).wf(),
            final(self)@ == ReaderState::halted(),
    {
        let mut dropped: Vec<u8> = Vec::new();
        std::mem::swap(&mut dropped, &mut self.pending);
        self.stopped = true;
    }

    /// Whether the reader has stopped.
    pub fn is_stopped(&self) -> (stopped: bool)
        ensures
            stopped == self@.stopped,
    {
        self.stopped
    }

    /// Takes the next chunk of the stream and hands out the lines that end
    /// in it, up to the first that cannot be read. Where there is such a
    /// line the batch is marked as failed and the reader stops. A reader
    /// that has stopped hands out nothing.
    pub fn push(&mut self, chunk: &[u8]) -> (batch: Batch)
        requires
            old(self).wf(),
        ensures
            final(self).wf(),
            final(self)@ == old(self)@.after(chunk@),
            texts(batch.lines@) == old(self)@.lines_on(chunk@),
            batch.failed == old(self)@.fails_on(chunk@),
    {
        let mut lines: Vec<String> = Vec::new();
        if self.stopped {
            return Batch { lines, failed: false };
        }
        let ghost start = self.pending@;
        proof {
            lemma_no_line_feed_no_line(start);
            assert(start + chunk@.take(0) =~= start);
            assert(lines_in(start).take(0) =~= lines_in(start));
            assert(texts(lines@) =~= text_lines(start));
        }
        let mut i: usize = 0;
        while i < chunk.len()
            invariant
                i <= chunk.len(),
                !old(self)@.stopped,
                start == old(self)@.pending,
                self.wf(),
                !self.stopped,
                self.pending@ == pending_after(start + chunk@.take(i as int)),
                !reading_fails(start + chunk@.take(i as int)),
                texts(lines@) == text_lines(start + chunk@.take(i as int)),
            decreases chunk.len() - i,
        {
            let byte: u8 = chunk[i];
            let ghost seen = start + chunk@.take(i as int);
            proof {
                assert(start + chunk@.take(i as int + 1) =~= seen.push(byte));
                lemma_one_more_byte(seen, byte);
                lemma_readable_count(lines_in(seen));
                lemma_pending_has_no_line_feed(seen.push(byte));
            }
            if byte == LINE_FEED {
                let mut line: Vec<u8> = Vec::new();
                std::mem::swap(&mut line, &mut self.pending);
                let n: usize = line.len();
                if n > 0 && line[n - 1] == CARRIAGE_RETURN {
                    line.pop();
                }
                let ghost ended = lines_in(seen);
                let ghost fresh = without_return(pending_after(seen));
                assert(line@ =~= fresh);
                assert(ended.push(fresh).drop_last() =~= ended);
                match text_of(line) {
                    Some(text) => {
                        let ghost before = lines@;
                        lines.push(text);
                        proof {
                            assert(ended.take(ended.len() as int) =~= ended);
                            assert(ended.push(fresh).take(ended.len() as int + 1) =~= ended.push(fresh));
                            assert(texts(lines@) =~= texts(before).push(text@));
                            assert(decoded(ended.push(fresh)) =~= decoded(ended).push(
                                decode_utf8(fresh),
                            ));
                        }
                    },
                    None => {
                        self.stopped = true;
                        proof {
                            assert(ended.take(ended.len() as int) =~= ended);
                            assert(ended.push(fresh).take(ended.len() as int) =~= ended);
                            lemma_failure_is_final(seen.push(byte), chunk@.skip(i as int + 1));
                            assert(seen.push(byte) + chunk@.skip(i as int + 1) =~= start + chunk@);
                        }
                        return Batch { lines, failed: true };
                    },
                }
            } else {
                self.pending.push(byte);
            }
            i += 1;
        }
        proof {
            assert(chunk@.take(chunk.len() as int) =~= chunk@);
        }
        Batch { lines, failed: false }
    }

    /// Takes the end of the stream and hands out the last line: the pending
    /// bytes, where there are any and they can be read. The reader stops.
    pub fn finish(&mut self) -> (batch: Batch)
        requires
            old(self).wf(),
        ensures
            final(self).wf(),
            final(self)@ == ReaderState::halted(),
            texts(batch.lines@) == old(self)@.lines_at_end(),
            batch.failed == old(self)@.fails_at_end(),
    {
        let mut lines: Vec<String> = Vec::new();
        let mut line: Vec<u8> = Vec::new();
        std::mem::swap(&mut line, &mut self.pending);
        if self.stopped {
            return Batch { lines, failed: false };
        }
        self.stopped = true;
        if line.len() == 0 {
            assert(texts(lines@) =~= closing_lines(line@));
            return Batch { lines, failed: false };
        }
        let ghost last = line@;
        match text_of(line) {
            Some(text) => {
                lines.push(text);
                assert(texts(lines@) =~= closing_lines(last));
                Batch { lines, failed: false }
            },
            None => {
                assert(texts(lines@) =~= closing_lines(last));
                Batch { lines, failed: true }
            },
        }
    }
}

} // verus!
