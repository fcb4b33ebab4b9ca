use process_supervisor::lines::LineReader;

fn strings(lines: &[&str]) -> Vec<String> {
    lines.iter().map(|line| line.to_string()).collect()
}

#[test]
fn a_new_reader_has_not_stopped() {
    assert!(!LineReader::new().is_stopped());
}

#[test]
fn lines_end_at_line_feeds() {
    let mut reader = LineReader::new();
    let batch = reader.push(b"first\nsecond\nthi");
    assert_eq!(batch.lines, strings(&["first", "second"]));
    assert!(!batch.failed);
    assert!(!reader.is_stopped());
}

#[test]
fn what_is_pending_becomes_the_last_line() {
    let mut reader = LineReader::new();
    reader.push(b"first\nsecond\nthi");
    let batch = reader.push(b"rd");
    assert!(batch.lines.is_empty());
    let last = reader.finish();
    assert_eq!(last.lines, strings(&["third"]));
    assert!(!last.failed);
    assert!(reader.is_stopped());
}

#[test]
fn a_stream_that_ends_with_a_line_feed_has_no_last_line() {
    let mut reader = LineReader::new();
    let batch = reader.push(b"only\n");
    assert_eq!(batch.lines, strings(&["only"]));
    let last = reader.finish();
    assert!(last.lines.is_empty());
    assert!(!last.failed);
}

#[test]
fn an_empty_stream_has_no_line() {
    let mut reader = LineReader::new();
    assert!(reader.push(b"").lines.is_empty());
    let last = reader.finish();
    assert!(last.lines.is_empty());
    assert!(!last.failed);
}

#[test]
fn a_carriage_return_before_the_line_feed_is_dropped() {
    let mut reader = LineReader::new();
    let batch = reader.push(b"one\r\ntwo\n");
    assert_eq!(batch.lines, strings(&["one", "two"]));
}

#[test]
fn only_one_carriage_return_is_dropped() {
    let mut reader = LineReader::new();
    let batch = reader.push(b"one\r\r\n\r\n");
    assert_eq!(batch.lines, strings(&["one\r", ""]));
}

#[test]
fn a_carriage_return_elsewhere_stays() {
    let mut reader = LineReader::new();
    let batch = reader.push(b"a\rb\n");
    assert_eq!(batch.lines, strings(&["a\rb"]));
    reader.push(b"tail\r");
    assert_eq!(reader.finish().lines, strings(&["tail\r"]));
}

#[test]
fn empty_lines_are_lines() {
    let mut reader = LineReader::new();
    let batch = reader.push(b"\n\na\n\n");
    assert_eq!(batch.lines, strings(&["", "", "a", ""]));
}

#[test]
fn a_line_may_span_chunks() {
    let mut reader = LineReader::new();
    assert!(reader.push(b"{\"x\"").lines.is_empty());
    assert!(reader.push(b":").lines.is_empty());
    assert_eq!(reader.push(b"1}\nnext").lines, strings(&["{\"x\":1}"]));
    assert_eq!(reader.push(b"\n").lines, strings(&["next"]));
}

#[test]
fn a_carriage_return_and_its_line_feed_may_come_apart() {
    let mut reader = LineReader::new();
    assert!(reader.push(b"line\r").lines.is_empty());
    assert_eq!(reader.push(b"\n").lines, strings(&["line"]));
}

#[test]
fn chunks_do_not_matter() {
    let stream: &[u8] = b"alpha\nbeta\r\n\ngamma delta\nlast";
    let mut whole = LineReader::new();
    let mut expected = whole.push(stream).lines;
    expected.extend(whole.finish().lines);
    assert_eq!(expected, strings(&["alpha", "beta", "", "gamma delta", "last"]));
    for cut in 0..=stream.len() {
        let mut reader = LineReader::new();
        let mut lines = reader.push(&stream[..cut]).lines;
        lines.extend(reader.push(&stream[cut..]).lines);
        lines.extend(reader.finish().lines);
        assert_eq!(lines, expected);
    }
    let mut reader = LineReader::new();
    let mut lines = Vec::new();
    for byte in stream {
        lines.extend(reader.push(&[*byte]).lines);
    }
    lines.extend(reader.finish().lines);
    assert_eq!(lines, expected);
}

#[test]
fn text_beyond_ascii_is_decoded() {
    let mut reader = LineReader::new();
    let batch = reader.push("h\u{e9}llo \u{4e16}\u{754c}\n".as_bytes());
    assert_eq!(batch.lines, strings(&["h\u{e9}llo \u{4e16}\u{754c}"]));
    assert_eq!(batch.lines[0].chars().count(), 8);
}

#[test]
fn a_character_may_span_chunks() {
    let bytes = "\u{e9}\n".as_bytes();
    let mut reader = LineReader::new();
    assert!(reader.push(&bytes[..1]).lines.is_empty());
    let batch = reader.push(&bytes[1..]);
    assert_eq!(batch.lines, strings(&["\u{e9}"]));
    assert!(!batch.failed);
}

#[test]
fn a_line_that_is_not_utf8_ends_the_reading() {
    let mut reader = LineReader::new();
    let batch = reader.push(b"good\nb\xffd\nnever\n");
    assert_eq!(batch.lines, strings(&["good"]));
    assert!(batch.failed);
    assert!(reader.is_stopped());
}

#[test]
fn a_stopped_reader_hands_out_nothing() {
    let mut reader = LineReader::new();
    reader.push(b"\xc3\n");
    assert!(reader.is_stopped());
    let batch = reader.push(b"more\n");
    assert!(batch.lines.is_empty());
    assert!(!batch.failed);
    let last = reader.finish();
    assert!(last.lines.is_empty());
    assert!(!last.failed);
}

#[test]
fn a_broken_line_is_found_only_when_it_ends() {
    let mut reader = LineReader::new();
    let batch = reader.push(b"ok\n\xff\xfe");
    assert_eq!(batch.lines, strings(&["ok"]));
    assert!(!batch.failed);
    let batch = reader.push(b"\n");
    assert!(batch.lines.is_empty());
    assert!(batch.failed);
}

#[test]
fn a_last_line_that_is_not_utf8_fails_at_the_end() {
    let mut reader = LineReader::new();
    reader.push(b"ok\n\xe2\x82");
    let last = reader.finish();
    assert!(last.lines.is_empty());
    assert!(last.failed);
    assert!(reader.is_stopped());
}

#[test]
fn overlong_and_surrogate_encodings_are_not_utf8() {
    for bad in [&b"\xc0\xaf\n"[..], &b"\xed\xa0\x80\n"[..], &b"\xf4\x90\x80\x80\n"[..], &b"\x80\n"[..]] {
        let mut reader = LineReader::new();
        let batch = reader.push(bad);
        assert!(batch.lines.is_empty());
        assert!(batch.failed);
    }
}

#[test]
fn an_abandoned_stream_loses_what_was_pending() {
    let mut reader = LineReader::new();
    assert_eq!(reader.push(b"kept\nlost").lines, strings(&["kept"]));
    reader.abandon();
    assert!(reader.is_stopped());
    let last = reader.finish();
    assert!(last.lines.is_empty());
    assert!(!last.failed);
}

#[test]
fn finishing_twice_gives_the_last_line_once() {
    let mut reader = LineReader::new();
    reader.push(b"tail");
    assert_eq!(reader.finish().lines, strings(&["tail"]));
    assert!(reader.finish().lines.is_empty());
}
