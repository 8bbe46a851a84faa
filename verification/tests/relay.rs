use esp_flash_gui::lines::split_chunk;
use esp_flash_gui::relay::{decide, LineAction, Relay, Source, LOG_EVENT};
use std::io::{BufRead, Cursor, Read};

/// Runs a worker over the two streams, each delivered in chunks of `step`
/// bytes, with the stop flag raised before the line of index `stop_at`.
fn run(out: &[u8], err: &[u8], step: usize, stop_at: Option<usize>) -> (Vec<String>, &'static str) {
    let mut relay = Relay::new();
    let mut emitted = Vec::new();
    let mut seen = 0usize;
    let mut offset = 0usize;
    loop {
        let stream = match relay.reading() {
            Some(Source::Stdout) => out,
            Some(Source::Stderr) => err,
            None => return (emitted, "completed"),
        };
        let lines = if offset < stream.len() {
            let end = usize::min(stream.len(), offset + step);
            let lines = relay.accept(&stream[offset..end]);
            offset = end;
            lines
        } else {
            offset = 0;
            relay.end_of_stream()
        };
        for line in lines {
            let stop = stop_at.map_or(false, |k| seen >= k);
            seen += 1;
            match decide(stop, line) {
                LineAction::Emit(text) => emitted.push(text),
                LineAction::Kill => return (emitted, "killed"),
                LineAction::Fail => return (emitted, "failed"),
            }
        }
    }
}

fn std_lines(out: &[u8], err: &[u8]) -> Vec<String> {
    Cursor::new(out).chain(Cursor::new(err)).lines().map(|l| l.unwrap()).collect()
}

#[test]
fn log_event_name() {
    assert_eq!(LOG_EVENT, "esp-tool-log");
}

#[test]
fn stdout_lines_come_before_stderr_lines() {
    let (emitted, outcome) = run(b"A\nB\n", b"C\n", 1024, None);
    assert_eq!(emitted, vec!["A", "B", "C"]);
    assert_eq!(outcome, "completed");
}

#[test]
fn order_does_not_depend_on_chunking() {
    for step in 1..8 {
        let (emitted, outcome) = run(b"A\nB\n", b"C\n", step, None);
        assert_eq!(emitted, vec!["A", "B", "C"]);
        assert_eq!(outcome, "completed");
    }
}

#[test]
fn relay_starts_with_stdout_then_stderr_then_nothing() {
    let mut relay = Relay::new();
    assert_eq!(relay.reading(), Some(Source::Stdout));
    assert!(relay.end_of_stream().is_empty());
    assert_eq!(relay.reading(), Some(Source::Stderr));
    assert!(relay.end_of_stream().is_empty());
    assert_eq!(relay.reading(), None);
    assert!(relay.accept(b"late\n").is_empty());
    assert!(relay.end_of_stream().is_empty());
    assert_eq!(relay.reading(), None);
}

#[test]
fn carriage_return_before_line_feed_is_dropped() {
    let mut relay = Relay::new();
    assert_eq!(relay.accept(b"one\r\ntwo\n\r\n\n"), vec![b"one".to_vec(), b"two".to_vec(), vec![], vec![]]);
    assert_eq!(relay.accept(b"a\rb\r\r\n"), vec![b"a\rb\r".to_vec()]);
}

#[test]
fn carriage_return_and_line_feed_in_different_chunks() {
    let mut relay = Relay::new();
    assert!(relay.accept(b"one\r").is_empty());
    assert_eq!(relay.accept(b"\n"), vec![b"one".to_vec()]);
}

#[test]
fn unfinished_line_is_kept_until_the_end() {
    let mut relay = Relay::new();
    assert!(relay.accept(b"par").is_empty());
    assert!(relay.accept(b"tial").is_empty());
    assert!(relay.end_of_stream().is_empty());
    assert_eq!(relay.accept(b" line\nrest\r"), vec![b"partial line".to_vec()]);
    assert_eq!(relay.end_of_stream(), vec![b"rest\r".to_vec()]);
    assert_eq!(relay.reading(), None);
}

#[test]
fn stdout_without_final_line_feed_runs_into_stderr() {
    let (emitted, outcome) = run(b"A\nB", b"C\nD", 3, None);
    assert_eq!(emitted, vec!["A", "BC", "D"]);
    assert_eq!(outcome, "completed");
}

#[test]
fn empty_streams_emit_nothing() {
    let (emitted, outcome) = run(b"", b"", 4, None);
    assert!(emitted.is_empty());
    assert_eq!(outcome, "completed");
}

#[test]
fn lines_agree_with_the_standard_reader() {
    let samples: [(&[u8], &[u8]); 8] = [
        (b"A\nB\n", b"C\n"),
        (b"A\nB", b"C\n"),
        (b"\n\n", b"\n"),
        (b"x\r\ny\r", b"\nz"),
        (b"", b"only err\r\n"),
        (b"only out", b""),
        (b"\r", b"\r\n\r"),
        ("gr\u{fc}\u{df}e\n".as_bytes(), "\u{4e16}\u{754c}".as_bytes()),
    ];
    for (out, err) in samples {
        for step in 1..6 {
            let (emitted, outcome) = run(out, err, step, None);
            assert_eq!(emitted, std_lines(out, err));
            assert_eq!(outcome, "completed");
        }
    }
}

#[test]
fn split_chunk_appends_to_the_lines_given() {
    let mut pending = b"ab".to_vec();
    let mut lines = vec![b"first".to_vec()];
    split_chunk(&mut pending, b"c\nd\r\nef", &mut lines);
    assert_eq!(lines, vec![b"first".to_vec(), b"abc".to_vec(), b"d".to_vec()]);
    assert_eq!(pending, b"ef".to_vec());
    split_chunk(&mut pending, b"", &mut lines);
    assert_eq!(lines.len(), 3);
    assert_eq!(pending, b"ef".to_vec());
}

#[test]
fn raised_flag_kills_whatever_the_line() {
    assert!(matches!(decide(true, b"text".to_vec()), LineAction::Kill));
    assert!(matches!(decide(true, vec![]), LineAction::Kill));
    assert!(matches!(decide(true, vec![0xff, 0xfe]), LineAction::Kill));
}

#[test]
fn line_is_emitted_as_text() {
    match decide(false, b"Hello".to_vec()) {
        LineAction::Emit(text) => assert_eq!(text, "Hello"),
        other => panic!("unexpected action {:?}", other),
    }
    match decide(false, vec![0xe4, 0xb8, 0x96, 0xe7, 0x95, 0x8c]) {
        LineAction::Emit(text) => {
            assert_eq!(text, "\u{4e16}\u{754c}");
            assert_eq!(text.chars().count(), 2);
        }
        other => panic!("unexpected action {:?}", other),
    }
    match decide(false, vec![]) {
        LineAction::Emit(text) => assert_eq!(text, ""),
        other => panic!("unexpected action {:?}", other),
    }
}

#[test]
fn line_that_is_not_utf8_fails() {
    assert!(matches!(decide(false, vec![0xff]), LineAction::Fail));
    assert!(matches!(decide(false, vec![b'a', 0xc3]), LineAction::Fail));
    assert!(matches!(decide(false, vec![0xed, 0xa0, 0x80]), LineAction::Fail));
    assert!(matches!(decide(false, vec![0xc0, 0x80]), LineAction::Fail));
}

#[test]
fn cancelled_run_stops_relaying() {
    let (emitted, outcome) = run(b"A\nB\n", b"C\n", 2, Some(1));
    assert_eq!(emitted, vec!["A"]);
    assert_eq!(outcome, "killed");
    let (emitted, outcome) = run(b"A\nB\n", b"C\n", 2, Some(0));
    assert!(emitted.is_empty());
    assert_eq!(outcome, "killed");
    let (emitted, outcome) = run(b"A\nB\n", b"C\n", 2, Some(2));
    assert_eq!(emitted, vec!["A", "B"]);
    assert_eq!(outcome, "killed");
}

#[test]
fn flag_raised_after_the_last_line_is_not_seen() {
    let (emitted, outcome) = run(b"A\nB\n", b"C\n", 2, Some(3));
    assert_eq!(emitted, vec!["A", "B", "C"]);
    assert_eq!(outcome, "completed");
}

#[test]
fn malformed_line_fails_the_run_where_it_stands() {
    let (emitted, outcome) = run(b"A\n\xff\nB\n", b"C\n", 4, None);
    assert_eq!(emitted, vec!["A"]);
    assert_eq!(outcome, "failed");
}

#[test]
fn read_of_cursor_feeds_the_relay() {
    let mut reader = Cursor::new(b"x\ny\n".to_vec());
    let mut buffer = [0u8; 3];
    let mut relay = Relay::new();
    let mut lines = Vec::new();
    loop {
        let n = reader.read(&mut buffer).unwrap();
        if n == 0 {
            lines.extend(relay.end_of_stream());
            break;
        }
        lines.extend(relay.accept(&buffer[..n]));
    }
    assert_eq!(lines, vec![b"x".to_vec(), b"y".to_vec()]);
    assert_eq!(relay.reading(), Some(Source::Stderr));
}
