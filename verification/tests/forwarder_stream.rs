use mcp_binary::LineSplitter;
use mcp_binary::McpServerLog;
use mcp_binary::StreamForwarder;
use mcp_binary::StreamKind;

#[test]
fn complete_lines_come_out_in_order() {
    let mut s = LineSplitter::new();
    let lines = s.push_chunk(b"a\nb\n");
    assert_eq!(lines, vec![b"a".to_vec(), b"b".to_vec()]);
}

#[test]
fn unterminated_fragment_stays_pending() {
    let mut s = LineSplitter::new();
    let lines = s.push_chunk(b"a\nb");
    assert_eq!(lines, vec![b"a".to_vec()]);
    let lines = s.push_chunk(b"c\n");
    assert_eq!(lines, vec![b"bc".to_vec()]);
}

#[test]
fn final_fragment_without_delimiter_is_never_emitted() {
    let mut s = LineSplitter::new();
    let lines = s.push_chunk(b"tail with no newline");
    assert!(lines.is_empty());
}

#[test]
fn crlf_delimited_lines_lose_their_carriage_return() {
    let mut s = LineSplitter::new();
    let lines = s.push_chunk(b"win\r\nunix\n");
    assert_eq!(lines, vec![b"win".to_vec(), b"unix".to_vec()]);
}

#[test]
fn empty_lines_are_preserved() {
    let mut s = LineSplitter::new();
    let lines = s.push_chunk(b"\n\nx\n");
    assert_eq!(lines, vec![b"".to_vec(), b"".to_vec(), b"x".to_vec()]);
}

#[test]
fn delimiter_split_across_chunks_still_completes_the_line() {
    let mut s = LineSplitter::new();
    assert!(s.push_chunk(b"half\r").is_empty());
    let lines = s.push_chunk(b"\nrest\n");
    assert_eq!(lines, vec![b"half".to_vec(), b"rest".to_vec()]);
}

fn texts(events: &[McpServerLog]) -> Vec<String> {
    events.iter().map(|e| e.line().clone()).collect()
}

#[test]
fn stdout_forwarder_tags_lines_in_source_order() {
    let mut f = StreamForwarder::new(StreamKind::Stdout);
    let (events, ok) = f.push_chunk(b"a\nb\n");
    assert!(ok);
    assert_eq!(events.len(), 2);
    assert!(events.iter().all(|e| !e.is_stderr()));
    assert_eq!(texts(&events), vec!["a".to_string(), "b".to_string()]);
}

#[test]
fn stderr_forwarder_tags_lines_as_stderr() {
    let mut f = StreamForwarder::new(StreamKind::Stderr);
    let (events, ok) = f.push_chunk(b"x\n");
    assert!(ok);
    assert_eq!(events.len(), 1);
    assert!(events[0].is_stderr());
    assert_eq!(events[0].line().as_str(), "x");
}

#[test]
fn multi_byte_text_is_really_decoded() {
    let mut f = StreamForwarder::new(StreamKind::Stdout);
    let (events, ok) = f.push_chunk("caf\u{e9} \u{2713}\n".as_bytes());
    assert!(ok);
    assert_eq!(events[0].line().as_str(), "caf\u{e9} \u{2713}");
}

#[test]
fn invalid_utf8_line_stops_the_forwarder_silently() {
    let mut f = StreamForwarder::new(StreamKind::Stdout);
    let (events, ok) = f.push_chunk(b"good\n\xff\xfe\nnever seen\n");
    assert!(!ok);
    assert_eq!(texts(&events), vec!["good".to_string()]);
}

#[test]
fn forwarders_keep_streams_independent() {
    let mut out = StreamForwarder::new(StreamKind::Stdout);
    let mut err = StreamForwarder::new(StreamKind::Stderr);
    let (a, ok_a) = out.push_chunk(b"a\n");
    let (x, ok_x) = err.push_chunk(b"x\n");
    let (b, ok_b) = out.push_chunk(b"b\n");
    assert!(ok_a && ok_x && ok_b);
    assert!(!a[0].is_stderr() && err_is(&x) && !b[0].is_stderr());
    assert_eq!(a[0].line().as_str(), "a");
    assert_eq!(x[0].line().as_str(), "x");
    assert_eq!(b[0].line().as_str(), "b");
}

fn err_is(events: &[McpServerLog]) -> bool {
    events.iter().all(|e| e.is_stderr())
}
