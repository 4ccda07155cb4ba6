use mimi::response::{payload_of_line, SseDecoder};

fn feed(chunks: &[&str]) -> (Vec<String>, bool) {
    let mut d = SseDecoder::new();
    let mut out = Vec::new();
    for c in chunks {
        out.extend(d.push_str(c));
    }
    (out, d.is_done())
}

#[test]
fn data_lines_carry_payloads() {
    let (out, done) = feed(&["event: x\ndata: {\"a\":1}\n\n: comment\ndata:{\"b\":2}\r\n"]);
    assert_eq!(out, vec!["{\"a\":1}", "{\"b\":2}"]);
    assert!(!done);
}

#[test]
fn chunk_boundaries_do_not_matter() {
    let whole = "data: one\ndata: two\ndata: [DONE]\ndata: three\n";
    let (a, da) = feed(&[whole]);
    let (b, db) = feed(&["da", "ta: o", "ne\nd", "ata: two", "\n", "data: [DO", "NE]\ndata: three\n"]);
    assert_eq!(a, vec!["one", "two"]);
    assert_eq!(a, b);
    assert!(da && db);
}

#[test]
fn incomplete_lines_wait_for_their_newline() {
    let mut d = SseDecoder::new();
    assert!(d.push_str("data: partial").is_empty());
    assert_eq!(d.push_str(" end\n"), vec!["partial end"]);
}

#[test]
fn repeated_prefixes_are_stripped() {
    let line: Vec<char> = "  data:data: x  ".chars().collect();
    let payload: String = payload_of_line(&line).unwrap().into_iter().collect();
    assert_eq!(payload, "x");
    let other: Vec<char> = "id: 3".chars().collect();
    assert!(payload_of_line(&other).is_none());
}

#[test]
fn invalid_bytes_are_replaced() {
    let mut d = SseDecoder::new();
    let out = d.push_bytes(b"data: a\xffb\n");
    assert_eq!(out, vec!["a\u{fffd}b"]);
}
