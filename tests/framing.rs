use arcmail::{check_8bit, remove_crlf, LineFramer, UtilReadError, MAX_LINE};

fn feed_all(framer: &mut LineFramer, mut buf: &[u8]) -> Vec<Result<Vec<u8>, UtilReadError>> {
    let mut events = Vec::new();
    while !buf.is_empty() {
        let (n, ev) = framer.feed(buf);
        assert!(n > 0 && n <= buf.len());
        buf = &buf[n..];
        if let Some(e) = ev {
            events.push(e);
        }
    }
    events
}

#[test]
fn line_comes_out_without_terminator() {
    let mut f = LineFramer::new(MAX_LINE);
    let (n, ev) = f.feed(b"HELO client\r\nQUIT\r\n");
    assert_eq!(n, 13);
    assert_eq!(ev, Some(Ok(b"HELO client".to_vec())));
}

#[test]
fn partial_line_consumes_everything_and_waits() {
    let mut f = LineFramer::new(MAX_LINE);
    let (n, ev) = f.feed(b"HELO cli");
    assert_eq!(n, 8);
    assert_eq!(ev, None);
}

#[test]
fn segmented_reads_give_the_same_lines() {
    let mut whole = LineFramer::new(MAX_LINE);
    let expected = feed_all(&mut whole, b"HELO x\r\nNOOP\r\nQUIT\r\n");
    let mut pieces = LineFramer::new(MAX_LINE);
    let mut got = Vec::new();
    for chunk in [&b"HE"[..], b"LO x\r", b"\nNO", b"OP\r\nQUIT\r", b"\n"] {
        got.extend(feed_all(&mut pieces, chunk));
    }
    assert_eq!(got, expected);
    assert_eq!(
        got,
        vec![Ok(b"HELO x".to_vec()), Ok(b"NOOP".to_vec()), Ok(b"QUIT".to_vec())]
    );
}

#[test]
fn line_of_600_bytes_is_too_long_and_the_next_line_is_read() {
    let mut stream = vec![b'a'; 600];
    stream.extend_from_slice(b"\r\nNOOP\r\n");
    let mut f = LineFramer::new(MAX_LINE);
    let events = feed_all(&mut f, &stream);
    assert_eq!(events, vec![Err(UtilReadError::TooLong), Ok(b"NOOP".to_vec())]);
}

#[test]
fn too_long_is_reported_before_any_terminator_arrives() {
    let mut f = LineFramer::new(MAX_LINE);
    let stream = vec![b'x'; 1000];
    let events = feed_all(&mut f, &stream);
    assert_eq!(events, vec![Err(UtilReadError::TooLong)]);
    let events = feed_all(&mut f, b"more bytes\r\nRSET\r\n");
    assert_eq!(events, vec![Ok(b"RSET".to_vec())]);
}

#[test]
fn line_at_the_limit_is_accepted_and_one_more_byte_is_not() {
    let mut at_limit = vec![b'b'; MAX_LINE];
    at_limit.extend_from_slice(b"\r\n");
    let mut f = LineFramer::new(MAX_LINE);
    assert_eq!(feed_all(&mut f, &at_limit), vec![Ok(vec![b'b'; MAX_LINE])]);

    let mut over = vec![b'b'; MAX_LINE + 1];
    over.extend_from_slice(b"\r\n");
    let mut g = LineFramer::new(MAX_LINE);
    assert_eq!(feed_all(&mut g, &over), vec![Err(UtilReadError::TooLong)]);
}

#[test]
fn non_ascii_line_is_reported_and_the_next_line_is_read() {
    let mut f = LineFramer::new(MAX_LINE);
    let events = feed_all(&mut f, b"HELO \xc3\xa9\r\nQUIT\r\n");
    assert_eq!(events, vec![Err(UtilReadError::NotAscii), Ok(b"QUIT".to_vec())]);
}

#[test]
fn empty_line_is_a_line() {
    let mut f = LineFramer::new(MAX_LINE);
    assert_eq!(feed_all(&mut f, b"\r\n"), vec![Ok(Vec::new())]);
}

#[test]
fn bare_lf_and_cr_do_not_end_a_line() {
    let mut f = LineFramer::new(MAX_LINE);
    assert_eq!(feed_all(&mut f, b"a\nb\rc\r\n"), vec![Ok(b"a\nb\rc".to_vec())]);
}

#[test]
fn remove_crlf_drops_two_bytes() {
    let mut line = b"QUIT\r\n".to_vec();
    remove_crlf(&mut line);
    assert_eq!(line, b"QUIT".to_vec());
    let mut short = b"x".to_vec();
    remove_crlf(&mut short);
    assert!(short.is_empty());
}

#[test]
fn check_8bit_finds_high_bytes() {
    assert!(check_8bit(&b"plain text".to_vec()));
    assert!(check_8bit(&Vec::new()));
    assert!(!check_8bit(&vec![b'a', 0x80]));
}
