use process_stream::lines::{Chunk, LineReader};

fn data(bytes: &[u8]) -> Chunk {
    Chunk::Data(bytes.to_vec())
}

fn ok(text: &str) -> Result<String, String> {
    Ok(text.to_string())
}

/// Feeds the chunks one by one and gives all the lines, in order.
fn read_all(chunks: Vec<Chunk>) -> Vec<Result<String, String>> {
    let mut reader = LineReader::new();
    let mut lines = Vec::new();
    for chunk in chunks {
        lines.extend(reader.feed(chunk));
    }
    lines
}

#[test]
fn a_new_reader_is_open() {
    assert!(LineReader::new().is_open());
}

#[test]
fn lines_end_at_line_feeds() {
    assert_eq!(read_all(vec![data(b"a\nb\n")]), vec![ok("a"), ok("b")]);
}

#[test]
fn a_begun_line_waits_for_its_line_feed() {
    let mut reader = LineReader::new();
    assert_eq!(reader.feed(data(b"hel")), vec![]);
    assert_eq!(reader.feed(data(b"lo")), vec![]);
    assert_eq!(reader.feed(data(b"\nwor")), vec![ok("hello")]);
    assert_eq!(reader.feed(data(b"ld\n")), vec![ok("world")]);
    assert!(reader.is_open());
}

#[test]
fn the_end_gives_the_begun_line() {
    assert_eq!(read_all(vec![data(b"a\nrest"), Chunk::Eof]), vec![ok("a"), ok("rest")]);
}

#[test]
fn the_end_after_a_line_feed_gives_nothing() {
    let mut reader = LineReader::new();
    assert_eq!(reader.feed(data(b"a\n")), vec![ok("a")]);
    assert_eq!(reader.feed(Chunk::Eof), vec![]);
    assert!(!reader.is_open());
}

#[test]
fn the_end_of_an_empty_pipe_gives_nothing() {
    assert_eq!(read_all(vec![Chunk::Eof]), vec![]);
}

#[test]
fn empty_lines_are_lines() {
    assert_eq!(read_all(vec![data(b"\n\na\n\n")]), vec![ok(""), ok(""), ok("a"), ok("")]);
}

#[test]
fn empty_data_gives_nothing() {
    let mut reader = LineReader::new();
    assert_eq!(reader.feed(data(b"")), vec![]);
    assert!(reader.is_open());
}

#[test]
fn a_carriage_return_goes_with_its_line_feed() {
    assert_eq!(read_all(vec![data(b"a\r\nb\r\n")]), vec![ok("a"), ok("b")]);
}

#[test]
fn only_one_carriage_return_goes() {
    assert_eq!(read_all(vec![data(b"a\r\r\n")]), vec![ok("a\r")]);
}

#[test]
fn a_carriage_return_inside_a_line_stays() {
    assert_eq!(read_all(vec![data(b"a\rb\n")]), vec![ok("a\rb")]);
}

#[test]
fn a_carriage_return_at_the_end_of_the_pipe_stays() {
    assert_eq!(read_all(vec![data(b"a\r"), Chunk::Eof]), vec![ok("a\r")]);
}

#[test]
fn a_carriage_return_and_its_line_feed_may_come_apart() {
    assert_eq!(read_all(vec![data(b"a\r"), data(b"\nb")]), vec![ok("a")]);
}

#[test]
fn text_is_decoded_as_utf8() {
    let bytes = "gr\u{fc}\u{df}e\n\u{65e5}\u{672c}\n\u{1f980}\n".as_bytes();
    assert_eq!(
        read_all(vec![data(bytes)]),
        vec![ok("gr\u{fc}\u{df}e"), ok("\u{65e5}\u{672c}"), ok("\u{1f980}")]
    );
}

#[test]
fn a_character_may_be_cut_by_the_reads() {
    let bytes = "\u{65e5}\n".as_bytes();
    let mut reader = LineReader::new();
    assert_eq!(reader.feed(data(&bytes[..1])), vec![]);
    assert_eq!(reader.feed(data(&bytes[1..2])), vec![]);
    assert_eq!(reader.feed(data(&bytes[2..])), vec![ok("\u{65e5}")]);
}

#[test]
fn a_line_that_is_no_utf8_is_a_failure_and_the_next_line_is_read() {
    let bad: &[u8] = b"a\xffb";
    let message = String::from_utf8(bad.to_vec()).unwrap_err().to_string();
    assert_eq!(message, "invalid utf-8 sequence of 1 bytes from index 1");
    assert_eq!(read_all(vec![data(b"a\xffb\nfine\n")]), vec![Err(message), ok("fine")]);
}

#[test]
fn a_character_cut_by_the_end_is_a_failure() {
    let bad: &[u8] = b"ab\xe6\x97";
    let message = String::from_utf8(bad.to_vec()).unwrap_err().to_string();
    assert_eq!(message, "incomplete utf-8 byte sequence from index 2");
    assert_eq!(read_all(vec![data(bad), Chunk::Eof]), vec![Err(message)]);
}

#[test]
fn overlong_and_surrogate_encodings_are_no_text() {
    for bad in [&b"\xc0\x80"[..], &b"\xed\xa0\x80"[..], &b"\xf4\x90\x80\x80"[..], &b"\x80"[..]] {
        let message = String::from_utf8(bad.to_vec()).unwrap_err().to_string();
        let mut line = bad.to_vec();
        line.push(b'\n');
        assert_eq!(read_all(vec![Chunk::Data(line)]), vec![Err(message)]);
    }
}

#[test]
fn a_failed_read_gives_the_failure_and_ends_the_pipe() {
    let mut reader = LineReader::new();
    assert_eq!(reader.feed(data(b"a\nhalf")), vec![ok("a")]);
    assert_eq!(
        reader.feed(Chunk::Failed("Connection reset by peer".to_string())),
        vec![Err("Connection reset by peer".to_string())]
    );
    assert!(!reader.is_open());
    assert_eq!(reader.feed(data(b"more\n")), vec![]);
    assert_eq!(reader.feed(Chunk::Eof), vec![]);
    assert_eq!(reader.feed(Chunk::Failed("again".to_string())), vec![]);
    assert!(!reader.is_open());
}

#[test]
fn nothing_is_read_behind_the_end() {
    let mut reader = LineReader::new();
    assert_eq!(reader.feed(Chunk::Eof), vec![]);
    assert_eq!(reader.feed(data(b"a\n")), vec![]);
    assert_eq!(reader.feed(Chunk::Eof), vec![]);
    assert!(!reader.is_open());
}

#[test]
fn the_lines_do_not_depend_on_how_the_reads_cut_the_bytes() {
    let bytes = "one\r\ntwo\n\nthr\u{e9}e\nfour".as_bytes();
    let whole = read_all(vec![data(bytes), Chunk::Eof]);
    assert_eq!(whole, vec![ok("one"), ok("two"), ok(""), ok("thr\u{e9}e"), ok("four")]);
    for cut in 0..=bytes.len() {
        let halves = read_all(vec![data(&bytes[..cut]), data(&bytes[cut..]), Chunk::Eof]);
        assert_eq!(halves, whole, "cut at {cut}");
    }
    let single: Vec<Chunk> =
        bytes.iter().map(|byte| Chunk::Data(vec![*byte])).chain([Chunk::Eof]).collect();
    assert_eq!(read_all(single), whole);
}
