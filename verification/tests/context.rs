use std::collections::HashMap;

use epoll_runtime::context::{
    accept, accept_as, content_length, ContentLength, ContextError, Next, Progress, ReadError,
    RequestContext, CONTENT_LENGTH,
};
use epoll_runtime::poll::OsError;

fn chunk(text: &str) -> Vec<u8> {
    let mut bytes = text.as_bytes().to_vec();
    bytes.resize(4096, 0);
    bytes
}

#[test]
fn header_name_is_spelled_out() {
    assert_eq!(&CONTENT_LENGTH[..], "content-length: ".as_bytes());
}

#[test]
fn content_length_is_read_from_the_header() {
    let request = "POST / HTTP/1.1\r\nHost: localhost\r\nContent-Length: 5\r\n\r\nHello";
    assert_eq!(content_length(request.as_bytes()), ContentLength::Given(5));
    assert_eq!(content_length(&chunk(request)), ContentLength::Given(5));
}

#[test]
fn content_length_header_is_found_in_any_case() {
    assert_eq!(content_length(b"HTTP\ncontent-length: 12\n"), ContentLength::Given(12));
    assert_eq!(content_length(b"HTTP\nCONTENT-LENGTH: 12\n"), ContentLength::Given(12));
    assert_eq!(content_length(b"HTTP\ncOnTeNt-LeNgTh: 12\n"), ContentLength::Given(12));
}

#[test]
fn content_length_needs_http_somewhere() {
    assert_eq!(content_length(b"content-length: 12\n"), ContentLength::Absent);
    assert_eq!(content_length(b"http\ncontent-length: 12\n"), ContentLength::Absent);
    assert_eq!(content_length(b"HTT\ncontent-length: 12\n"), ContentLength::Absent);
    assert_eq!(content_length(b"content-length: 12\nHTTP"), ContentLength::Given(12));
    assert_eq!(content_length(b"content-length: 12\nxxHTTPxx"), ContentLength::Given(12));
    assert_eq!(content_length(b""), ContentLength::Absent);
    assert_eq!(content_length(b"HTTP"), ContentLength::Absent);
}

#[test]
fn content_length_header_starts_its_line() {
    assert_eq!(content_length(b"HTTP\n content-length: 12\n"), ContentLength::Absent);
    assert_eq!(content_length(b"HTTP content-length: 12\n"), ContentLength::Absent);
    assert_eq!(content_length(b"HTTP\ncontent-length:12\n"), ContentLength::Absent);
    assert_eq!(content_length(b"HTTP\ncontent-length\n"), ContentLength::Absent);
    assert_eq!(content_length(b"HTTP\rcontent-length: 12\n"), ContentLength::Absent);
}

#[test]
fn first_content_length_header_counts() {
    assert_eq!(
        content_length(b"HTTP\ncontent-length: 1\ncontent-length: 2\n"),
        ContentLength::Given(1)
    );
    assert_eq!(
        content_length(b"HTTP\ncontent-length: x\ncontent-length: 2\n"),
        ContentLength::Invalid
    );
}

#[test]
fn content_length_takes_the_rest_of_the_line_as_number() {
    assert_eq!(content_length(b"HTTP\ncontent-length: 0\n"), ContentLength::Given(0));
    assert_eq!(content_length(b"HTTP\ncontent-length: 007\n"), ContentLength::Given(7));
    assert_eq!(content_length(b"HTTP\ncontent-length: +7\n"), ContentLength::Given(7));
    assert_eq!(content_length(b"HTTP\ncontent-length: 4096\r\n"), ContentLength::Given(4096));
    assert_eq!(content_length(b"HTTP\ncontent-length: 7"), ContentLength::Given(7));
    assert_eq!(content_length(b"HTTP\ncontent-length: \n"), ContentLength::Invalid);
    assert_eq!(content_length(b"HTTP\ncontent-length: +\n"), ContentLength::Invalid);
    assert_eq!(content_length(b"HTTP\ncontent-length: -7\n"), ContentLength::Invalid);
    assert_eq!(content_length(b"HTTP\ncontent-length: 7 \n"), ContentLength::Invalid);
    assert_eq!(content_length(b"HTTP\ncontent-length:  7\n"), ContentLength::Invalid);
    assert_eq!(content_length(b"HTTP\ncontent-length: 7a\n"), ContentLength::Invalid);
    assert_eq!(content_length(b"HTTP\ncontent-length: ++7\n"), ContentLength::Invalid);
    assert_eq!(content_length(b"HTTP\ncontent-length: 7\r\r\n"), ContentLength::Invalid);
}

#[test]
fn last_line_keeps_its_carriage_return() {
    assert_eq!(content_length(b"HTTP\ncontent-length: 7\r"), ContentLength::Invalid);
    assert_eq!(content_length(&chunk("HTTP\ncontent-length: 7")), ContentLength::Invalid);
}

#[test]
fn content_length_stays_within_usize() {
    let most = format!("HTTP\ncontent-length: {}\n", usize::MAX);
    assert_eq!(content_length(most.as_bytes()), ContentLength::Given(usize::MAX));
    let padded = format!("HTTP\ncontent-length: 000000000000000000000000{}\n", usize::MAX);
    assert_eq!(content_length(padded.as_bytes()), ContentLength::Given(usize::MAX));
    let more = format!("HTTP\ncontent-length: {}0\n", usize::MAX);
    assert_eq!(content_length(more.as_bytes()), ContentLength::Invalid);
    let next = format!("HTTP\ncontent-length: {}\n", usize::MAX as u128 + 1);
    assert_eq!(content_length(next.as_bytes()), ContentLength::Invalid);
}

#[test]
fn content_length_agrees_with_the_standard_library() {
    // The same search written with the string functions of std.
    fn by_std(data: &str) -> ContentLength {
        if !data.contains("HTTP") {
            return ContentLength::Absent;
        }
        let line = data
            .lines()
            .find(|l| l.to_lowercase().starts_with("content-length: "));
        match line {
            None => ContentLength::Absent,
            Some(line) => match line.to_lowercase().strip_prefix("content-length: ") {
                None => ContentLength::Absent,
                Some(rest) => match rest.parse::<usize>() {
                    Ok(length) => ContentLength::Given(length),
                    Err(_) => ContentLength::Invalid,
                },
            },
        }
    }
    let samples = [
        "",
        "HTTP",
        "GET / HTTP/1.1\r\n\r\n",
        "POST / HTTP/1.1\r\nContent-Length: 5\r\n\r\nHello",
        "POST / HTTP/1.1\nContent-Length: 5\nContent-Length: 6\n",
        "POST / HTTP/1.1\r\nContent-Length: 5\r",
        "POST / HTTP/1.1\r\nContent-Length: +5\r\n",
        "POST / HTTP/1.1\r\nContent-Length: 5 \r\n",
        "POST / HTTP/1.1\r\nContent-Length: \r\n",
        "POST / HTTP/1.1\r\nContent-Length:\r\n",
        "POST / HTTP/1.1\r\n\u{212a}ontent-Length: 5\r\n",
        "POST / HTTP/1.1\r\nC\u{d6}NTENT-LENGTH: 5\r\n",
        "POST / HTTP/1.1\r\nContent-Length: \u{661}\r\n",
        "POST / HTTP/1.1\r\n\r\nContent-Length: 18446744073709551615",
        "POST / HTTP/1.1\r\n\r\nContent-Length: 18446744073709551616",
        "Content-Length: 3\n\n\nHTTP\n",
        "\ncontent-length: 9\r\n\rHTTP",
        "content-length: 9\u{0}\nHTTP",
    ];
    for sample in samples {
        assert_eq!(content_length(sample.as_bytes()), by_std(sample), "{:?}", sample);
        let padded = String::from_utf8(chunk(sample)).unwrap();
        assert_eq!(content_length(padded.as_bytes()), by_std(&padded), "{:?}", sample);
    }
}

#[test]
fn new_context_has_read_nothing() {
    let context = RequestContext::new("stream");
    assert_eq!(context.stream, "stream");
    assert_eq!(context.content_length, 0);
    assert!(context.buf.is_empty());
}

#[test]
fn parse_sets_the_length() {
    let mut context = RequestContext::new(());
    assert_eq!(context.parse_and_set_content_length("HTTP\ncontent-length: 12\n"), Ok(true));
    assert_eq!(context.content_length, 12);
    assert_eq!(context.parse_and_set_content_length("HTTP\ncontent-length: 12\n"), Ok(true));
    assert_eq!(context.parse_and_set_content_length("HTTP\nhost: here\n"), Ok(false));
    assert_eq!(context.content_length, 12);
    assert_eq!(
        context.parse_and_set_content_length("HTTP\ncontent-length: twelve\n"),
        Err(ContextError::InvalidContentLength)
    );
    assert_eq!(context.content_length, 12);
    assert!(context.buf.is_empty());
}

fn reads(next: Next) -> Result<Progress, ContextError> {
    Ok(Progress { length_given: false, next })
}

fn announces(next: Next) -> Result<Progress, ContextError> {
    Ok(Progress { length_given: true, next })
}

#[test]
fn read_appends_the_bytes_that_were_read_and_no_more() {
    let mut context = RequestContext::new(());
    let request = "POST / HTTP/1.1\r\nContent-Length: 5\r\n\r\nHello";
    let data = chunk(request);
    assert_eq!(data.len(), 4096);
    assert_eq!(context.read_cb(&data, Ok(request.len())), announces(Next::Write));
    assert_eq!(context.content_length, 5);
    assert_eq!(context.buf, request.as_bytes());
}

#[test]
fn read_goes_on_until_the_announced_length_is_there() {
    let mut context = RequestContext::new(());
    let head = "POST / HTTP/1.1\r\nContent-Length: 5000\r\n\r\n";
    assert_eq!(context.read_cb(&chunk(head), Ok(head.len())), announces(Next::Read));
    assert_eq!(context.content_length, 5000);
    assert_eq!(context.buf, head.as_bytes());
    let body = vec![b'x'; 4096];
    assert_eq!(context.read_cb(&body, Ok(4096)), reads(Next::Read));
    assert_eq!(context.buf.len(), head.len() + 4096);
    let missing = 5000 - context.buf.len();
    assert_eq!(context.read_cb(&body, Ok(missing - 1)), reads(Next::Read));
    assert_eq!(context.buf.len(), 4999);
    assert_eq!(context.read_cb(&body, Ok(1)), reads(Next::Write));
    assert_eq!(context.buf.len(), 5000);
    assert_eq!(context.content_length, 5000);
    assert_eq!(&context.buf[..head.len()], head.as_bytes());
    assert!(context.buf[head.len()..].iter().all(|byte| *byte == b'x'));
}

#[test]
fn read_that_meets_the_length_exactly_turns_to_writing() {
    let mut context = RequestContext::new(());
    assert_eq!(context.read_cb(b"HTTP\ncontent-length: 23\n", Ok(24)), announces(Next::Write));
    assert_eq!(context.buf.len(), 24);
    let mut context = RequestContext::new(());
    assert_eq!(context.read_cb(b"HTTP\ncontent-length: 24\n", Ok(24)), announces(Next::Write));
    assert_eq!(context.buf.len(), 24);
    let mut context = RequestContext::new(());
    assert_eq!(context.read_cb(b"HTTP\ncontent-length: 25\n", Ok(24)), announces(Next::Read));
    assert_eq!(context.buf.len(), 24);
    assert_eq!(context.read_cb(b"x", Ok(1)), reads(Next::Write));
    assert_eq!(context.buf.len(), 25);
}

#[test]
fn header_beyond_the_bytes_read_is_not_seen() {
    let mut context = RequestContext::new(());
    context.content_length = 100;
    let data = b"HTTP\ncontent-length: 5\n";
    assert_eq!(context.read_cb(data, Ok(5)), reads(Next::Read));
    assert_eq!(context.content_length, 100);
    assert_eq!(context.buf, b"HTTP\n");
    // The number is cut off after its first digit.
    let mut context = RequestContext::new(());
    assert_eq!(context.read_cb(b"HTTP\ncontent-length: 5000\n", Ok(22)), announces(Next::Write));
    assert_eq!(context.content_length, 5);
    assert_eq!(context.buf, b"HTTP\ncontent-length: 5");
}

#[test]
fn read_of_nothing_leaves_the_buffer() {
    let mut context = RequestContext::new(());
    context.content_length = 3;
    context.buf.extend_from_slice(b"ab");
    let data = chunk("HTTP\ncontent-length: 5\n");
    assert_eq!(context.read_cb(&data, Ok(0)), reads(Next::Read));
    assert_eq!(context.content_length, 3);
    assert_eq!(context.buf, b"ab");
    assert_eq!(context.read_cb(&[], Ok(0)), reads(Next::Read));
    let mut fresh = RequestContext::new(());
    assert_eq!(fresh.read_cb(&data, Ok(0)), reads(Next::Write));
    assert!(fresh.buf.is_empty());
}

#[test]
fn read_that_would_block_changes_nothing_and_reads_again() {
    let mut context = RequestContext::new(());
    context.content_length = 100;
    context.buf.push(1);
    let data = b"HTTP\ncontent-length: 5\n";
    assert_eq!(context.read_cb(data, Err(ReadError::WouldBlock)), reads(Next::Read));
    assert_eq!(context.content_length, 100);
    assert_eq!(context.buf, vec![1]);
    let mut fresh = RequestContext::new(());
    assert_eq!(fresh.read_cb(&chunk(""), Err(ReadError::WouldBlock)), reads(Next::Read));
    assert_eq!(fresh.content_length, 0);
    assert!(fresh.buf.is_empty());
    let mut full = RequestContext::new(());
    full.buf.extend_from_slice(b"abc");
    full.content_length = 2;
    assert_eq!(full.read_cb(data, Err(ReadError::WouldBlock)), reads(Next::Read));
    assert_eq!(full.buf, b"abc");
}

#[test]
fn read_of_invalid_utf8_is_not_searched() {
    let mut context = RequestContext::new(());
    context.content_length = 100;
    let mut data = b"HTTP\ncontent-length: 5\n".to_vec();
    data.push(0xff);
    assert_eq!(content_length(&data), ContentLength::Given(5));
    assert_eq!(context.read_cb(&data, Ok(24)), reads(Next::Read));
    assert_eq!(context.content_length, 100);
    assert_eq!(context.buf, data);
    // Without the last byte the same data is valid and is searched.
    let mut context = RequestContext::new(());
    context.content_length = 100;
    assert_eq!(context.read_cb(&data, Ok(23)), announces(Next::Write));
    assert_eq!(context.content_length, 5);
    assert_eq!(context.buf, &data[..23]);
    let mut valid = b"HTTP\ncontent-length: 5\n".to_vec();
    valid.extend_from_slice("\u{e9}".as_bytes());
    let mut context = RequestContext::new(());
    assert_eq!(context.read_cb(&valid, Ok(25)), announces(Next::Write));
    assert_eq!(context.content_length, 5);
    // A read that ends inside a character is not valid UTF-8.
    let mut context = RequestContext::new(());
    context.content_length = 100;
    assert_eq!(context.read_cb(&valid, Ok(24)), reads(Next::Read));
    assert_eq!(context.content_length, 100);
    assert_eq!(context.buf, &valid[..24]);
}

#[test]
fn failed_read_is_handed_on() {
    let mut context = RequestContext::new(());
    context.content_length = 100;
    context.buf.push(1);
    let data = b"HTTP\ncontent-length: 5\n";
    assert_eq!(
        context.read_cb(data, Err(ReadError::Os(OsError { errno: 104 }))),
        Err(ContextError::Read(OsError { errno: 104 }))
    );
    assert_eq!(context.content_length, 100);
    assert_eq!(context.buf, vec![1]);
}

#[test]
fn header_without_number_is_handed_on() {
    let mut context = RequestContext::new(());
    context.content_length = 100;
    context.buf.push(1);
    assert_eq!(
        context.read_cb(b"HTTP\ncontent-length: many\n", Ok(26)),
        Err(ContextError::InvalidContentLength)
    );
    assert_eq!(context.content_length, 100);
    assert_eq!(context.buf, vec![1]);
    // The same header is out of sight where the read ended before it.
    assert_eq!(context.read_cb(b"HTTP\ncontent-length: many\n", Ok(4)), reads(Next::Read));
    assert_eq!(context.buf, b"\x01HTTP");
}

#[test]
fn accept_as_files_a_fresh_context() {
    let mut contexts: HashMap<usize, RequestContext<&str>> = HashMap::new();
    accept_as(&mut contexts, 5, "first");
    accept_as(&mut contexts, 6, "second");
    assert_eq!(contexts.len(), 2);
    assert_eq!(contexts[&5].stream, "first");
    assert_eq!(contexts[&6].stream, "second");
    contexts.get_mut(&5).unwrap().content_length = 9;
    contexts.get_mut(&5).unwrap().buf.push(1);
    accept_as(&mut contexts, 5, "third");
    assert_eq!(contexts.len(), 2);
    assert_eq!(contexts[&5].stream, "third");
    assert_eq!(contexts[&5].content_length, 0);
    assert!(contexts[&5].buf.is_empty());
    assert_eq!(contexts[&6].stream, "second");
}

#[test]
fn accept_files_the_context_under_the_identifier_it_gives() {
    let mut contexts: HashMap<usize, RequestContext<u32>> = HashMap::new();
    let mut ids = Vec::new();
    for stream in 0..64u32 {
        let id = accept(&mut contexts, stream);
        assert_eq!(contexts[&id].stream, stream);
        assert_eq!(contexts[&id].content_length, 0);
        assert!(contexts[&id].buf.is_empty());
        ids.push(id);
    }
    ids.sort();
    ids.dedup();
    // Identifiers are drawn at random: sixty-four equal draws do not happen.
    assert!(ids.len() > 1);
    assert_eq!(contexts.len(), ids.len());
}
