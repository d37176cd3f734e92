//! The state of one connection that is served on top of the runtime: what
//! was read so far, and how much the request announced.

use std::collections::HashMap;
use vstd::prelude::*;
use vstd::slice::slice_subrange;
use vstd::string::*;
use vstd::utf8::valid_utf8;

use crate::poll::OsError;
use crate::EventId;

verus! {

broadcast use vstd::std_specs::hash::group_hash_axioms;

/// The header name that announces the length of a request's body, in lower
/// case, with the colon and the space that follow it.
pub const CONTENT_LENGTH: [u8; 16] = [
    0x63, 0x6f, 0x6e, 0x74, 0x65, 0x6e, 0x74, 0x2d, 0x6c, 0x65, 0x6e, 0x67, 0x74, 0x68, 0x3a, 0x20,
];

/// Whether the four bytes of `data` at `i` read `HTTP`.
pub open spec fn http_at(data: Seq<u8>, i: int) -> bool {
    &&& 0 <= i
    &&& i + 4 <= data.len()
    &&& data[i] == 0x48
    &&& data[i + 1] == 0x54
    &&& data[i + 2] == 0x54
    &&& data[i + 3] == 0x50
}

/// Whether `data` reads `HTTP` anywhere.
pub open spec fn mentions_http(data: Seq<u8>) -> bool {
    exists|i: int| http_at(data, i)
}

/// The lower-case form of an ASCII letter; any other byte is itself.
pub open spec fn lower(byte: u8) -> u8 {
    if 0x41 <= byte <= 0x5a {
        (byte + 0x20) as u8
    } else {
        byte
    }
}

/// Whether `line` starts with the header name, in upper or lower case.
pub open spec fn names_content_length(line: Seq<u8>) -> bool {
    &&& line.len() >= 16
    &&& forall|i: int| 0 <= i < 16 ==> lower(#[trigger] line[i]) == CONTENT_LENGTH@[i]
}

/// Where the line that holds the byte at `start` ends: at the next line
/// feed, or at the end of `data`.
pub open spec fn line_end(data: Seq<u8>, start: int) -> int
    decreases data.len() - start,
{
    if start < 0 || start >= data.len() || data[start] == 0x0a {
        start
    } else {
        line_end(data, start + 1)
    }
}

/// The line that starts at `start`, without its line feed and without a
/// carriage return before the line feed. A last line that no line feed
/// ends keeps a carriage return at its end.
pub open spec fn line_at(data: Seq<u8>, start: int) -> Seq<u8> {
    let end = line_end(data, start);
    if start < end < data.len() && data[end - 1] == 0x0d {
        data.subrange(start, end - 1)
    } else {
        data.subrange(start, end)
    }
}

/// Whether a line starts at `start`: at the first byte of `data` and after
/// each line feed that is not the last byte.
pub open spec fn is_line_start(data: Seq<u8>, start: int) -> bool {
    0 <= start < data.len() && (start == 0 || data[start - 1] == 0x0a)
}

/// Where the first line at or after `from` starts that names the header.
pub open spec fn first_header(data: Seq<u8>, from: int) -> Option<int>
    decreases data.len() - from,
{
    if from < 0 || from >= data.len() {
        None
    } else if is_line_start(data, from) && names_content_length(line_at(data, from)) {
        Some(from)
    } else {
        first_header(data, from + 1)
    }
}

/// The number that a decimal digit stands for; any other byte counts as 0.
pub open spec fn digit(byte: u8) -> nat {
    if 0x30 <= byte <= 0x39 {
        (byte - 0x30) as nat
    } else {
        0
    }
}

/// The number that `digits` write in decimal.
pub open spec fn decimal(digits: Seq<u8>) -> nat
    decreases digits.len(),
{
    if digits.len() == 0 {
        0
    } else {
        decimal(digits.drop_last()) * 10 + digit(digits.last())
    }
}

/// Whether every byte of `digits` is a decimal digit.
pub open spec fn all_digits(digits: Seq<u8>) -> bool {
    forall|i: int| 0 <= i < digits.len() ==> 0x30 <= #[trigger] digits[i] <= 0x39
}

/// What is left of `text` without a plus sign at its start.
pub open spec fn unsigned(text: Seq<u8>) -> Seq<u8> {
    if text.len() > 0 && text[0] == 0x2b {
        text.skip(1)
    } else {
        text
    }
}

/// The number that `text` writes: one or more decimal digits, after a plus
/// sign or without one, that stay within `usize`. Anything else is no
/// number.
pub open spec fn parse_usize(text: Seq<u8>) -> Option<usize> {
    let digits = unsigned(text);
    if digits.len() > 0 && all_digits(digits) && decimal(digits) <= usize::MAX {
        Some(decimal(digits) as usize)
    } else {
        None
    }
}

/// What a request says of the length of its body.
#[derive(Clone, Copy, Debug, PartialEq, Eq)]
pub enum ContentLength {
    /// The data does not read `HTTP`, or no line names the header.
    Absent,
    /// The first line that names the header does not go on with a number.
    Invalid,
    /// The number on the first line that names the header.
    Given(usize),
}

/// What `data` says of the length of the body: where `data` reads `HTTP`
/// somewhere, the number after the header name on the first line that
/// starts with it.
pub open spec fn content_length_spec(data: Seq<u8>) -> ContentLength {
    if !mentions_http(data) {
        ContentLength::Absent
    } else {
        match first_header(data, 0) {
            None => ContentLength::Absent,
            Some(start) => match parse_usize(line_at(data, start).skip(16)) {
                Some(length) => ContentLength::Given(length),
                None => ContentLength::Invalid,
            },
        }
    }
}

fn find_http(data: &[u8]) -> (found: bool)
    ensures
        found == mentions_http(data@),
{
    let mut i: usize = 0;
    while i < data.len() && data.len() - i >= 4
        invariant
            i <= data.len(),
            forall|j: int| 0 <= j < i ==> !http_at(data@, j),
        decreases data.len() - i,
    {
        if data[i] == 0x48 && data[i + 1] == 0x54 && data[i + 2] == 0x54 && data[i + 3] == 0x50 {
            assert(http_at(data@, i as int));
            return true;
        }
        i = i + 1;
    }
    false
}

fn to_lower(byte: u8) -> (low: u8)
    ensures
        low == lower(byte),
{
    if 0x41 <= byte && byte <= 0x5a {
        byte + 0x20
    } else {
        byte
    }
}

fn starts_with_name(line: &[u8]) -> (named: bool)
    ensures
        named == names_content_length(line@),
{
    if line.len() < 16 {
        return false;
    }
    let mut i: usize = 0;
    while i < 16
        invariant
            i <= 16,
            line@.len() >= 16,
            forall|j: int| 0 <= j < i ==> lower(#[trigger] line@[j]) == CONTENT_LENGTH@[j],
        decreases 16 - i,
    {
        if to_lower(line[i]) != CONTENT_LENGTH[i] {
            return false;
        }
        i = i + 1;
    }
    true
}

proof fn lemma_line_end(data: Seq<u8>, start: int)
    requires
        0 <= start <= data.len(),
    ensures
        start <= line_end(data, start) <= data.len(),
        line_end(data, start) < data.len() ==> data[line_end(data, start)] == 0x0a,
        forall|i: int| start <= i < line_end(data, start) ==> data[i] != 0x0a,
    decreases data.len() - start,
{
    if start < data.len() && data[start] != 0x0a {
        lemma_line_end(data, start + 1);
    }
}

fn find_line_end(data: &[u8], start: usize) -> (end: usize)
    requires
        start <= data@.len(),
    ensures
        end == line_end(data@, start as int),
        start <= end <= data@.len(),
{
    let mut end: usize = start;
    while end < data.len() && data[end] != 0x0a
        invariant
            start <= end <= data@.len(),
            line_end(data@, start as int) == line_end(data@, end as int),
        decreases data.len() - end,
    {
        end = end + 1;
    }
    end
}

proof fn lemma_decimal_grows(digits: Seq<u8>, n: int)
    requires
        0 <= n <= digits.len(),
    ensures
        decimal(digits.take(n)) <= decimal(digits),
    decreases digits.len() - n,
{
    if n < digits.len() {
        lemma_decimal_grows(digits, n + 1);
        assert(digits.take(n + 1).drop_last() == digits.take(n));
    } else {
        assert(digits.take(n) == digits);
    }
}

fn read_usize(text: &[u8]) -> (number: Option<usize>)
    ensures
        number == parse_usize(text@),
{
    let first: usize = if text.len() > 0 && text[0] == 0x2b {
        1
    } else {
        0
    };
    let ghost digits = unsigned(text@);
    if text.len() == first {
        return None;
    }
    let mut value: usize = 0;
    let mut i: usize = first;
    while i < text.len()
        invariant
            first <= i <= text@.len(),
            first < text@.len(),
            digits == unsigned(text@),
            digits == text@.skip(first as int),
            all_digits(digits.take(i - first)),
            value == decimal(digits.take(i - first)),
        decreases text.len() - i,
    {
        let byte: u8 = text[i];
        let ghost seen = digits.take(i - first + 1);
        proof {
            assert(seen.drop_last() == digits.take(i - first));
            assert(seen.last() == byte);
            assert(decimal(seen) == value * 10 + digit(byte));
            lemma_decimal_grows(digits, i - first + 1);
        }
        if byte < 0x30 || byte > 0x39 {
            assert(digits[i - first] == byte);
            return None;
        }
        let tens: usize = match value.checked_mul(10) {
            Some(tens) => tens,
            None => {
                return None;
            },
        };
        value = match tens.checked_add((byte - 0x30) as usize) {
            Some(sum) => sum,
            None => {
                return None;
            },
        };
        proof {
            assert(all_digits(seen));
        }
        i = i + 1;
    }
    proof {
        assert(digits.take(digits.len() as int) == digits);
    }
    Some(value)
}

proof fn lemma_next_line(data: Seq<u8>, start: int, from: int)
    requires
        0 <= start < from <= line_end(data, start) + 1,
        start < data.len(),
    ensures
        first_header(data, from) == first_header(data, line_end(data, start) + 1),
    decreases line_end(data, start) + 1 - from,
{
    lemma_line_end(data, start);
    if from <= line_end(data, start) {
        lemma_next_line(data, start, from + 1);
    }
}

/// What `data` says of the length of the body.
pub fn content_length(data: &[u8]) -> (length: ContentLength)
    ensures
        length == content_length_spec(data@),
{
    if !find_http(data) {
        return ContentLength::Absent;
    }
    let mut start: usize = 0;
    while start < data.len()
        invariant
            mentions_http(data@),
            start <= data@.len(),
            start == data@.len() || is_line_start(data@, start as int),
            first_header(data@, 0) == first_header(data@, start as int),
        decreases data.len() - start,
    {
        let end: usize = find_line_end(data, start);
        let stop: usize = if start < end && end < data.len() && data[end - 1] == 0x0d {
            end - 1
        } else {
            end
        };
        let line: &[u8] = slice_subrange(data, start, stop);
        if starts_with_name(line) {
            let rest: &[u8] = slice_subrange(line, 16, line.len());
            return match read_usize(rest) {
                Some(length) => ContentLength::Given(length),
                None => ContentLength::Invalid,
            };
        }
        proof {
            lemma_line_end(data@, start as int);
            lemma_next_line(data@, start as int, start + 1);
        }
        if end == data.len() {
            return ContentLength::Absent;
        }
        start = end + 1;
    }
    ContentLength::Absent
}

/// `std::str::from_utf8`: the text that `bytes` encode where they are
/// valid UTF-8, and nothing where they are not.
#[verifier::external_body]
fn from_utf8(bytes: &[u8]) -> (text: Option<&str>)
    ensures
        text is Some <==> valid_utf8(bytes@),
        text is Some ==> text->0.spec_bytes() == bytes@,
{
    std::str::from_utf8(bytes).ok()
}

/// `rand::random::<usize>()`: a number from the generator of the calling
/// thread. Nothing is known of it beforehand.
#[verifier::external_body]
fn random_event_id() -> (event_id: EventId) {
    rand::random::<usize>()
}

/// How a read on a connection failed.
#[derive(Clone, Copy, Debug, PartialEq, Eq)]
pub enum ReadError {
    /// Nothing can be read yet; the connection is otherwise sound.
    WouldBlock,
    /// The operating system reported an error.
    Os(OsError),
}

/// Why a connection cannot be served further.
#[derive(Clone, Copy, Debug, PartialEq, Eq)]
pub enum ContextError {
    /// The request names the length of its body, and no number follows.
    InvalidContentLength,
    /// A read on the connection failed.
    Read(OsError),
}

/// What a connection waits for next.
#[derive(Clone, Copy, Debug, PartialEq, Eq)]
pub enum Next {
    /// More of the request; read interest is to be armed.
    Read,
    /// Room to answer; write interest is to be armed.
    Write,
}

/// One connection: its stream, what was read from it so far, and the
/// length that the request announced.
#[derive(Debug)]
pub struct RequestContext<S> {
    pub stream: S,
    pub content_length: usize,
    pub buf: Vec<u8>,
}

/// What one read did to a connection.
#[derive(Clone, Copy, Debug, PartialEq, Eq)]
pub struct Progress {
    /// Whether the bytes that were read gave the length of the body.
    pub length_given: bool,
    /// What the connection waits for next.
    pub next: Next,
}

/// What the bytes of one read say of the length of the body: bytes that
/// are not valid UTF-8 are not searched and say nothing.
pub open spec fn announced(read: Seq<u8>) -> ContentLength {
    if valid_utf8(read) {
        content_length_spec(read)
    } else {
        ContentLength::Absent
    }
}

/// What a connection waits for when it has read `read` bytes and expects
/// `expected`.
pub open spec fn next_step(read: nat, expected: usize) -> Next {
    if read >= expected {
        Next::Write
    } else {
        Next::Read
    }
}

impl<S> RequestContext<S> {
    /// The context of a connection from which nothing was read yet.
    pub fn new(stream: S) -> (context: Self)
        ensures
            context.stream == stream,
            context.content_length == 0,
            context.buf@ == Seq::<u8>::empty(),
    {
        Self { stream, buf: Vec::new(), content_length: 0 }
    }

    /// Takes the length of the body from `data`, where `data` gives one, and
    /// says whether it did. Data that names the header without a number
    /// after it is refused, and the context stays as it is.
    pub fn parse_and_set_content_length(&mut self, data: &str) -> (set: Result<bool, ContextError>)
        ensures
            final(self).stream == old(self).stream,
            final(self).buf == old(self).buf,
            match content_length_spec(data.spec_bytes()) {
                ContentLength::Given(length) => {
                    &&& set == Ok::<bool, ContextError>(true)
                    &&& final(self).content_length == length
                },
                ContentLength::Absent => {
                    &&& set == Ok::<bool, ContextError>(false)
                    &&& final(self).content_length == old(self).content_length
                },
                ContentLength::Invalid => {
                    &&& set == Err::<bool, ContextError>(ContextError::InvalidContentLength)
                    &&& final(self).content_length == old(self).content_length
                },
            },
    {
        match content_length(data.as_bytes()) {
            ContentLength::Given(length) => {
                self.content_length = length;
                Ok(true)
            },
            ContentLength::Absent => Ok(false),
            ContentLength::Invalid => Err(ContextError::InvalidContentLength),
        }
    }

    /// Takes one read on the connection: `chunk` is the buffer that was
    /// handed to the read and `outcome` how the read ended, with the number
    /// of bytes that it put at the start of `chunk`.
    ///
    /// Only the bytes that were read count. They are searched for the
    /// length of the body and appended to what was read before; the
    /// connection then waits to write once it has read as much as it
    /// expects, and to read otherwise. A read that would block has read
    /// nothing: the context stays as it is and the connection waits to read
    /// again. A failed read is handed on, and so is a header without a
    /// number; the context then stays as it is too.
    pub fn read_cb(&mut self, chunk: &[u8], outcome: Result<usize, ReadError>) -> (step: Result<
        Progress,
        ContextError,
    >)
        requires
            outcome matches Ok(n) ==> n <= chunk@.len(),
        ensures
            final(self).stream == old(self).stream,
            match outcome {
                Err(ReadError::Os(e)) => {
                    &&& step == Err::<Progress, ContextError>(ContextError::Read(e))
                    &&& final(self).content_length == old(self).content_length
                    &&& final(self).buf == old(self).buf
                },
                Err(ReadError::WouldBlock) => {
                    &&& step == Ok::<Progress, ContextError>(
                        Progress { length_given: false, next: Next::Read },
                    )
                    &&& final(self).content_length == old(self).content_length
                    &&& final(self).buf == old(self).buf
                },
                Ok(n) => match announced(chunk@.take(n as int)) {
                    ContentLength::Invalid => {
                        &&& step == Err::<Progress, ContextError>(
                            ContextError::InvalidContentLength,
                        )
                        &&& final(self).content_length == old(self).content_length
                        &&& final(self).buf == old(self).buf
                    },
                    ContentLength::Given(length) => {
                        &&& final(self).content_length == length
                        &&& final(self).buf@ == old(self).buf@ + chunk@.take(n as int)
                        &&& step == Ok::<Progress, ContextError>(
                            Progress {
                                length_given: true,
                                next: next_step(final(self).buf@.len(), length),
                            },
                        )
                    },
                    ContentLength::Absent => {
                        &&& final(self).content_length == old(self).content_length
                        &&& final(self).buf@ == old(self).buf@ + chunk@.take(n as int)
                        &&& step == Ok::<Progress, ContextError>(
                            Progress {
                                length_given: false,
                                next: next_step(
                                    final(self).buf@.len(),
                                    old(self).content_length,
                                ),
                            },
                        )
                    },
                },
            },
    {
        let n: usize = match outcome {
            Ok(n) => n,
            Err(ReadError::WouldBlock) => {
                return Ok(Progress { length_given: false, next: Next::Read });
            },
            Err(ReadError::Os(e)) => {
                return Err(ContextError::Read(e));
            },
        };
        let read: &[u8] = slice_subrange(chunk, 0, n);
        assert(read@ == chunk@.take(n as int));
        let length_given: bool = match from_utf8(read) {
            Some(data) => match self.parse_and_set_content_length(data) {
                Ok(set) => set,
                Err(e) => {
                    return Err(e);
                },
            },
            None => false,
        };
        self.buf.extend_from_slice(read);
        let next: Next = if self.buf.len() >= self.content_length {
            Next::Write
        } else {
            Next::Read
        };
        Ok(Progress { length_given, next })
    }
}

/// The contexts `after` hold what `before` held, and under `event_id` the
/// fresh context of `stream` in place of whatever stood there.
pub open spec fn accepted<S>(
    before: Map<EventId, RequestContext<S>>,
    after: Map<EventId, RequestContext<S>>,
    event_id: EventId,
    stream: S,
) -> bool {
    &&& after == before.insert(event_id, after[event_id])
    &&& after[event_id].stream == stream
    &&& after[event_id].content_length == 0
    &&& after[event_id].buf@ == Seq::<u8>::empty()
}

/// Files the fresh context of `stream` under `event_id`.
pub fn accept_as<S>(contexts: &mut HashMap<EventId, RequestContext<S>>, event_id: EventId, stream: S)
    ensures
        accepted(old(contexts)@, final(contexts)@, event_id, stream),
{
    contexts.insert(event_id, RequestContext::new(stream));
}

/// Files the fresh context of an accepted connection under an identifier
/// that is drawn at random, and gives the identifier. The draw does not
/// look at the identifiers in use: a context that stood under the same
/// identifier is replaced.
pub fn accept<S>(contexts: &mut HashMap<EventId, RequestContext<S>>, stream: S) -> (event_id: EventId)
    ensures
        accepted(old(contexts)@, final(contexts)@, event_id, stream),
{
    let event_id: EventId = random_event_id();
    accept_as(contexts, event_id, stream);
    event_id
}

} // verus!
