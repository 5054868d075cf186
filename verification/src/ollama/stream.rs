//! The streamed answer to a generation: bytes come in as the transport
//! delivers them, lines of text go out, one JSON object each.
//!
//! A line ends with a line feed; a carriage return before the line feed
//! belongs to the line ending. What follows the last line feed counts as a
//! line once the transport has closed. Blank lines are passed over. The
//! stream is over when the transport has closed and every line has been
//! taken, when a chunk says that it is the last one, when a line is no text,
//! or when the consumer gives the stream up; a stream that is over yields
//! nothing more.

use crate::ollama::error::{ClientError, ClientErrorModel};
use crate::ollama::generate::GenerateResponse;
use vstd::prelude::*;
use vstd::utf8::{decode_utf8, encode_utf8, valid_utf8};

verus! {

/// The line feed that ends a line.
pub const LINE_FEED: u8 = 10;

/// The carriage return that may stand before the line feed.
pub const CARRIAGE_RETURN: u8 = 13;

/// What the text is after `str::trim`: without the white space at its start
/// and at its end.
pub uninterp spec fn trimmed(text: Seq<char>) -> Seq<char>;

/// Calls `str::trim`, which returns the text without leading and trailing
/// white space. What counts as white space is left to std.
#[verifier::external_body]
fn trim(text: &str) -> (inner: &str)
    ensures
        inner@ == trimmed(text@),
{
    text.trim()
}

/// Calls `String::from_utf8`, which accepts the bytes if and only if they are
/// valid UTF-8 and then returns the text that these bytes encode.
#[verifier::external_body]
fn text_of(bytes: Vec<u8>) -> (text: Option<String>)
    ensures
        text is Some == valid_utf8(bytes@),
        text matches Some(t) ==> encode_utf8(t@) == bytes@,
{
    String::from_utf8(bytes).ok()
}

/// Whether a status code reports success.
pub open spec fn is_success(status: u16) -> bool {
    200 <= status < 300
}

/// Whether `i` is the place of the first line feed in `bytes`.
pub open spec fn is_first_line_feed(bytes: Seq<u8>, i: int) -> bool {
    &&& 0 <= i < bytes.len()
    &&& bytes[i] == LINE_FEED
    &&& forall|j: int| 0 <= j < i ==> bytes[j] != LINE_FEED
}

/// Whether there is a line feed in `bytes`.
pub open spec fn has_line_feed(bytes: Seq<u8>) -> bool {
    exists|i: int| is_first_line_feed(bytes, i)
}

/// The place of the first line feed in `bytes`.
pub open spec fn first_line_feed(bytes: Seq<u8>) -> int {
    choose|i: int| is_first_line_feed(bytes, i)
}

/// A line without the carriage return at its end, if it has one.
pub open spec fn strip_return(line: Seq<u8>) -> Seq<u8> {
    if line.len() > 0 && line.last() == CARRIAGE_RETURN {
        line.drop_last()
    } else {
        line
    }
}

/// Whether a line holds nothing but white space.
pub open spec fn is_blank(text: Seq<char>) -> bool {
    trimmed(text).len() == 0
}

/// The failure that a line which is not valid UTF-8 leads to.
pub open spec fn undecodable() -> ClientErrorModel {
    ClientErrorModel::Protocol { status: None, detail: "Unable to decode input as UTF8"@ }
}

/// The state of a stream: the bytes received and not yet taken as lines,
/// whether the transport has closed, and whether the stream is over.
pub struct StreamModel {
    pub buffer: Seq<u8>,
    pub closed: bool,
    pub ended: bool,
}

impl StreamModel {
    /// The stream, over.
    pub open spec fn end(self) -> StreamModel {
        StreamModel { buffer: Seq::empty(), closed: self.closed, ended: true }
    }

    /// The stream with `rest` left in its buffer.
    pub open spec fn left_with(self, rest: Seq<u8>) -> StreamModel {
        StreamModel { buffer: rest, closed: self.closed, ended: self.ended }
    }

    /// The stream after the transport delivered `bytes`: they are added to
    /// the buffer, unless the stream is over or the transport has closed.
    pub open spec fn receive(self, bytes: Seq<u8>) -> StreamModel {
        if self.ended || self.closed {
            self
        } else {
            self.left_with(self.buffer + bytes)
        }
    }

    /// The stream after the transport closed.
    pub open spec fn close(self) -> StreamModel {
        if self.ended {
            self
        } else {
            StreamModel { buffer: self.buffer, closed: true, ended: false }
        }
    }
}

/// The next line in the buffer and what is left behind it: the bytes up to
/// the first line feed; or, once the transport has closed, what is left
/// without a line feed, unless that is nothing or a lone carriage return.
pub open spec fn pending_line(m: StreamModel) -> Option<(Seq<u8>, Seq<u8>)> {
    if m.ended {
        None
    } else if has_line_feed(m.buffer) {
        let i = first_line_feed(m.buffer);
        Some(
            (
                strip_return(m.buffer.subrange(0, i)),
                m.buffer.subrange(i + 1, m.buffer.len() as int),
            ),
        )
    } else if m.closed && m.buffer.len() > 0 && m.buffer != seq![CARRIAGE_RETURN] {
        Some((strip_return(m.buffer), Seq::empty()))
    } else {
        None
    }
}

/// What the stream yields next, and the state it is in after that.
///
/// Blank lines are passed over. A line that is no text yields a failure and
/// ends the stream. With no line left, the stream yields nothing; it is then
/// over if the transport has closed.
pub open spec fn poll(m: StreamModel) -> (Option<Result<Seq<char>, ClientErrorModel>>, StreamModel)
    decreases m.buffer.len(),
    when pending_line(m) matches Some(next) ==> next.1.len() < m.buffer.len()
{
    match pending_line(m) {
        None => (
            None,
            if m.closed && !m.ended {
                m.end()
            } else {
                m
            },
        ),
        Some((line, rest)) => {
            if !valid_utf8(line) {
                (Some(Err(undecodable())), m.end())
            } else if is_blank(decode_utf8(line)) {
                poll(m.left_with(rest))
            } else {
                (Some(Ok(decode_utf8(line))), m.left_with(rest))
            }
        },
    }
}

/// What is left behind a line is shorter than what the line was taken from.
pub proof fn lemma_line_shortens(m: StreamModel)
    ensures
        pending_line(m) matches Some(next) ==> next.1.len() < m.buffer.len(),
{
}

/// A stream that is over stays as it is: it takes in nothing that the
/// transport still delivers, and yields nothing more.
pub proof fn lemma_ended_yields_nothing(m: StreamModel, bytes: Seq<u8>)
    requires
        m.ended,
    ensures
        m.receive(bytes) == m,
        m.close() == m,
        poll(m) == (None::<Result<Seq<char>, ClientErrorModel>>, m),
{
}

/// A stream that the consumer gave up yields nothing more, whatever the
/// transport delivers after that.
pub proof fn lemma_cancelled_is_silent(m: StreamModel, bytes: Seq<u8>)
    ensures
        poll(m.end().receive(bytes)).0 is None,
        poll(m.end().receive(bytes).close()).0 is None,
        poll(m.end().receive(bytes)).1 == m.end(),
{
    lemma_ended_yields_nothing(m.end(), bytes);
}

/// Everything that the stream yields until it has nothing more for now, in
/// order, and the state it is in after that.
pub open spec fn drain(m: StreamModel) -> (Seq<Result<Seq<char>, ClientErrorModel>>, StreamModel)
    decreases m.buffer.len(),
    when pending_line(m) matches Some(next) ==> next.1.len() < m.buffer.len()
{
    match pending_line(m) {
        None => (
            Seq::empty(),
            if m.closed && !m.ended {
                m.end()
            } else {
                m
            },
        ),
        Some((line, rest)) => {
            if !valid_utf8(line) {
                (seq![Err(undecodable())], m.end())
            } else {
                let (later, after) = drain(m.left_with(rest));
                if is_blank(decode_utf8(line)) {
                    (later, after)
                } else {
                    (seq![Ok(decode_utf8(line))] + later, after)
                }
            }
        },
    }
}

/// Draining the stream is polling it until it yields nothing.
pub proof fn lemma_drain_is_repeated_poll(m: StreamModel)
    ensures
        match poll(m).0 {
            None => drain(m) == (
                Seq::<Result<Seq<char>, ClientErrorModel>>::empty(),
                poll(m).1,
            ),
            Some(frame) => drain(m) == (
                seq![frame] + drain(poll(m).1).0,
                drain(poll(m).1).1,
            ),
        },
    decreases m.buffer.len(),
{
    lemma_line_shortens(m);
    match pending_line(m) {
        None => {},
        Some((line, rest)) => {
            if !valid_utf8(line) {
                assert(seq![Err::<Seq<char>, ClientErrorModel>(undecodable())] + drain(m.end()).0
                    =~= seq![Err::<Seq<char>, ClientErrorModel>(undecodable())]);
            } else if is_blank(decode_utf8(line)) {
                lemma_drain_is_repeated_poll(m.left_with(rest));
            }
        },
    }
}

/// The first line feed of a buffer is still the first one when more bytes
/// follow.
proof fn lemma_first_line_feed_stays(buffer: Seq<u8>, more: Seq<u8>)
    requires
        has_line_feed(buffer),
    ensures
        has_line_feed(buffer + more),
        first_line_feed(buffer + more) == first_line_feed(buffer),
{
    let i = first_line_feed(buffer);
    let longer = buffer + more;
    assert(is_first_line_feed(buffer, i));
    assert(longer[i] == buffer[i]);
    assert forall|j: int| 0 <= j < i implies longer[j] != LINE_FEED by {
        assert(longer[j] == buffer[j]);
    }
    assert(is_first_line_feed(longer, i));
    let k = first_line_feed(longer);
    assert(is_first_line_feed(longer, k));
    if k < i {
        assert(longer[k] != LINE_FEED);
    }
    if i < k {
        assert(longer[i] != LINE_FEED);
    }
}

/// How the transport cuts the bytes into deliveries does not matter: what
/// an open stream yields over two rounds, with `bytes` delivered between
/// them, is what it yields in one round after `bytes` were delivered.
pub proof fn lemma_delivery_is_immaterial(m: StreamModel, bytes: Seq<u8>)
    requires
        !m.ended,
        !m.closed,
    ensures
        drain(m.receive(bytes)) == (
            drain(m).0 + drain(drain(m).1.receive(bytes)).0,
            drain(drain(m).1.receive(bytes)).1,
        ),
    decreases m.buffer.len(),
{
    let whole = m.receive(bytes);
    lemma_line_shortens(m);
    lemma_line_shortens(whole);
    if has_line_feed(m.buffer) {
        let i = first_line_feed(m.buffer);
        assert(is_first_line_feed(m.buffer, i));
        lemma_first_line_feed_stays(m.buffer, bytes);
        let line = strip_return(m.buffer.subrange(0, i));
        let rest = m.buffer.subrange(i + 1, m.buffer.len() as int);
        assert(whole.buffer.subrange(0, i) =~= m.buffer.subrange(0, i));
        assert(whole.buffer.subrange(i + 1, whole.buffer.len() as int) =~= rest + bytes);
        assert(pending_line(m) == Some((line, rest)));
        assert(pending_line(whole) == Some((line, rest + bytes)));
        let left = m.left_with(rest);
        assert(whole.left_with(rest + bytes) == left.receive(bytes));
        if !valid_utf8(line) {
            assert(whole.end() == m.end());
            assert(m.end().receive(bytes) == m.end());
            assert(drain(m.end()).0 =~= Seq::<Result<Seq<char>, ClientErrorModel>>::empty());
            assert(drain(m).0 + drain(m.end()).0 =~= drain(m).0);
        } else {
            lemma_delivery_is_immaterial(left, bytes);
            let second = drain(drain(left).1.receive(bytes)).0;
            if !is_blank(decode_utf8(line)) {
                assert(seq![Ok::<Seq<char>, ClientErrorModel>(decode_utf8(line))] + (drain(left).0
                    + second) =~= (seq![Ok::<Seq<char>, ClientErrorModel>(decode_utf8(line))]
                    + drain(left).0) + second);
            }
        }
    } else {
        assert(pending_line(m) is None);
        assert(drain(m).0 + drain(whole).0 =~= drain(whole).0);
    }
}

/// What a frame is, with its texts as sequences of characters.
pub open spec fn frame_model(frame: Option<Result<String, ClientError>>) -> Option<
    Result<Seq<char>, ClientErrorModel>,
> {
    match frame {
        Some(Ok(line)) => Some(Ok(line@)),
        Some(Err(error)) => Some(Err(error@)),
        None => None,
    }
}

/// A failure status: the answer holds no chunks, only a body that says what
/// went wrong.
#[derive(Debug, Clone, PartialEq, Eq)]
pub struct Rejection {
    pub status: u16,
}

impl Rejection {
    /// The failure to report, once the body of the answer has been read.
    pub fn with_body(&self, body: &str) -> (error: ClientError)
        ensures
            error@ == (ClientErrorModel::Protocol { status: Some(self.status), detail: body@ }),
    {
        ClientError::rejected(self.status, body)
    }
}

/// The streamed answer to one generation.
#[derive(Debug)]
pub struct GenerateStream {
    buffer: Vec<u8>,
    closed: bool,
    ended: bool,
}

impl View for GenerateStream {
    type V = StreamModel;

    closed spec fn view(&self) -> StreamModel {
        StreamModel { buffer: self.buffer@, closed: self.closed, ended: self.ended }
    }
}

impl GenerateStream {
    /// Judges the status of the answer. A success status opens the stream,
    /// with nothing received yet; any other status yields no stream, and so
    /// no chunk.
    pub fn open(status: u16) -> (opened: Result<GenerateStream, Rejection>)
        ensures
            opened is Ok == is_success(status),
            opened matches Ok(stream) ==> stream@ == (StreamModel {
                buffer: Seq::empty(),
                closed: false,
                ended: false,
            }),
            opened matches Err(rejection) ==> rejection.status == status,
    {
        if 200 <= status && status < 300 {
            Ok(GenerateStream { buffer: Vec::new(), closed: false, ended: false })
        } else {
            Err(Rejection { status })
        }
    }

    /// Takes in bytes that the transport delivered. A stream that is over,
    /// or whose transport has closed, takes no more.
    pub fn receive(&mut self, bytes: &[u8])
        ensures
            final(self)@ == old(self)@.receive(bytes@),
    {
        if !self.ended && !self.closed {
            let ghost before = self.buffer@;
            let mut i: usize = 0;
            while i < bytes.len()
                invariant
                    i <= bytes.len(),
                    self.buffer@ == before + bytes@.subrange(0, i as int),
                    self.closed == old(self).closed,
                    self.ended == old(self).ended,
                decreases bytes.len() - i,
            {
                self.buffer.push(bytes[i]);
                i += 1;
                assert(self.buffer@ =~= before + bytes@.subrange(0, i as int));
            }
            assert(bytes@.subrange(0, i as int) =~= bytes@);
        }
    }

    /// Notes that the transport has closed.
    pub fn close(&mut self)
        ensures
            final(self)@ == old(self)@.close(),
    {
        if !self.ended {
            self.closed = true;
        }
    }

    /// Gives the stream up: it is over, and what was received is dropped.
    pub fn cancel(&mut self)
        ensures
            final(self)@ == old(self)@.end(),
    {
        self.buffer = Vec::new();
        self.ended = true;
    }

    /// Notes that the transport failed: the stream is over, and the failure
    /// is what it yields last.
    pub fn fail(&mut self, detail: &str) -> (error: ClientError)
        ensures
            final(self)@ == old(self)@.end(),
            error@ == (ClientErrorModel::Transport { detail: detail@ }),
    {
        self.cancel();
        ClientError::transport(detail)
    }

    /// Whether the stream is over.
    pub fn is_ended(&self) -> (ended: bool)
        ensures
            ended == self@.ended,
    {
        self.ended
    }

    /// Takes the next line out of the buffer, as bytes.
    fn take_line(&mut self) -> (line: Option<Vec<u8>>)
        ensures
            match pending_line(old(self)@) {
                Some((bytes, rest)) => {
                    &&& line matches Some(taken) && taken@ == bytes
                    &&& final(self)@ == old(self)@.left_with(rest)
                },
                None => line is None && final(self)@ == old(self)@,
            },
    {
        if self.ended {
            return None;
        }
        let ghost before = self.buffer@;
        let n = self.buffer.len();
        let mut i: usize = 0;
        while i < n && self.buffer[i] != LINE_FEED
            invariant
                i <= n,
                n == self.buffer.len(),
                self.buffer@ == before,
                forall|j: int| 0 <= j < i ==> before[j] != LINE_FEED,
            decreases n - i,
        {
            i += 1;
        }
        if i < n {
            assert(is_first_line_feed(before, i as int));
            assert(first_line_feed(before) == i as int);
            let mut line = self.buffer.split_off(i + 1);
            core::mem::swap(&mut self.buffer, &mut line);
            line.pop();
            assert(line@ =~= before.subrange(0, i as int));
            if line.len() > 0 && line[line.len() - 1] == CARRIAGE_RETURN {
                line.pop();
            }
            assert(line@ =~= strip_return(before.subrange(0, i as int)));
            Some(line)
        } else {
            assert(!has_line_feed(before));
            if self.closed && n > 0 && !(n == 1 && self.buffer[0] == CARRIAGE_RETURN) {
                assert(before != seq![CARRIAGE_RETURN]) by {
                    if before == seq![CARRIAGE_RETURN] {
                        assert(seq![CARRIAGE_RETURN].len() == 1);
                        assert(seq![CARRIAGE_RETURN][0] == CARRIAGE_RETURN);
                    }
                }
                let mut line: Vec<u8> = Vec::new();
                core::mem::swap(&mut self.buffer, &mut line);
                if line[line.len() - 1] == CARRIAGE_RETURN {
                    line.pop();
                }
                assert(line@ =~= strip_return(before));
                Some(line)
            } else {
                assert(self.closed && n > 0 ==> before =~= seq![CARRIAGE_RETURN]);
                None
            }
        }
    }

    /// The next line to decode, if the buffer holds one; a failure, if the
    /// next line is not valid UTF-8. Blank lines are passed over.
    pub fn next_frame(&mut self) -> (frame: Option<Result<String, ClientError>>)
        ensures
            (frame_model(frame), final(self)@) == poll(old(self)@),
    {
        loop
            invariant
                poll(self@) == poll(old(self)@),
            decreases self.buffer.len(),
        {
            let ghost here = self@;
            proof {
                lemma_line_shortens(here);
            }
            match self.take_line() {
                None => {
                    if self.closed && !self.ended {
                        self.cancel();
                    }
                    return None;
                },
                Some(line) => {
                    let ghost bytes = line@;
                    match text_of(line) {
                        None => {
                            self.cancel();
                            return Some(
                                Err(ClientError::malformed("Unable to decode input as UTF8")),
                            );
                        },
                        Some(text) => {
                            proof {
                                vstd::utf8::encode_utf8_decode_utf8(text@);
                            }
                            if !trim(text.as_str()).is_empty() {
                                return Some(Ok(text));
                            }
                        },
                    }
                },
            }
        }
    }

    /// Takes in what the decoder made of a line. A chunk is handed on as it
    /// is, and ends the stream if it says that it is the last one. A line
    /// that could not be decoded yields a failure with the decoder's words;
    /// the stream goes on.
    pub fn accept(&mut self, decoded: Result<GenerateResponse, String>) -> (item: Result<
        GenerateResponse,
        ClientError,
    >)
        ensures
            match decoded {
                Ok(chunk) => {
                    &&& item == Ok::<GenerateResponse, ClientError>(chunk)
                    &&& final(self)@ == if chunk.done {
                        old(self)@.end()
                    } else {
                        old(self)@
                    }
                },
                Err(detail) => {
                    &&& item matches Err(error) && error@ == (ClientErrorModel::Protocol {
                        status: None,
                        detail: detail@,
                    })
                    &&& final(self)@ == old(self)@
                },
            },
    {
        match decoded {
            Ok(chunk) => {
                if chunk.done {
                    self.cancel();
                }
                Ok(chunk)
            },
            Err(detail) => Err(ClientError::malformed(detail.as_str())),
        }
    }
}

} // verus!
