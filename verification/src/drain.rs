//! The stream drain: cutting the output of the backend into log lines.
//!
//! Each of the two output streams of the child has a drain of its own. The
//! embedding program reads the pipe, in chunks of whatever size arrives, and
//! feeds each chunk to the drain; the drain hands back the lines that the
//! chunk completed, tagged with the stream they came from. A line ends at a
//! line feed; a carriage return just before the line feed belongs to the
//! line ending. What is left when the stream ends is a last line. No byte
//! of a line is dropped and none is forwarded twice, however the stream was
//! cut into chunks.

use vstd::prelude::*;
use vstd::string::StringSliceAdditionalSpecFns;

verus! {

/// The byte that ends a line.
pub const LINE_FEED: u8 = 10;

/// The byte that may precede a line feed as part of the line ending.
pub const CARRIAGE_RETURN: u8 = 13;

/// The stream a line came from.
#[derive(Clone, Copy, Debug, PartialEq, Eq, Structural)]
pub enum StreamOrigin {
    /// The standard output of the child.
    Stdout,
    /// The standard error of the child.
    Stderr,
}

/// One line of output, without its line ending.
#[derive(Debug, PartialEq, Eq)]
pub struct LogLine {
    /// The stream the line came from.
    pub origin: StreamOrigin,
    /// The bytes of the line.
    pub text: Vec<u8>,
}

/// A line as a mathematical value.
pub ghost struct LogLineView {
    pub origin: StreamOrigin,
    pub text: Seq<u8>,
}

impl View for LogLine {
    type V = LogLineView;

    open spec fn view(&self) -> LogLineView {
        LogLineView { origin: self.origin, text: self.text@ }
    }
}

impl DeepView for LogLine {
    type V = LogLineView;

    open spec fn deep_view(&self) -> LogLineView {
        self.view()
    }
}

/// A line without the carriage return at its end, if it has one.
pub open spec fn without_carriage_return(line: Seq<u8>) -> Seq<u8> {
    if line.len() > 0 && line.last() == CARRIAGE_RETURN {
        line.drop_last()
    } else {
        line
    }
}

/// What a drain makes of a chunk: the lines that the chunk completes, in
/// order, and the bytes that are left pending after it. `pending` holds the
/// bytes that were left pending before the chunk.
pub open spec fn drain_spec(pending: Seq<u8>, chunk: Seq<u8>) -> (Seq<Seq<u8>>, Seq<u8>)
    decreases chunk.len(),
{
    if chunk.len() == 0 {
        (Seq::empty(), pending)
    } else {
        let (lines, tail) = drain_spec(pending, chunk.drop_last());
        if chunk.last() == LINE_FEED {
            (lines.push(without_carriage_return(tail)), Seq::empty())
        } else {
            (lines, tail.push(chunk.last()))
        }
    }
}

/// The last line of a stream that has ended: the pending bytes, if there
/// are any.
pub open spec fn last_line_spec(pending: Seq<u8>) -> Seq<Seq<u8>> {
    if pending.len() > 0 {
        seq![pending]
    } else {
        Seq::empty()
    }
}

/// The lines of a whole stream.
pub open spec fn lines_of(stream: Seq<u8>) -> Seq<Seq<u8>> {
    drain_spec(Seq::empty(), stream).0 + last_line_spec(drain_spec(Seq::empty(), stream).1)
}

/// The given texts as lines of one origin.
pub open spec fn tagged(origin: StreamOrigin, texts: Seq<Seq<u8>>) -> Seq<LogLineView> {
    Seq::new(texts.len(), |i: int| LogLineView { origin, text: texts[i] })
}

/// The text that marks a line of the given origin in the log.
pub open spec fn label_spec(origin: StreamOrigin) -> Seq<char> {
    match origin {
        StreamOrigin::Stdout => "[api stdout] "@,
        StreamOrigin::Stderr => "[api stderr] "@,
    }
}

/// A line as it is written to the log: the label of its origin in UTF-8,
/// the bytes of the line, and a line feed.
pub open spec fn render_spec(line: LogLineView) -> Seq<u8> {
    vstd::utf8::encode_utf8(label_spec(line.origin)) + line.text + seq![LINE_FEED]
}

/// A drain as a mathematical value.
pub ghost struct DrainView {
    /// The stream that is drained.
    pub origin: StreamOrigin,
    /// The bytes received since the last line ending.
    pub pending: Seq<u8>,
}

/// The drain of one output stream.
#[derive(Debug)]
pub struct StreamDrain {
    origin: StreamOrigin,
    pending: Vec<u8>,
}

impl View for StreamDrain {
    type V = DrainView;

    closed spec fn view(&self) -> DrainView {
        DrainView { origin: self.origin, pending: self.pending@ }
    }
}

/// Appends `bytes` to `out`.
fn append_bytes(out: &mut Vec<u8>, bytes: &[u8])
    ensures
        final(out)@ == old(out)@ + bytes@,
{
    let mut i: usize = 0;
    while i < bytes.len()
        invariant
            i <= bytes.len(),
            out@ == old(out)@ + bytes@.take(i as int),
        decreases bytes.len() - i,
    {
        out.push(bytes[i]);
        assert(bytes@.take(i + 1) =~= bytes@.take(i as int).push(bytes@[i as int]));
        i += 1;
    }
    assert(bytes@.take(bytes.len() as int) =~= bytes@);
}

impl StreamDrain {
    /// A drain for the stream `origin` that has received nothing yet.
    pub fn new(origin: StreamOrigin) -> (drain: Self)
        ensures
            drain@ == (DrainView { origin, pending: Seq::empty() }),
    {
        StreamDrain { origin, pending: Vec::new() }
    }

    /// The stream that is drained.
    pub fn origin(&self) -> (origin: StreamOrigin)
        ensures
            origin == self@.origin,
    {
        self.origin
    }

    /// Takes the next chunk of the stream and hands back the lines that it
    /// completes, in order, each tagged with the origin of the drain. Bytes
    /// after the last line ending are kept for the next chunk.
    pub fn feed(&mut self, chunk: &[u8]) -> (lines: Vec<LogLine>)
        ensures
            final(self)@.origin == old(self)@.origin,
            lines.deep_view() == tagged(
                old(self)@.origin,
                drain_spec(old(self)@.pending, chunk@).0,
            ),
            final(self)@.pending == drain_spec(old(self)@.pending, chunk@).1,
    {
        let mut lines: Vec<LogLine> = Vec::new();
        let mut i: usize = 0;
        while i < chunk.len()
            invariant
                i <= chunk.len(),
                self.origin == old(self).origin,
                lines.len() == drain_spec(old(self).pending@, chunk@.take(i as int)).0.len(),
                forall|j: int|
                    0 <= j < lines.len() ==> (#[trigger] lines[j])@ == (LogLineView {
                        origin: self.origin,
                        text: drain_spec(old(self).pending@, chunk@.take(i as int)).0[j],
                    }),
                self.pending@ == drain_spec(old(self).pending@, chunk@.take(i as int)).1,
            decreases chunk.len() - i,
        {
            let byte = chunk[i];
            proof {
                assert(chunk@.take(i + 1).drop_last() =~= chunk@.take(i as int));
                assert(chunk@.take(i + 1).last() == byte);
            }
            if byte == LINE_FEED {
                let mut text: Vec<u8> = Vec::new();
                core::mem::swap(&mut self.pending, &mut text);
                let length = text.len();
                if length > 0 && text[length - 1] == CARRIAGE_RETURN {
                    text.pop();
                }
                lines.push(LogLine { origin: self.origin, text });
            } else {
                self.pending.push(byte);
            }
            i += 1;
        }
        assert(chunk@.take(chunk.len() as int) =~= chunk@);
        assert(lines.deep_view() =~= tagged(
            self.origin,
            drain_spec(old(self).pending@, chunk@).0,
        ));
        lines
    }

    /// Ends the stream: hands back what was pending as a last line, if
    /// anything was.
    pub fn finish(self) -> (last: Option<LogLine>)
        ensures
            match last {
                Some(line) => last_line_spec(self@.pending) == seq![line@.text] && line@.origin
                    == self@.origin,
                None => last_line_spec(self@.pending) == Seq::<Seq<u8>>::empty(),
            },
    {
        if self.pending.len() > 0 {
            Some(LogLine { origin: self.origin, text: self.pending })
        } else {
            None
        }
    }
}

/// The label that marks a line of the given origin in the log.
pub fn label(origin: StreamOrigin) -> (text: &'static str)
    ensures
        text@ == label_spec(origin),
{
    match origin {
        StreamOrigin::Stdout => "[api stdout] ",
        StreamOrigin::Stderr => "[api stderr] ",
    }
}

/// Renders a line as it is written to the log, in one piece: the label of
/// its origin, the line, and a line feed.
pub fn render(line: &LogLine) -> (bytes: Vec<u8>)
    ensures
        bytes@ == render_spec(line@),
{
    let mut bytes: Vec<u8> = Vec::new();
    let text = label(line.origin);
    append_bytes(&mut bytes, text.as_bytes());
    append_bytes(&mut bytes, line.text.as_slice());
    bytes.push(LINE_FEED);
    assert(bytes@ =~= render_spec(line@));
    bytes
}

/// One chunk of output arriving on one of the two streams.
pub ghost struct Emission {
    pub origin: StreamOrigin,
    pub chunk: Seq<u8>,
}

/// The two drains of a child and everything they have forwarded so far, in
/// the order in which it was forwarded.
pub ghost struct DrainPair {
    pub stdout_pending: Seq<u8>,
    pub stderr_pending: Seq<u8>,
    pub forwarded: Seq<LogLineView>,
}

impl DrainPair {
    /// Two drains that have received nothing.
    pub open spec fn fresh() -> DrainPair {
        DrainPair {
            stdout_pending: Seq::empty(),
            stderr_pending: Seq::empty(),
            forwarded: Seq::empty(),
        }
    }

    /// The bytes pending in the drain of `origin`.
    pub open spec fn pending(self, origin: StreamOrigin) -> Seq<u8> {
        match origin {
            StreamOrigin::Stdout => self.stdout_pending,
            StreamOrigin::Stderr => self.stderr_pending,
        }
    }

    /// The pair after one chunk has been fed to the drain of its stream and
    /// the lines it completed have been forwarded.
    pub open spec fn receive(self, emission: Emission) -> DrainPair {
        let (lines, tail) = drain_spec(self.pending(emission.origin), emission.chunk);
        let forwarded = self.forwarded + tagged(emission.origin, lines);
        match emission.origin {
            StreamOrigin::Stdout => DrainPair { stdout_pending: tail, forwarded, ..self },
            StreamOrigin::Stderr => DrainPair { stderr_pending: tail, forwarded, ..self },
        }
    }

    /// The pair after a sequence of chunks, in the order in which they
    /// arrived.
    pub open spec fn receive_all(self, emissions: Seq<Emission>) -> DrainPair
        decreases emissions.len(),
    {
        if emissions.len() == 0 {
            self
        } else {
            self.receive_all(emissions.drop_last()).receive(emissions.last())
        }
    }

    /// Everything forwarded once both streams have ended: what was
    /// forwarded before, then the last line of each stream.
    pub open spec fn close(self) -> Seq<LogLineView> {
        self.forwarded + tagged(StreamOrigin::Stdout, last_line_spec(self.stdout_pending))
            + tagged(StreamOrigin::Stderr, last_line_spec(self.stderr_pending))
    }
}

/// The bytes that one stream carried: the chunks of that origin, joined in
/// the order in which they arrived.
pub open spec fn stream_of(emissions: Seq<Emission>, origin: StreamOrigin) -> Seq<u8>
    decreases emissions.len(),
{
    if emissions.len() == 0 {
        Seq::empty()
    } else if emissions.last().origin == origin {
        stream_of(emissions.drop_last(), origin) + emissions.last().chunk
    } else {
        stream_of(emissions.drop_last(), origin)
    }
}

/// The texts of the lines tagged with `origin`, in order.
pub open spec fn texts_of(lines: Seq<LogLineView>, origin: StreamOrigin) -> Seq<Seq<u8>>
    decreases lines.len(),
{
    if lines.len() == 0 {
        Seq::empty()
    } else if lines.last().origin == origin {
        texts_of(lines.drop_last(), origin).push(lines.last().text)
    } else {
        texts_of(lines.drop_last(), origin)
    }
}

/// How a stream is cut into chunks makes no difference: feeding `first` and
/// then `second` completes the same lines, in the same order, and leaves the
/// same bytes pending, as feeding both in one piece.
pub proof fn lemma_chunking_is_irrelevant(pending: Seq<u8>, first: Seq<u8>, second: Seq<u8>)
    ensures
        drain_spec(pending, first + second).0 == drain_spec(pending, first).0 + drain_spec(
            drain_spec(pending, first).1,
            second,
        ).0,
        drain_spec(pending, first + second).1 == drain_spec(
            drain_spec(pending, first).1,
            second,
        ).1,
    decreases second.len(),
{
    if second.len() == 0 {
        assert(first + second =~= first);
        assert(drain_spec(pending, first).0 + Seq::<Seq<u8>>::empty() =~= drain_spec(
            pending,
            first,
        ).0);
    } else {
        assert((first + second).drop_last() =~= first + second.drop_last());
        assert((first + second).last() == second.last());
        lemma_chunking_is_irrelevant(pending, first, second.drop_last());
        let before = drain_spec(pending, first);
        let rest = drain_spec(before.1, second.drop_last());
        if second.last() == LINE_FEED {
            assert((before.0 + rest.0).push(without_carriage_return(rest.1)) =~= before.0
                + rest.0.push(without_carriage_return(rest.1)));
        }
    }
}

/// The texts of one origin among lines that were forwarded one batch after
/// the other are the texts in the first batch followed by those in the
/// second.
pub proof fn lemma_texts_of_concat(
    first: Seq<LogLineView>,
    second: Seq<LogLineView>,
    origin: StreamOrigin,
)
    ensures
        texts_of(first + second, origin) == texts_of(first, origin) + texts_of(second, origin),
    decreases second.len(),
{
    if second.len() == 0 {
        assert(first + second =~= first);
        assert(texts_of(first, origin) + Seq::<Seq<u8>>::empty() =~= texts_of(first, origin));
    } else {
        assert((first + second).drop_last() =~= first + second.drop_last());
        assert((first + second).last() == second.last());
        lemma_texts_of_concat(first, second.drop_last(), origin);
        if second.last().origin == origin {
            assert((texts_of(first, origin) + texts_of(second.drop_last(), origin)).push(
                second.last().text,
            ) =~= texts_of(first, origin) + texts_of(second.drop_last(), origin).push(
                second.last().text,
            ));
        }
    }
}

/// Lines carry the tag they were given: among lines tagged with one origin,
/// the texts of that origin are all of them, and the texts of the other
/// origin are none.
pub proof fn lemma_texts_of_tagged(tag: StreamOrigin, texts: Seq<Seq<u8>>, origin: StreamOrigin)
    ensures
        texts_of(tagged(tag, texts), origin) == if tag == origin {
            texts
        } else {
            Seq::<Seq<u8>>::empty()
        },
    decreases texts.len(),
{
    if texts.len() > 0 {
        assert(tagged(tag, texts).drop_last() =~= tagged(tag, texts.drop_last()));
        lemma_texts_of_tagged(tag, texts.drop_last(), origin);
        if tag == origin {
            assert(texts.drop_last().push(texts.last()) =~= texts);
        }
    } else {
        assert(texts =~= Seq::<Seq<u8>>::empty());
    }
}

/// While the two streams are being drained, in whatever order their chunks
/// arrive: what has been forwarded with the tag of a stream are the lines
/// completed so far in that stream, and what is pending in its drain are
/// the bytes after them.
pub proof fn lemma_drains_follow_their_streams(emissions: Seq<Emission>, origin: StreamOrigin)
    ensures
        texts_of(DrainPair::fresh().receive_all(emissions).forwarded, origin) == drain_spec(
            Seq::empty(),
            stream_of(emissions, origin),
        ).0,
        DrainPair::fresh().receive_all(emissions).pending(origin) == drain_spec(
            Seq::empty(),
            stream_of(emissions, origin),
        ).1,
    decreases emissions.len(),
{
    if emissions.len() == 0 {
    } else {
        let earlier = emissions.drop_last();
        let emission = emissions.last();
        let before = DrainPair::fresh().receive_all(earlier);
        lemma_drains_follow_their_streams(earlier, origin);
        let (lines, tail) = drain_spec(before.pending(emission.origin), emission.chunk);
        lemma_texts_of_concat(before.forwarded, tagged(emission.origin, lines), origin);
        lemma_texts_of_tagged(emission.origin, lines, origin);
        if emission.origin == origin {
            lemma_chunking_is_irrelevant(
                Seq::empty(),
                stream_of(earlier, origin),
                emission.chunk,
            );
        } else {
            assert(texts_of(before.forwarded, origin) + Seq::<Seq<u8>>::empty() =~= texts_of(
                before.forwarded,
                origin,
            ));
        }
    }
}

/// Every line that a drain pair has forwarded carries one of the two tags,
/// so the lines of both tags together are all of them.
pub proof fn lemma_every_line_has_an_origin(lines: Seq<LogLineView>)
    ensures
        lines.len() == texts_of(lines, StreamOrigin::Stdout).len() + texts_of(
            lines,
            StreamOrigin::Stderr,
        ).len(),
    decreases lines.len(),
{
    if lines.len() > 0 {
        lemma_every_line_has_an_origin(lines.drop_last());
    }
}

/// Whatever the child wrote on its two streams before it exited, and in
/// whatever pieces and order it arrived: once both streams have ended, what
/// was forwarded with the tag of a stream is exactly the lines of that
/// stream, in order. Nothing is dropped, nothing is forwarded twice, and no
/// line carries the wrong tag; so the number of lines forwarded is the
/// number of lines written.
pub proof fn lemma_every_line_is_forwarded_once(emissions: Seq<Emission>)
    ensures
        ({
            let forwarded = DrainPair::fresh().receive_all(emissions).close();
            let stdout = lines_of(stream_of(emissions, StreamOrigin::Stdout));
            let stderr = lines_of(stream_of(emissions, StreamOrigin::Stderr));
            &&& texts_of(forwarded, StreamOrigin::Stdout) == stdout
            &&& texts_of(forwarded, StreamOrigin::Stderr) == stderr
            &&& forwarded.len() == stdout.len() + stderr.len()
        }),
{
    let pair = DrainPair::fresh().receive_all(emissions);
    let forwarded = pair.close();
    let last_stdout = tagged(StreamOrigin::Stdout, last_line_spec(pair.stdout_pending));
    let last_stderr = tagged(StreamOrigin::Stderr, last_line_spec(pair.stderr_pending));
    lemma_drains_follow_their_streams(emissions, StreamOrigin::Stdout);
    lemma_drains_follow_their_streams(emissions, StreamOrigin::Stderr);
    lemma_texts_of_concat(pair.forwarded + last_stdout, last_stderr, StreamOrigin::Stdout);
    lemma_texts_of_concat(pair.forwarded + last_stdout, last_stderr, StreamOrigin::Stderr);
    lemma_texts_of_concat(pair.forwarded, last_stdout, StreamOrigin::Stdout);
    lemma_texts_of_concat(pair.forwarded, last_stdout, StreamOrigin::Stderr);
    lemma_texts_of_tagged(
        StreamOrigin::Stdout,
        last_line_spec(pair.stdout_pending),
        StreamOrigin::Stdout,
    );
    lemma_texts_of_tagged(
        StreamOrigin::Stdout,
        last_line_spec(pair.stdout_pending),
        StreamOrigin::Stderr,
    );
    lemma_texts_of_tagged(
        StreamOrigin::Stderr,
        last_line_spec(pair.stderr_pending),
        StreamOrigin::Stdout,
    );
    lemma_texts_of_tagged(
        StreamOrigin::Stderr,
        last_line_spec(pair.stderr_pending),
        StreamOrigin::Stderr,
    );
    assert(texts_of(forwarded, StreamOrigin::Stdout) =~= lines_of(
        stream_of(emissions, StreamOrigin::Stdout),
    ));
    assert(texts_of(forwarded, StreamOrigin::Stderr) =~= lines_of(
        stream_of(emissions, StreamOrigin::Stderr),
    ));
    lemma_every_line_has_an_origin(forwarded);
}

} // verus!
