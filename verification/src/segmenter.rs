//! Cuts an input stream into snapshots of the running message.
//!
//! The input arrives in chunks of bytes. A chunk that is not valid UTF-8 on
//! its own, for one because it ends in the middle of a character, is
//! rejected whole: the running message keeps what it held, no snapshot is
//! made of the chunk, and the next chunk is taken as it comes.

use vstd::prelude::*;
use vstd::slice::slice_to_vec;
use vstd::string::*;
use vstd::utf8::*;

verus! {

/// What a new chunk does to the running message.
#[derive(Clone, Copy, Debug, PartialEq, Eq, Structural)]
pub enum BufferMode {
    /// The chunk takes the place of the message.
    Replace,
    /// The chunk is added at the end of the message.
    Append,
}

/// Why a chunk was rejected.
#[derive(Clone, Copy, Debug, PartialEq, Eq, Structural)]
pub enum ChunkError {
    /// The chunk is not valid UTF-8.
    InvalidUtf8,
}

/// The running message of one input stream.
#[derive(Debug)]
pub struct Segmenter {
    mode: BufferMode,
    buffer: String,
    finished: bool,
}

/// What a [`Segmenter`] holds.
pub struct SegmenterView {
    pub mode: BufferMode,
    /// The running message.
    pub buffer: Seq<char>,
    /// Whether the end of the stream was seen.
    pub finished: bool,
}

/// What a chunk yields.
pub enum Fed {
    /// The running message after the chunk.
    Snapshot(Seq<char>),
    /// Nothing: the stream has ended.
    End,
    /// Nothing: the chunk was rejected.
    Rejected,
}

/// `std::string::FromUtf8Error` of std, carried as it is.
#[verifier::external_type_specification]
#[verifier::external_body]
pub struct ExFromUtf8Error(std::string::FromUtf8Error);

/// `String::from_utf8` of std: the string that the bytes encode where they
/// are valid UTF-8, and an error where they are not.
pub assume_specification[ String::from_utf8 ](vec: Vec<u8>) -> (r: Result<
    String,
    std::string::FromUtf8Error,
>)
    ensures
        r is Ok <==> valid_utf8(vec@),
        r matches Ok(text) ==> text@ == decode_utf8(vec@),
;

/// The state of a segmenter in `mode` before its first chunk.
pub open spec fn fresh(mode: BufferMode) -> SegmenterView {
    SegmenterView { mode, buffer: Seq::empty(), finished: false }
}

/// What one chunk does: the state after it, and what it yields.
///
/// After the end of the stream nothing changes any more. An empty chunk is
/// the end of the stream. A chunk that is not valid UTF-8 is rejected. Any
/// other chunk yields the running message, which it has replaced or
/// extended.
pub open spec fn feed_spec(before: SegmenterView, chunk: Seq<u8>) -> (SegmenterView, Fed) {
    if before.finished {
        (before, Fed::End)
    } else if chunk.len() == 0 {
        (SegmenterView { finished: true, ..before }, Fed::End)
    } else if !valid_utf8(chunk) {
        (before, Fed::Rejected)
    } else {
        let text = decode_utf8(chunk);
        let buffer = match before.mode {
            BufferMode::Replace => text,
            BufferMode::Append => before.buffer + text,
        };
        (SegmenterView { buffer, ..before }, Fed::Snapshot(buffer))
    }
}

/// What the result of [`Segmenter::feed`] stands for.
pub open spec fn fed_of(r: Result<Option<String>, ChunkError>) -> Fed {
    match r {
        Ok(Some(snapshot)) => Fed::Snapshot(snapshot@),
        Ok(None) => Fed::End,
        Err(_) => Fed::Rejected,
    }
}

impl View for Segmenter {
    type V = SegmenterView;

    closed spec fn view(&self) -> SegmenterView {
        SegmenterView { mode: self.mode, buffer: self.buffer@, finished: self.finished }
    }
}

impl Segmenter {
    /// A segmenter with an empty running message.
    pub fn new(mode: BufferMode) -> (segmenter: Segmenter)
        ensures
            segmenter@ == fresh(mode),
    {
        Segmenter { mode, buffer: String::new(), finished: false }
    }

    pub fn mode(&self) -> (mode: BufferMode)
        ensures
            mode == self@.mode,
    {
        self.mode
    }

    /// Whether the end of the stream was seen.
    pub fn is_finished(&self) -> (finished: bool)
        ensures
            finished == self@.finished,
    {
        self.finished
    }

    /// The running message.
    pub fn buffer(&self) -> (buffer: &str)
        ensures
            buffer@ == self@.buffer,
    {
        self.buffer.as_str()
    }

    /// Takes the next chunk of the stream.
    ///
    /// `Ok(Some(..))` is the snapshot that the chunk yields, `Ok(None)`
    /// says that the stream has ended, with this chunk or before it, and
    /// `Err` that the chunk was rejected.
    pub fn feed(&mut self, chunk: &[u8]) -> (r: Result<Option<String>, ChunkError>)
        ensures
            final(self)@ == feed_spec(old(self)@, chunk@).0,
            fed_of(r) == feed_spec(old(self)@, chunk@).1,
    {
        if self.finished {
            return Ok(None);
        }
        if chunk.len() == 0 {
            self.finished = true;
            return Ok(None);
        }
        match String::from_utf8(slice_to_vec(chunk)) {
            Err(_) => Err(ChunkError::InvalidUtf8),
            Ok(text) => {
                match self.mode {
                    BufferMode::Replace => {
                        self.buffer = text;
                    },
                    BufferMode::Append => {
                        self.buffer.append(text.as_str());
                    },
                }
                Ok(Some(self.buffer.clone()))
            },
        }
    }
}

/// The state of a segmenter after the chunks, taken in order.
pub open spec fn after(start: SegmenterView, chunks: Seq<Seq<u8>>) -> SegmenterView
    decreases chunks.len(),
{
    if chunks.len() == 0 {
        start
    } else {
        feed_spec(after(start, chunks.drop_last()), chunks.last()).0
    }
}

/// The snapshots that the chunks yield, taken in order.
pub open spec fn snapshots(start: SegmenterView, chunks: Seq<Seq<u8>>) -> Seq<Seq<char>>
    decreases chunks.len(),
{
    if chunks.len() == 0 {
        Seq::empty()
    } else {
        let earlier = snapshots(start, chunks.drop_last());
        match feed_spec(after(start, chunks.drop_last()), chunks.last()).1 {
            Fed::Snapshot(text) => earlier.push(text),
            _ => earlier,
        }
    }
}

/// Chunks taken one after the other do what they do taken at once.
pub proof fn lemma_chunks_in_turn(start: SegmenterView, first: Seq<Seq<u8>>, then: Seq<Seq<u8>>)
    ensures
        after(start, first + then) == after(after(start, first), then),
        snapshots(start, first + then) == snapshots(start, first) + snapshots(
            after(start, first),
            then,
        ),
    decreases then.len(),
{
    if then.len() == 0 {
        assert(first + then =~= first);
        assert(snapshots(start, first) + Seq::<Seq<char>>::empty() =~= snapshots(start, first));
    } else {
        assert((first + then).drop_last() =~= first + then.drop_last());
        lemma_chunks_in_turn(start, first, then.drop_last());
        let middle = after(after(start, first), then.drop_last());
        let earlier = snapshots(start, first) + snapshots(after(start, first), then.drop_last());
        match feed_spec(middle, then.last()).1 {
            Fed::Snapshot(text) => {
                assert(earlier.push(text) =~= snapshots(start, first) + snapshots(
                    after(start, first),
                    then.drop_last(),
                ).push(text));
            },
            _ => {},
        }
    }
}

/// After the end of the stream no chunk yields a snapshot or changes the
/// running message.
pub proof fn lemma_end_is_final(start: SegmenterView, chunks: Seq<Seq<u8>>)
    requires
        start.finished,
    ensures
        after(start, chunks) == start,
        snapshots(start, chunks).len() == 0,
    decreases chunks.len(),
{
    if chunks.len() > 0 {
        lemma_end_is_final(start, chunks.drop_last());
    }
}

/// An empty chunk ends the sequence of snapshots at once, in either mode:
/// whatever follows it, the snapshots are those of the chunks before it,
/// and the running message stays as it was.
pub proof fn lemma_empty_chunk_ends(
    start: SegmenterView,
    before: Seq<Seq<u8>>,
    rest: Seq<Seq<u8>>,
)
    ensures
        snapshots(start, before + seq![Seq::<u8>::empty()] + rest) == snapshots(start, before),
        after(start, before + seq![Seq::<u8>::empty()] + rest).finished,
        after(start, before + seq![Seq::<u8>::empty()] + rest).buffer == after(
            start,
            before,
        ).buffer,
{
    let end = seq![Seq::<u8>::empty()];
    let reached = after(start, before);
    lemma_chunks_in_turn(start, before + end, rest);
    lemma_chunks_in_turn(start, before, end);
    assert(end.drop_last() =~= Seq::<Seq<u8>>::empty());
    assert(after(reached, end.drop_last()) == reached);
    assert(snapshots(reached, end.drop_last()).len() == 0);
    assert(after(reached, end) == feed_spec(reached, end.last()).0);
    assert(snapshots(reached, end).len() == 0);
    lemma_end_is_final(after(reached, end), rest);
    assert(snapshots(start, before + end + rest) =~= snapshots(start, before));
}

} // verus!
