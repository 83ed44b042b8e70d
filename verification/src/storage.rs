//! The producer's side of the stream: the loop that reads the asset from
//! storage chunk by chunk and sends its samples, byte by byte, into the queue
//! between the cores.
//!
//! The loop's decisions stand here. `next_step` says what the loop does next;
//! `chunk_read` and `word_written` record that it was done. Whoever runs the
//! loop reads from storage and writes to the queue. Storage is read nowhere
//! else, and never from an interrupt handler.

use vstd::prelude::*;
use crate::channel::{
    encode_sample, goes_through, queue_after, word_of, ChannelOp, InterCoreChannel, CAPACITY,
    END_OF_STREAM,
};
use crate::player::wav::HEADER_LEN;

verus! {

/// Number of bytes that one read from storage asks for.
pub const CHUNK_LEN: usize = 128;

/// What the producer's loop does next.
#[derive(Clone, Copy, Debug, PartialEq, Eq, Structural)]
pub enum ProducerStep {
    /// Read up to `CHUNK_LEN` bytes from storage and hand them to `chunk_read`.
    ReadChunk,
    /// Write this word into the queue, waiting for room, then call
    /// `word_written`.
    Write(u32),
    /// The stream has been sent, its end included.
    Finished,
}

/// The producer as plain values.
pub struct ReaderModel {
    /// Bytes of the last chunk that are still to be sent.
    pub pending: Seq<u8>,
    /// Number of header bytes that are still to be passed over.
    pub to_skip: int,
    /// Whether the last chunk came short, which ends the asset.
    pub last_chunk: bool,
    /// Whether the word that ends the stream has been sent.
    pub end_sent: bool,
}

/// What holds of a producer between any two steps.
pub open spec fn reader_inv(m: ReaderModel) -> bool {
    &&& 0 <= m.to_skip <= HEADER_LEN
    &&& m.pending.len() <= CHUNK_LEN
    &&& m.end_sent ==> m.last_chunk && m.pending.len() == 0
}

/// The producer before its first read.
pub open spec fn reader_at_start() -> ReaderModel {
    ReaderModel {
        pending: Seq::empty(),
        to_skip: HEADER_LEN as int,
        last_chunk: false,
        end_sent: false,
    }
}

/// What the loop does next: send what is left of the chunk; then read the
/// next chunk, or, after a short one, end the stream.
pub open spec fn next_step_model(m: ReaderModel) -> ProducerStep {
    if m.pending.len() > 0 {
        ProducerStep::Write(word_of(m.pending[0]))
    } else if !m.last_chunk {
        ProducerStep::ReadChunk
    } else if !m.end_sent {
        ProducerStep::Write(END_OF_STREAM)
    } else {
        ProducerStep::Finished
    }
}

/// Number of bytes at the start of a chunk that belong to the header.
pub open spec fn header_part(to_skip: int, len: int) -> int {
    if to_skip <= len {
        to_skip
    } else {
        len
    }
}

/// The producer after a chunk has come from storage. The bytes of the
/// header are passed over; a chunk shorter than was asked for is the last.
pub open spec fn chunk_read_model(m: ReaderModel, data: Seq<u8>) -> ReaderModel {
    let skipped = header_part(m.to_skip, data.len() as int);
    ReaderModel {
        pending: data.skip(skipped),
        to_skip: m.to_skip - skipped,
        last_chunk: data.len() < CHUNK_LEN,
        end_sent: false,
    }
}

/// The producer after the queue has taken the word of its current step.
pub open spec fn word_written_model(m: ReaderModel) -> ReaderModel {
    if m.pending.len() > 0 {
        ReaderModel { pending: m.pending.drop_first(), ..m }
    } else {
        ReaderModel { end_sent: true, ..m }
    }
}

/// What one attempt of the producer to write the word of its current step
/// brings about, on a queue that holds `queue`: the producer and the queue
/// after it, and whether the word went in. Before a full queue nothing
/// changes; the attempt is made again until the consumer has read.
pub open spec fn offer_model(m: ReaderModel, queue: Seq<u32>) -> (ReaderModel, Seq<u32>, bool) {
    match next_step_model(m) {
        ProducerStep::Write(word) => if goes_through(queue, ChannelOp::Write(word)) {
            (word_written_model(m), queue_after(queue, ChannelOp::Write(word)), true)
        } else {
            (m, queue, false)
        },
        _ => (m, queue, false),
    }
}

/// The producer and the queue after `attempts` attempts in a row, with no
/// read in between.
pub open spec fn offers_model(m: ReaderModel, queue: Seq<u32>, attempts: nat) -> (
    ReaderModel,
    Seq<u32>,
)
    decreases attempts,
{
    if attempts == 0 {
        (m, queue)
    } else {
        let before = offers_model(m, queue, (attempts - 1) as nat);
        let step = offer_model(before.0, before.1);
        (step.0, step.1)
    }
}

/// While the queue is full and the consumer does not read, the producer makes
/// no progress, however often it tries: it stands at the same word, the queue
/// holds the word it held, and nothing is lost or written over.
pub proof fn lemma_full_queue_blocks_producer(m: ReaderModel, queue: Seq<u32>, attempts: nat)
    requires
        queue.len() == CAPACITY,
    ensures
        offers_model(m, queue, attempts) == (m, queue),
        !offer_model(m, queue).2,
    decreases attempts,
{
    if attempts > 0 {
        lemma_full_queue_blocks_producer(m, queue, (attempts - 1) as nat);
    }
}

/// One read ends the wait: it returns the word that the queue held, and the
/// producer's next attempt goes through at once. The queue then holds the
/// producer's word and nothing else, and the producer has moved on by this
/// one word.
pub proof fn lemma_read_resumes_producer(m: ReaderModel, queue: Seq<u32>)
    requires
        queue.len() == CAPACITY,
        next_step_model(m) is Write,
    ensures
        goes_through(queue, ChannelOp::Read),
        ({
            let after_read = queue_after(queue, ChannelOp::Read);
            let step = offer_model(m, after_read);
            &&& after_read.len() == 0
            &&& step.2
            &&& step.0 == word_written_model(m)
            &&& step.1 == seq![next_step_model(m)->Write_0]
            &&& m.pending.len() > 0 ==> step.0.pending == m.pending.drop_first()
            &&& !offer_model(step.0, step.1).2
        }),
{
    let after_read = queue_after(queue, ChannelOp::Read);
    assert(after_read.push(next_step_model(m)->Write_0) =~= seq![next_step_model(m)->Write_0]);
}

/// The words that carry the given bytes, in order.
pub open spec fn stream_words(bytes: Seq<u8>) -> Seq<u32> {
    Seq::new(bytes.len(), |i: int| word_of(bytes[i]))
}

/// The samples of an asset: what follows its header.
pub open spec fn payload(asset: Seq<u8>) -> Seq<u8> {
    asset.skip(header_part(HEADER_LEN as int, asset.len() as int))
}

/// The words that the producer writes from its state on until it next reads
/// from storage or has finished.
pub open spec fn words_until_read(m: ReaderModel) -> Seq<u32>
    decreases m.pending.len() + if m.last_chunk && !m.end_sent { 1nat } else { 0nat },
{
    match next_step_model(m) {
        ProducerStep::Write(word) => seq![word] + words_until_read(word_written_model(m)),
        _ => Seq::empty(),
    }
}

/// The producer once it has written all that it can without a read.
pub open spec fn reader_drained(m: ReaderModel) -> ReaderModel {
    ReaderModel { pending: Seq::empty(), end_sent: m.last_chunk, ..m }
}

/// The words that the producer writes over its life when storage answers
/// its reads with the given chunks, in turn. It reads no further once a chunk
/// has come short.
pub open spec fn words_of_run(m: ReaderModel, chunks: Seq<Seq<u8>>) -> Seq<u32>
    decreases chunks.len(),
{
    if chunks.len() == 0 || m.last_chunk {
        words_until_read(m)
    } else {
        words_until_read(m) + words_of_run(
            chunk_read_model(reader_drained(m), chunks[0]),
            chunks.drop_first(),
        )
    }
}

/// Whether the chunks are what storage answers for one asset: full chunks,
/// then one that is short.
pub open spec fn chunks_of_asset(chunks: Seq<Seq<u8>>) -> bool {
    &&& chunks.len() > 0
    &&& forall|i: int| 0 <= i < chunks.len() - 1 ==> (#[trigger] chunks[i]).len() == CHUNK_LEN
    &&& chunks.last().len() < CHUNK_LEN
}

/// Between two reads the producer writes what is left of its chunk, byte by
/// byte, and ends the stream if the chunk was the last.
pub proof fn lemma_words_until_read(m: ReaderModel)
    requires
        reader_inv(m),
    ensures
        words_until_read(m) == stream_words(m.pending) + if m.last_chunk && !m.end_sent {
            seq![END_OF_STREAM]
        } else {
            Seq::<u32>::empty()
        },
    decreases m.pending.len(),
{
    if m.pending.len() > 0 {
        lemma_words_until_read(word_written_model(m));
        assert(stream_words(m.pending) =~= seq![word_of(m.pending[0])] + stream_words(
            m.pending.drop_first(),
        ));
    } else if m.last_chunk && !m.end_sent {
        assert(words_until_read(word_written_model(m)) =~= Seq::<u32>::empty());
    }
}

/// The same, for a producer that is about to read, with the part of the
/// header that it has still to pass over.
proof fn lemma_run_from(m: ReaderModel, chunks: Seq<Seq<u8>>)
    requires
        reader_inv(m),
        m.pending.len() == 0,
        !m.last_chunk,
        chunks_of_asset(chunks),
    ensures
        words_of_run(m, chunks) == stream_words(
            chunks.flatten().skip(header_part(m.to_skip, chunks.flatten().len() as int)),
        ) + seq![END_OF_STREAM],
    decreases chunks.len(),
{
    let first = chunks[0];
    let rest = chunks.drop_first();
    let all = chunks.flatten();
    let skipped = header_part(m.to_skip, first.len() as int);
    let next = chunk_read_model(reader_drained(m), first);
    lemma_words_until_read(m);
    lemma_words_until_read(next);
    assert(all == chunks.first() + rest.flatten());
    if rest.len() == 0 {
        assert(rest.flatten() =~= Seq::<u8>::empty());
        assert(all =~= first);
        assert(words_of_run(next, rest) == words_until_read(next));
    } else {
        assert(chunks_of_asset(rest)) by {
            assert forall|i: int| 0 <= i < rest.len() - 1 implies (#[trigger] rest[i]).len()
                == CHUNK_LEN by {
                assert(rest[i] == chunks[i + 1]);
            }
            assert(rest.last() == chunks.last());
        }
        let idle = reader_drained(next);
        assert(words_of_run(next, rest) == words_until_read(next) + words_of_run(
            chunk_read_model(idle, rest[0]),
            rest.drop_first(),
        ));
        lemma_run_from(idle, rest);
        let later = rest.flatten();
        assert(all.skip(header_part(m.to_skip, all.len() as int)) =~= first.skip(skipped)
            + later.skip(header_part(idle.to_skip, later.len() as int)));
    }
}

/// Over its life the producer writes the samples of the asset, each once
/// and in the order of the asset, and then the word that ends the stream.
pub proof fn lemma_stream_is_payload_then_end(chunks: Seq<Seq<u8>>)
    requires
        chunks_of_asset(chunks),
    ensures
        words_of_run(reader_at_start(), chunks) == stream_words(payload(chunks.flatten()))
            + seq![END_OF_STREAM],
{
    lemma_run_from(reader_at_start(), chunks);
}

/// The loop of the producer core.
pub struct StorageReader {
    chunk: [u8; CHUNK_LEN],
    chunk_len: usize,
    sent: usize,
    to_skip: usize,
    last_chunk: bool,
    end_sent: bool,
}

impl View for StorageReader {
    type V = ReaderModel;

    closed spec fn view(&self) -> ReaderModel {
        ReaderModel {
            pending: self.chunk@.subrange(self.sent as int, self.chunk_len as int),
            to_skip: self.to_skip as int,
            last_chunk: self.last_chunk,
            end_sent: self.end_sent,
        }
    }
}

impl StorageReader {
    /// What holds of a producer between any two steps.
    pub closed spec fn wf(&self) -> bool {
        &&& self.sent <= self.chunk_len <= CHUNK_LEN
        &&& reader_inv(self@)
    }

    /// Being well formed includes what holds of the plain values.
    pub proof fn lemma_wf(&self)
        requires
            self.wf(),
        ensures
            reader_inv(self@),
    {
    }

    /// A producer that has read nothing yet.
    pub fn new() -> (reader: StorageReader)
        ensures
            reader.wf(),
            reader@ == reader_at_start(),
    {
        let reader = StorageReader {
            chunk: [0u8; CHUNK_LEN],
            chunk_len: 0,
            sent: 0,
            to_skip: HEADER_LEN,
            last_chunk: false,
            end_sent: false,
        };
        assert(reader@.pending =~= Seq::<u8>::empty());
        reader
    }

    /// What the loop does next.
    pub fn next_step(&self) -> (step: ProducerStep)
        requires
            self.wf(),
        ensures
            step == next_step_model(self@),
    {
        if self.sent < self.chunk_len {
            ProducerStep::Write(encode_sample(self.chunk[self.sent]))
        } else if !self.last_chunk {
            ProducerStep::ReadChunk
        } else if !self.end_sent {
            ProducerStep::Write(END_OF_STREAM)
        } else {
            ProducerStep::Finished
        }
    }

    /// Takes the bytes that one read from storage brought.
    pub fn chunk_read(&mut self, data: &[u8])
        requires
            old(self).wf(),
            next_step_model(old(self)@) == ProducerStep::ReadChunk,
            data@.len() <= CHUNK_LEN,
        ensures
            final(self).wf(),
            final(self)@ == chunk_read_model(old(self)@, data@),
    {
        let len: usize = data.len();
        let skipped: usize = if self.to_skip <= len {
            self.to_skip
        } else {
            len
        };
        let kept: usize = len - skipped;
        let mut i: usize = 0;
        while i < kept
            invariant
                i <= kept,
                kept == len - skipped,
                skipped <= len,
                skipped <= self.to_skip <= HEADER_LEN,
                self.to_skip == old(self).to_skip,
                len == data@.len(),
                len <= CHUNK_LEN,
                forall|j: int| 0 <= j < i ==> self.chunk@[j] == data@[skipped + j],
            decreases kept - i,
        {
            self.chunk[i] = data[skipped + i];
            i = i + 1;
        }
        self.chunk_len = kept;
        self.sent = 0;
        self.to_skip = self.to_skip - skipped;
        self.last_chunk = len < CHUNK_LEN;
        self.end_sent = false;
        assert(self@.pending =~= data@.skip(skipped as int));
    }

    /// Records that the queue has taken the word of the current step.
    pub fn word_written(&mut self)
        requires
            old(self).wf(),
            next_step_model(old(self)@) is Write,
        ensures
            final(self).wf(),
            final(self)@ == word_written_model(old(self)@),
    {
        if self.sent < self.chunk_len {
            self.sent = self.sent + 1;
            assert(self@.pending =~= old(self)@.pending.drop_first());
        } else {
            self.end_sent = true;
        }
    }

    /// Offers the word of the current step to the queue. A queue with room
    /// takes it and the producer moves on; before a full queue the producer
    /// stays where it is, and no word is lost.
    pub fn offer(&mut self, channel: &mut InterCoreChannel) -> (accepted: bool)
        requires
            old(self).wf(),
            next_step_model(old(self)@) is Write,
        ensures
            final(self).wf(),
            (final(self)@, final(channel)@, accepted) == offer_model(old(self)@, old(channel)@),
            accepted == (old(channel)@.len() < CAPACITY),
    {
        match self.next_step() {
            ProducerStep::Write(word) => {
                let accepted: bool = channel.try_write(word);
                if accepted {
                    self.word_written();
                }
                accepted
            },
            _ => false,
        }
    }
}

} // verus!
