//! The queue between the two cores: its words, a model of its single slot,
//! and the order in which it delivers.

use vstd::prelude::*;

verus! {

/// Number of words that the queue holds at most.
pub const CAPACITY: usize = 1;

/// The word that ends a stream. No sample is sent as this word.
pub const END_OF_STREAM: u32 = 0xFFFF_FFFF;

/// The word by which the consumer tells the producer that a window was used
/// up, where the two shake hands.
pub const WINDOW_CONSUMED: u32 = 0;

/// What a word of the queue stands for.
#[derive(Clone, Copy, Debug, PartialEq, Eq, Structural)]
pub enum Word {
    /// One sample.
    Sample(u8),
    /// The stream has ended; no sample follows.
    EndOfStream,
}

/// The word that carries a sample: the sample in the low byte, zeros above.
pub open spec fn word_of(sample: u8) -> u32 {
    sample as u32
}

/// What a word stands for. Of a word that does not end the stream, the low
/// byte is the sample.
pub open spec fn meaning_of(word: u32) -> Word {
    if word == END_OF_STREAM {
        Word::EndOfStream
    } else {
        Word::Sample((word % 256) as u8)
    }
}

/// A sample comes out of its word as it went in.
pub proof fn lemma_word_round_trip(sample: u8)
    ensures
        meaning_of(word_of(sample)) == Word::Sample(sample),
{
}

/// Puts a sample into a word.
pub fn encode_sample(sample: u8) -> (word: u32)
    ensures
        word == word_of(sample),
        meaning_of(word) == Word::Sample(sample),
{
    proof {
        lemma_word_round_trip(sample);
    }
    sample as u32
}

/// Reads a word.
pub fn decode_word(word: u32) -> (meaning: Word)
    ensures
        meaning == meaning_of(word),
{
    if word == END_OF_STREAM {
        Word::EndOfStream
    } else {
        let low: u32 = word & 0xFF;
        assert(low == word % 256) by (bit_vector)
            requires
                low == word & 0xFF,
        ;
        Word::Sample(low as u8)
    }
}

/// One use of the queue by either side.
#[derive(Clone, Copy, Debug, PartialEq, Eq, Structural)]
pub enum ChannelOp {
    /// The producer offers a word.
    Write(u32),
    /// The consumer takes a word.
    Read,
}

/// Whether the operation goes through at once on a queue that holds
/// `queue`. One that does not would block its caller.
pub open spec fn goes_through(queue: Seq<u32>, op: ChannelOp) -> bool {
    match op {
        ChannelOp::Write(_) => queue.len() < CAPACITY,
        ChannelOp::Read => queue.len() > 0,
    }
}

/// What the queue holds after an operation that went through.
pub open spec fn queue_after(queue: Seq<u32>, op: ChannelOp) -> Seq<u32> {
    match op {
        ChannelOp::Write(word) => queue.push(word),
        ChannelOp::Read => queue.drop_first(),
    }
}

/// What the queue holds after the operations, each made when it could go
/// through; `None` if one of them found the queue full or empty.
pub open spec fn queue_after_all(queue: Seq<u32>, ops: Seq<ChannelOp>) -> Option<Seq<u32>>
    decreases ops.len(),
{
    if ops.len() == 0 {
        Some(queue)
    } else if goes_through(queue, ops[0]) {
        queue_after_all(queue_after(queue, ops[0]), ops.drop_first())
    } else {
        None
    }
}

/// The words that the operations write, in order.
pub open spec fn written(ops: Seq<ChannelOp>) -> Seq<u32>
    decreases ops.len(),
{
    if ops.len() == 0 {
        Seq::empty()
    } else {
        match ops[0] {
            ChannelOp::Write(word) => seq![word] + written(ops.drop_first()),
            ChannelOp::Read => written(ops.drop_first()),
        }
    }
}

/// The words that the reads among the operations return, in order, on a
/// queue that holds `queue` at first.
pub open spec fn delivered(queue: Seq<u32>, ops: Seq<ChannelOp>) -> Seq<u32>
    decreases ops.len(),
{
    if ops.len() == 0 || !goes_through(queue, ops[0]) {
        Seq::empty()
    } else {
        match ops[0] {
            ChannelOp::Write(_) => delivered(queue_after(queue, ops[0]), ops.drop_first()),
            ChannelOp::Read => seq![queue[0]] + delivered(
                queue_after(queue, ops[0]),
                ops.drop_first(),
            ),
        }
    }
}

/// Nothing is lost, doubled or reordered: what the queue held, followed by
/// what was written, is what was delivered, followed by what the queue holds
/// in the end.
pub proof fn lemma_fifo(queue: Seq<u32>, ops: Seq<ChannelOp>)
    requires
        queue_after_all(queue, ops) is Some,
    ensures
        queue + written(ops) == delivered(queue, ops) + queue_after_all(queue, ops)->Some_0,
    decreases ops.len(),
{
    if ops.len() > 0 {
        let rest = ops.drop_first();
        let next = queue_after(queue, ops[0]);
        let end = queue_after_all(queue, ops)->Some_0;
        lemma_fifo(next, rest);
        match ops[0] {
            ChannelOp::Write(word) => {
                assert(queue + (seq![word] + written(rest)) =~= next + written(rest));
            },
            ChannelOp::Read => {
                assert(queue =~= seq![queue[0]] + next);
                assert(seq![queue[0]] + (delivered(next, rest) + end) =~= (seq![queue[0]]
                    + delivered(next, rest)) + end);
            },
        }
    }
}

/// As many reads as writes on a queue that was empty bring back the words
/// that were written, each once and in the order of writing.
pub proof fn lemma_reads_reproduce_writes(ops: Seq<ChannelOp>)
    requires
        queue_after_all(Seq::empty(), ops) is Some,
        delivered(Seq::empty(), ops).len() == written(ops).len(),
    ensures
        delivered(Seq::empty(), ops) == written(ops),
{
    lemma_fifo(Seq::empty(), ops);
    let end = queue_after_all(Seq::<u32>::empty(), ops)->Some_0;
    assert((Seq::<u32>::empty() + written(ops)).len() == (delivered(Seq::empty(), ops)
        + end).len());
    assert(delivered(Seq::empty(), ops) + end =~= delivered(Seq::empty(), ops));
}

/// At any moment the producer is ahead of the consumer by what the queue
/// holds, which is one word or none: no word is written over, and none is
/// read twice.
pub proof fn lemma_in_flight_at_most_one(ops: Seq<ChannelOp>)
    requires
        queue_after_all(Seq::empty(), ops) is Some,
    ensures
        written(ops).len() - delivered(Seq::empty(), ops).len() == queue_after_all(
            Seq::empty(),
            ops,
        )->Some_0.len(),
        0 <= written(ops).len() - delivered(Seq::empty(), ops).len() <= CAPACITY,
{
    lemma_fifo(Seq::empty(), ops);
    lemma_queue_bounded(Seq::empty(), ops);
    let end = queue_after_all(Seq::<u32>::empty(), ops)->Some_0;
    assert((Seq::<u32>::empty() + written(ops)).len() == (delivered(Seq::empty(), ops)
        + end).len());
}

/// Operations that go through never leave more in the queue than its
/// capacity.
pub proof fn lemma_queue_bounded(queue: Seq<u32>, ops: Seq<ChannelOp>)
    requires
        queue.len() <= CAPACITY,
        queue_after_all(queue, ops) is Some,
    ensures
        queue_after_all(queue, ops)->Some_0.len() <= CAPACITY,
    decreases ops.len(),
{
    if ops.len() > 0 {
        lemma_queue_bounded(queue_after(queue, ops[0]), ops.drop_first());
    }
}

/// A write that finds the queue full would block, a read of the full queue
/// goes through, and after that read the write goes through at once.
pub proof fn lemma_read_unblocks_write(queue: Seq<u32>, word: u32)
    requires
        queue.len() == CAPACITY,
    ensures
        !goes_through(queue, ChannelOp::Write(word)),
        goes_through(queue, ChannelOp::Read),
        goes_through(queue_after(queue, ChannelOp::Read), ChannelOp::Write(word)),
{
}

/// The single-slot queue between the cores.
#[derive(Debug)]
pub struct InterCoreChannel {
    slot: Option<u32>,
}

impl View for InterCoreChannel {
    type V = Seq<u32>;

    /// The words in the queue, oldest first.
    closed spec fn view(&self) -> Seq<u32> {
        match self.slot {
            Some(word) => seq![word],
            None => Seq::empty(),
        }
    }
}

impl InterCoreChannel {
    /// The queue never holds more than its capacity.
    pub proof fn lemma_bounded(&self)
        ensures
            self@.len() <= CAPACITY,
    {
    }

    /// An empty queue.
    pub fn new() -> (channel: InterCoreChannel)
        ensures
            channel@ == Seq::<u32>::empty(),
    {
        InterCoreChannel { slot: None }
    }

    /// Whether a write would block.
    pub fn is_full(&self) -> (full: bool)
        ensures
            full == !goes_through(self@, ChannelOp::Write(0)),
            full == (self@.len() == CAPACITY),
    {
        self.slot.is_some()
    }

    /// Whether a read would block.
    pub fn is_empty(&self) -> (empty: bool)
        ensures
            empty == !goes_through(self@, ChannelOp::Read),
            empty == (self@.len() == 0),
    {
        self.slot.is_none()
    }

    /// The blocking write at the moment it returns: the producer has waited
    /// until the queue had room, and the word goes in behind what it holds.
    pub fn write(&mut self, word: u32)
        requires
            goes_through(old(self)@, ChannelOp::Write(word)),
        ensures
            final(self)@ == queue_after(old(self)@, ChannelOp::Write(word)),
    {
        self.slot = Some(word);
        assert(self@ =~= old(self)@.push(word));
    }

    /// The blocking read at the moment it returns: the consumer has waited
    /// until the queue held a word, and takes the oldest.
    pub fn read(&mut self) -> (word: u32)
        requires
            goes_through(old(self)@, ChannelOp::Read),
        ensures
            word == old(self)@[0],
            final(self)@ == queue_after(old(self)@, ChannelOp::Read),
    {
        let word: u32 = self.slot.unwrap();
        self.slot = None;
        assert(self@ =~= old(self)@.drop_first());
        word
    }

    /// Offers a word. A queue with room takes it and answers `true`; a full
    /// one stays as it is and answers `false`, and the caller tries again.
    pub fn try_write(&mut self, word: u32) -> (accepted: bool)
        ensures
            accepted == goes_through(old(self)@, ChannelOp::Write(word)),
            accepted ==> final(self)@ == queue_after(old(self)@, ChannelOp::Write(word)),
            !accepted ==> final(self)@ == old(self)@,
    {
        if self.slot.is_some() {
            false
        } else {
            self.slot = Some(word);
            assert(self@ =~= old(self)@.push(word));
            true
        }
    }

    /// Takes the oldest word, if there is one.
    pub fn try_read(&mut self) -> (word: Option<u32>)
        ensures
            word is Some == goes_through(old(self)@, ChannelOp::Read),
            word is Some ==> word == Some(old(self)@[0]) && final(self)@ == queue_after(
                old(self)@,
                ChannelOp::Read,
            ),
            word is None ==> final(self)@ == old(self)@,
    {
        let word: Option<u32> = self.slot;
        self.slot = None;
        proof {
            if word is Some {
                assert(self@ =~= old(self)@.drop_first());
            }
        }
        word
    }
}

} // verus!
