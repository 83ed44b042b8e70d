//! Player over a whole asset held in memory, container header included.

use vstd::prelude::*;
use crate::pwm::{audio_config, PwmConfig};
use crate::sample::{duty_of, rescale, MAX_DUTY};

verus! {

/// Length of the container header that precedes the samples.
pub const HEADER_LEN: usize = 0x2C;

/// Where the cursor stands after the sample at `cursor` was read from an
/// asset of `len` bytes: one further, or back at the first sample behind the
/// header once the asset is used up.
pub open spec fn cursor_after(cursor: int, len: int) -> int {
    if cursor + 1 >= len {
        HEADER_LEN as int
    } else {
        cursor + 1
    }
}

/// Where the cursor stands after `calls` samples were read in a row.
pub open spec fn cursor_after_calls(cursor: int, len: int, calls: nat) -> int
    decreases calls,
{
    if calls == 0 {
        cursor
    } else {
        cursor_after(cursor_after_calls(cursor, len, (calls - 1) as nat), len)
    }
}

/// However many samples are read, the cursor stays on a sample: behind the
/// header and inside the asset.
pub proof fn lemma_cursor_stays_on_samples(cursor: int, len: int, calls: nat)
    requires
        HEADER_LEN <= cursor < len,
    ensures
        HEADER_LEN <= cursor_after_calls(cursor, len, calls) < len,
    decreases calls,
{
    if calls > 0 {
        lemma_cursor_stays_on_samples(cursor, len, (calls - 1) as nat);
    }
}

/// Plays the samples of an asset over and over.
pub struct WAVPlayer<'buf> {
    cursor: usize,
    current_sample: usize,
    buffer: &'buf [u8],
}

impl<'buf> WAVPlayer<'buf> {
    /// The bytes of the asset, header included.
    pub closed spec fn asset(&self) -> Seq<u8> {
        self.buffer@
    }

    /// Index of the byte that the next sample is read from.
    pub closed spec fn cursor(&self) -> int {
        self.cursor as int
    }

    /// Index of the byte that the last sample was read from; zero before the
    /// first.
    pub closed spec fn current(&self) -> int {
        self.current_sample as int
    }

    /// Whether the asset holds a sample behind its header.
    pub open spec fn has_samples(&self) -> bool {
        self.asset().len() > HEADER_LEN
    }

    /// The cursor never stands inside the header, and stands on a sample
    /// wherever there is one.
    pub open spec fn wf(&self) -> bool {
        &&& HEADER_LEN <= self.cursor()
        &&& self.has_samples() ==> self.cursor() < self.asset().len()
    }

    /// A player that stands on the first sample behind the header.
    pub fn new(buffer: &'buf [u8]) -> (player: WAVPlayer<'buf>)
        ensures
            player.wf(),
            player.asset() == buffer@,
            player.cursor() == HEADER_LEN,
            player.current() == 0,
    {
        WAVPlayer { cursor: HEADER_LEN, current_sample: 0, buffer }
    }

    /// Writes the audio carrier's settings into `pwm`.
    pub fn init(&self, pwm: &mut PwmConfig)
        ensures
            *final(pwm) == audio_config(),
    {
        *pwm = PwmConfig::audio();
    }

    /// Returns the duty value of the sample under the cursor and moves the
    /// cursor on, back to the first sample after the last.
    pub fn get_next_sample(&mut self) -> (duty: u16)
        requires
            old(self).wf(),
            old(self).has_samples(),
        ensures
            final(self).wf(),
            final(self).asset() == old(self).asset(),
            final(self).current() == old(self).cursor(),
            final(self).current() < final(self).asset().len(),
            final(self).cursor() == cursor_after(old(self).cursor(), old(self).asset().len() as int),
            duty == duty_of(old(self).asset()[old(self).cursor()]),
            duty <= MAX_DUTY,
    {
        let sample: usize = self.cursor;
        self.current_sample = sample;
        let len: usize = self.buffer.len();
        if sample + 1 >= len {
            self.cursor = HEADER_LEN;
        } else {
            self.cursor = sample + 1;
        }
        let raw_value: u8 = self.buffer[sample];
        rescale(raw_value)
    }

    /// Index of the byte that the last sample was read from.
    pub fn get_current_sample(&self) -> (index: usize)
        ensures
            index == self.current(),
    {
        self.current_sample
    }

    /// Moves the cursor back to the first sample behind the header.
    pub fn reset(&mut self)
        ensures
            final(self).cursor() == HEADER_LEN,
            final(self).current() == old(self).current(),
            final(self).asset() == old(self).asset(),
            final(self).wf(),
    {
        self.cursor = HEADER_LEN;
    }
}

} // verus!
