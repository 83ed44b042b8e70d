//! Player over a window of samples that its owner refills.

use vstd::prelude::*;
use crate::pwm::{audio_config, PwmConfig};
use crate::sample::{duty_of, rescale, MAX_DUTY};

verus! {

/// Index that is read when the cursor stands at `counter` in a window of
/// `len` bytes: the byte under the cursor, or the first byte of the window
/// once the cursor has reached the window's end.
pub open spec fn stream_index(counter: int, len: int) -> int {
    if counter < len {
        counter
    } else {
        0
    }
}

/// Where the cursor stands after a read: one behind the byte that was read.
pub open spec fn counter_after(counter: int, len: int) -> int {
    stream_index(counter, len) + 1
}

/// Where the cursor stands after `calls` reads in a row.
pub open spec fn counter_after_calls(counter: int, len: int, calls: nat) -> int
    decreases calls,
{
    if calls == 0 {
        counter
    } else {
        counter_after(counter_after_calls(counter, len, (calls - 1) as nat), len)
    }
}

/// After any number of reads the cursor has not left the window, and the
/// next read is of a byte inside it.
pub proof fn lemma_cursor_stays_in_window(counter: int, len: int, calls: nat)
    requires
        0 <= counter,
        0 < len,
    ensures
        calls > 0 ==> 0 < counter_after_calls(counter, len, calls) <= len,
        0 <= counter_after_calls(counter, len, calls),
        0 <= stream_index(counter_after_calls(counter, len, calls), len) < len,
    decreases calls,
{
    if calls > 0 {
        lemma_cursor_stays_in_window(counter, len, (calls - 1) as nat);
    }
}

/// From the start of a window the reads go through its bytes in order: the
/// read that follows `calls` reads is of the byte at index `calls`.
pub proof fn lemma_window_is_read_in_order(len: int, calls: nat)
    requires
        calls < len,
    ensures
        counter_after_calls(0, len, calls) == calls,
        stream_index(counter_after_calls(0, len, calls), len) == calls,
    decreases calls,
{
    if calls > 0 {
        lemma_window_is_read_in_order(len, (calls - 1) as nat);
    }
}

/// Plays 8-bit unsigned mono samples at 32 kHz out of a borrowed window.
pub struct WAVStreamPlayer<'buf> {
    /// The read cursor: index of the byte that the next sample is read from.
    pub counter: usize,
    /// The window the samples are read from.
    pub current_buffer: &'buf mut [u8],
}

impl<'buf> WAVStreamPlayer<'buf> {
    /// The bytes of the window.
    pub open spec fn window(&self) -> Seq<u8> {
        self.current_buffer@
    }

    /// A player at the start of the given window.
    pub fn new(buf: &'buf mut [u8]) -> (player: WAVStreamPlayer<'buf>)
        ensures
            player.counter == 0,
            player.window() == old(buf)@,
    {
        WAVStreamPlayer { counter: 0, current_buffer: buf }
    }

    /// Writes the audio carrier's settings into `pwm`.
    pub fn init(&self, pwm: &mut PwmConfig)
        ensures
            *final(pwm) == audio_config(),
    {
        *pwm = PwmConfig::audio();
    }

    /// Returns the duty value of the sample under the cursor and moves the
    /// cursor on. A cursor that has reached the end of the window reads the
    /// window's first byte again.
    pub fn get_next_sample(&mut self) -> (duty: u16)
        requires
            old(self).window().len() > 0,
        ensures
            final(self).window() == old(self).window(),
            final(self).counter == counter_after(
                old(self).counter as int,
                old(self).window().len() as int,
            ),
            final(self).counter <= final(self).window().len(),
            duty == duty_of(
                old(self).window()[stream_index(
                    old(self).counter as int,
                    old(self).window().len() as int,
                )],
            ),
            duty <= MAX_DUTY,
    {
        let mut sample: usize = self.counter;
        if sample >= self.current_buffer.len() {
            sample = 0;
        }
        self.counter = sample + 1;
        let raw_value: u8 = self.current_buffer[sample];
        rescale(raw_value)
    }
}

} // verus!
