//! Conversion of raw PCM samples into PWM duty values.

use vstd::prelude::*;

verus! {

/// Largest duty value that any sample can be rescaled to.
pub const MAX_DUTY: u16 = 2047;

/// The duty value of a raw sample: eight times the sample.
pub open spec fn duty_of(raw: u8) -> u16 {
    (8 * raw) as u16
}

/// The duty value is the sample shifted up by four bits, cut to twelve
/// bits, then halved to reduce loudness; and no sample reaches past
/// `MAX_DUTY`.
pub proof fn lemma_duty_in_bits(raw: u8)
    ensures
        duty_of(raw) == (((raw as u16) << 4) & 0xFFF) >> 1,
        duty_of(raw) <= MAX_DUTY,
{
    assert((((raw as u16) << 4) & 0xFFF) >> 1 == 8 * raw) by (bit_vector);
}

/// Rescales an unsigned 8-bit sample into duty units.
pub fn rescale(raw: u8) -> (duty: u16)
    ensures
        duty == duty_of(raw),
        duty == (((raw as u16) << 4) & 0xFFF) >> 1,
        duty <= MAX_DUTY,
{
    proof {
        lemma_duty_in_bits(raw);
    }
    let widened: u16 = raw as u16;
    let scaled: u16 = (widened << 4) & 0xFFF;
    scaled >> 1
}

/// Limits a duty value to the counter's top value.
pub fn clamp_duty(duty: u16, top: u16) -> (clamped: u16)
    ensures
        clamped == if duty <= top { duty } else { top },
{
    if duty <= top {
        duty
    } else {
        top
    }
}

} // verus!
