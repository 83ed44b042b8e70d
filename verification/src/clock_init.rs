//! The clock tree's parameters: the crystal, the two presets of the system
//! PLL, and what follows from them for the watchdog and for the sample rate.

use vstd::prelude::*;
use crate::pwm::{audio_config, wrap_rate, TARGET_SAMPLE_RATE_HZ};

verus! {

/// The frequency of the on-board crystal, in Hz.
pub const XTAL_FREQ_HZ: u32 = 12_000_000;

/// Settings of a PLL: the frequency of its oscillator and its dividers.
#[derive(Clone, Copy, Debug, PartialEq, Eq, Structural)]
pub struct PllPreset {
    /// Frequency of the voltage-controlled oscillator, in MHz.
    pub vco_mhz: u32,
    /// Divider of the reference clock.
    pub refdiv: u8,
    /// First divider behind the oscillator.
    pub post_div1: u8,
    /// Second divider behind the oscillator.
    pub post_div2: u8,
}

/// The preset closest to 176.4 MHz, a multiple of 44.1 kHz.
pub open spec fn pll_sys_176mhz() -> PllPreset {
    PllPreset { vco_mhz: 528, refdiv: 1, post_div1: 3, post_div2: 1 }
}

/// The preset closest to 131.072 MHz, a multiple of 32 kHz, the sample rate.
pub open spec fn pll_sys_131mhz() -> PllPreset {
    PllPreset { vco_mhz: 1572, refdiv: 1, post_div1: 6, post_div2: 2 }
}

/// The frequency that a PLL puts out, in Hz: that of its oscillator over
/// both of its dividers, rounded down.
pub open spec fn pll_output_hz(preset: PllPreset) -> int {
    preset.vco_mhz as int * 1_000_000 / (preset.post_div1 as int * preset.post_div2 as int)
}

/// Number of cycles of the crystal that make one microsecond, as the
/// watchdog's tick generator takes it: the low eight bits of the count.
pub open spec fn watchdog_cycles(xtal_hz: u32) -> u8 {
    ((xtal_hz / 1_000_000) % 256) as u8
}

impl PllPreset {
    /// The preset closest to 176.4 MHz.
    pub fn sys_176mhz() -> (preset: PllPreset)
        ensures
            preset == pll_sys_176mhz(),
    {
        PllPreset { vco_mhz: 528, refdiv: 1, post_div1: 3, post_div2: 1 }
    }

    /// The preset closest to 131.072 MHz.
    pub fn sys_131mhz() -> (preset: PllPreset)
        ensures
            preset == pll_sys_131mhz(),
    {
        PllPreset { vco_mhz: 1572, refdiv: 1, post_div1: 6, post_div2: 2 }
    }

    /// Whether the output of the PLL can be computed: the dividers are not
    /// zero, and the oscillator's frequency in Hz fits the machine word.
    pub open spec fn computable(&self) -> bool {
        &&& self.post_div1 > 0
        &&& self.post_div2 > 0
        &&& self.vco_mhz <= 4294
    }

    /// The frequency that the PLL puts out, in Hz.
    pub fn output_hz(&self) -> (hz: u32)
        requires
            self.computable(),
        ensures
            hz == pll_output_hz(*self),
    {
        let vco_hz: u32 = self.vco_mhz * 1_000_000;
        let first: u32 = self.post_div1 as u32;
        let second: u32 = self.post_div2 as u32;
        assert(0 < first * second <= 255 * 255) by (nonlinear_arith)
            requires
                0 < first <= 255,
                0 < second <= 255,
        ;
        vco_hz / (first * second)
    }
}

/// Number of cycles of the crystal per microsecond, for the watchdog's tick
/// generator.
pub fn watchdog_tick_cycles(xtal_hz: u32) -> (cycles: u8)
    ensures
        cycles == watchdog_cycles(xtal_hz),
{
    let per_microsecond: u32 = xtal_hz / 1_000_000;
    (per_microsecond % 256) as u8
}

/// The two presets put out 176 MHz and 131 MHz, and the crystal makes twelve
/// cycles per microsecond.
pub proof fn lemma_preset_frequencies()
    ensures
        pll_sys_176mhz().computable(),
        pll_sys_131mhz().computable(),
        pll_output_hz(pll_sys_176mhz()) == 176_000_000,
        pll_output_hz(pll_sys_131mhz()) == 131_000_000,
        watchdog_cycles(XTAL_FREQ_HZ) == 12,
{
    assert(528int * 1_000_000 / (3int * 1int) == 176_000_000) by (nonlinear_arith);
    assert(1572int * 1_000_000 / (6int * 2int) == 131_000_000) by (nonlinear_arith);
}

/// With the 131 MHz preset the audio carrier wraps within a tenth of a per
/// cent of the sample rate.
pub proof fn lemma_wrap_rate_near_sample_rate()
    ensures
        wrap_rate(131_000_000, audio_config()) == 31_974,
        TARGET_SAMPLE_RATE_HZ - 32 <= wrap_rate(131_000_000, audio_config())
            <= TARGET_SAMPLE_RATE_HZ,
{
    assert(131_000_000int / ((4096int + 1) * 1int) == 31_974) by (nonlinear_arith);
}

} // verus!
