//! Settings of the PWM slice that carries the audio, as plain values.

use vstd::prelude::*;
use crate::sample::{clamp_duty, duty_of, lemma_duty_in_bits};

verus! {

/// Top-of-count value of the audio carrier.
pub const AUDIO_TOP: u16 = 4096;

/// Integer clock divider of the audio carrier.
pub const AUDIO_DIV_INT: u8 = 1;

/// Sample rate that the carrier is meant to wrap at, in Hz.
pub const TARGET_SAMPLE_RATE_HZ: u32 = 32_000;

/// What a player asks of its PWM slice, on top of the driver's defaults.
#[derive(Clone, Copy, Debug, PartialEq, Eq, Structural)]
pub struct PwmConfig {
    /// Value at which the counter wraps.
    pub top: u16,
    /// Integer part of the clock divider.
    pub div_int: u8,
    /// Whether the slice raises the wrap interrupt.
    pub wrap_interrupt: bool,
    /// Whether the slice is counting.
    pub enabled: bool,
}

/// The configuration that both players use: free running, wrapping once per
/// sample period, with the wrap interrupt on.
pub open spec fn audio_config() -> PwmConfig {
    PwmConfig { top: AUDIO_TOP, div_int: AUDIO_DIV_INT, wrap_interrupt: true, enabled: true }
}

/// Number of counter wraps per second of a free-running slice without phase
/// correction, rounded down: the system clock over `(top + 1) * div_int`.
pub open spec fn wrap_rate(sys_hz: u32, config: PwmConfig) -> int {
    sys_hz as int / ((config.top as int + 1) * config.div_int as int)
}

impl PwmConfig {
    /// The audio carrier's configuration.
    pub fn audio() -> (config: PwmConfig)
        ensures
            config == audio_config(),
    {
        PwmConfig { top: AUDIO_TOP, div_int: AUDIO_DIV_INT, wrap_interrupt: true, enabled: true }
    }

    /// Wraps per second at the given system clock.
    pub fn wrap_rate_hz(&self, sys_hz: u32) -> (rate: u32)
        requires
            self.div_int > 0,
        ensures
            rate == wrap_rate(sys_hz, *self),
    {
        let steps: u32 = self.top as u32 + 1;
        let divider: u32 = self.div_int as u32;
        assert(0 < steps * divider <= 65536 * 255) by (nonlinear_arith)
            requires
                0 < steps <= 65536,
                0 < divider <= 255,
        ;
        let period: u32 = steps * divider;
        sys_hz / period
    }
}

/// How far the audio output has been brought up.
#[derive(Clone, Copy, Debug, PartialEq, Eq, Structural)]
pub enum OutputState {
    /// Nothing has been written to the slice.
    Uninitialized,
    /// The slice holds its configuration and is not counting yet.
    Configured,
    /// The slice counts and wraps, until the device is reset.
    Running,
}

/// The audio output as plain values: how far it has been brought up, its
/// configuration, the duty value in its compare register, and whether a wrap
/// waits to be acknowledged.
#[derive(Clone, Copy, Debug, PartialEq, Eq, Structural)]
pub struct AudioOutput {
    /// How far the output has been brought up.
    pub state: OutputState,
    /// The configuration of the slice.
    pub config: PwmConfig,
    /// The duty value in the compare register.
    pub duty: u16,
    /// Whether the counter has wrapped since the handler last ran.
    pub wrap_pending: bool,
}

impl AudioOutput {
    /// An output that nothing has been written to.
    pub fn new() -> (output: AudioOutput)
        ensures
            output == (AudioOutput {
                state: OutputState::Uninitialized,
                config: PwmConfig { top: 0, div_int: 0, wrap_interrupt: false, enabled: false },
                duty: 0,
                wrap_pending: false,
            }),
    {
        AudioOutput {
            state: OutputState::Uninitialized,
            config: PwmConfig { top: 0, div_int: 0, wrap_interrupt: false, enabled: false },
            duty: 0,
            wrap_pending: false,
        }
    }

    /// Takes the configuration. The duty value starts at zero, and the
    /// counter stands still whatever the configuration says.
    pub fn configure(&mut self, config: PwmConfig)
        requires
            old(self).state == OutputState::Uninitialized,
        ensures
            *final(self) == (AudioOutput {
                state: OutputState::Configured,
                config: PwmConfig { enabled: false, ..config },
                duty: 0,
                wrap_pending: false,
            }),
    {
        self.state = OutputState::Configured;
        self.config = PwmConfig { enabled: false, ..config };
        self.duty = 0;
        self.wrap_pending = false;
    }

    /// Lets the counter run. From here on there is no way back.
    pub fn start(&mut self)
        requires
            old(self).state == OutputState::Configured,
        ensures
            *final(self) == (AudioOutput {
                state: OutputState::Running,
                config: PwmConfig { enabled: true, ..old(self).config },
                ..*old(self)
            }),
    {
        self.state = OutputState::Running;
        self.config.enabled = true;
    }

    /// The foreground loop's write of the next duty value, limited to the
    /// counter's top value. Returns what goes into the compare register.
    pub fn write_duty(&mut self, duty: u16) -> (written: u16)
        requires
            old(self).state == OutputState::Running,
        ensures
            written == if duty <= old(self).config.top { duty } else { old(self).config.top },
            *final(self) == (AudioOutput { duty: written, ..*old(self) }),
    {
        let written: u16 = clamp_duty(duty, self.config.top);
        self.duty = written;
        written
    }

    /// The counter has wrapped: with the wrap interrupt on, the interrupt is
    /// raised and waits for the handler.
    pub fn wrapped(&mut self)
        requires
            old(self).state == OutputState::Running,
        ensures
            *final(self) == (AudioOutput {
                wrap_pending: old(self).wrap_pending || old(self).config.wrap_interrupt,
                ..*old(self)
            }),
    {
        if self.config.wrap_interrupt {
            self.wrap_pending = true;
        }
    }

    /// All that the interrupt handler does: it acknowledges the wrap, and
    /// leaves the duty value and everything else as they are.
    pub fn acknowledge_wrap(&mut self)
        ensures
            *final(self) == (AudioOutput { wrap_pending: false, ..*old(self) }),
    {
        self.wrap_pending = false;
    }
}

/// Every sample's duty value lies below the top of the audio carrier, so
/// that limiting it to the top leaves it as it is.
pub proof fn lemma_samples_fit_carrier(raw: u8)
    ensures
        duty_of(raw) <= AUDIO_TOP,
{
    lemma_duty_in_bits(raw);
}

} // verus!
