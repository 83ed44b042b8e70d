//! The consumer's side of the stream: the loop that turns the samples of a
//! window into duty values, one per wrap of the PWM counter, and refills the
//! window from the queue between the cores.
//!
//! The loop's decisions stand here as two steps. `poll` is one round of the
//! loop; `accept_word` takes one word of a refill. Whoever runs the loop reads
//! the button, writes the duty register, sleeps until the next wrap and reads
//! the queue, as the steps tell it to.

use vstd::prelude::*;
use crate::channel::{decode_word, meaning_of, Word};
use crate::input::{down_edges, ButtonState};
use crate::player::wav_streaming::{stream_index, WAVStreamPlayer};
use crate::pwm::{audio_config, PwmConfig};
use crate::sample::duty_of;

verus! {

/// Whether samples are being emitted.
#[derive(Clone, Copy, Debug, PartialEq, Eq, Structural)]
pub enum PlaybackState {
    /// No window to play: before the first window has arrived, and after the
    /// stream has run out.
    Idle,
    /// One sample is emitted per round.
    Playing,
    /// Emission is held until the pause button is pressed again.
    Paused,
}

impl PlaybackState {
    /// The state after a press of the pause button.
    pub open spec fn toggled(self) -> PlaybackState {
        match self {
            PlaybackState::Idle => PlaybackState::Idle,
            PlaybackState::Playing => PlaybackState::Paused,
            PlaybackState::Paused => PlaybackState::Playing,
        }
    }

    /// The state after a press of the pause button.
    pub fn toggle(self) -> (next: PlaybackState)
        ensures
            next == self.toggled(),
    {
        match self {
            PlaybackState::Idle => PlaybackState::Idle,
            PlaybackState::Playing => PlaybackState::Paused,
            PlaybackState::Paused => PlaybackState::Playing,
        }
    }
}

/// The state after one sample of the pause button: toggled where a press
/// begins with the sample, unchanged otherwise.
pub open spec fn state_after_sample(
    state: PlaybackState,
    already_down: bool,
    is_low: bool,
) -> PlaybackState {
    if is_low && !already_down {
        state.toggled()
    } else {
        state
    }
}

/// The state after a run of samples of the pause button.
pub open spec fn state_after_samples(
    state: PlaybackState,
    already_down: bool,
    levels: Seq<bool>,
) -> PlaybackState
    decreases levels.len(),
{
    if levels.len() == 0 {
        state
    } else {
        state_after_samples(
            state_after_sample(state, already_down, levels[0]),
            levels[0],
            levels.drop_first(),
        )
    }
}

/// The state after `presses` presses of the pause button.
pub open spec fn state_after_presses(state: PlaybackState, presses: nat) -> PlaybackState {
    if presses % 2 == 0 {
        state
    } else {
        state.toggled()
    }
}

/// The state is toggled once for each press, however many samples the
/// button is held down for.
pub proof fn lemma_one_toggle_per_press(
    state: PlaybackState,
    already_down: bool,
    levels: Seq<bool>,
)
    ensures
        state_after_samples(state, already_down, levels) == state_after_presses(
            state,
            down_edges(already_down, levels),
        ),
    decreases levels.len(),
{
    if levels.len() > 0 {
        let next = state_after_sample(state, already_down, levels[0]);
        lemma_one_toggle_per_press(next, levels[0], levels.drop_first());
        assert(state.toggled().toggled() == state);
    }
}

/// What the loop does with the hardware at the end of a round.
#[derive(Clone, Copy, Debug, PartialEq, Eq, Structural)]
pub enum Action {
    /// Nothing is written: the duty register keeps its value, and the button
    /// is polled again.
    Hold,
    /// The duty value is written, then the core sleeps until the next wrap.
    Emit(u16),
    /// The duty value is written, then the window is refilled from the queue.
    EmitThenRefill(u16),
}

/// How far a refill has come.
#[derive(Clone, Copy, Debug, PartialEq, Eq, Structural)]
pub enum FillOutcome {
    /// The window takes further words.
    Pending,
    /// The refill is over; the window holds this many bytes of the stream.
    Filled(usize),
}

/// The controller as plain values.
pub struct ControllerModel {
    /// Whether samples are being emitted.
    pub state: PlaybackState,
    /// The edge detector of the pause button.
    pub button: ButtonState,
    /// The bytes of the window.
    pub window: Seq<u8>,
    /// Index of the byte that the next sample is read from.
    pub counter: int,
    /// Number of bytes at the start of the window that belong to the stream.
    pub valid: int,
    /// Whether the window is being refilled.
    pub filling: bool,
    /// Number of bytes that the refill under way has brought.
    pub filled: int,
    /// Whether the producer has ended the stream.
    pub ended: bool,
}

/// Whether the window holds a sample for the next round.
pub open spec fn has_next(m: ControllerModel) -> bool {
    m.counter < m.valid
}

/// What holds of a controller between any two steps.
pub open spec fn controller_inv(m: ControllerModel) -> bool {
    &&& 0 < m.window.len() <= usize::MAX
    &&& 0 <= m.counter <= m.valid <= m.window.len()
    &&& 0 <= m.filled
    &&& m.button.pressed == m.button.already_down
    &&& m.filling ==> m.filled < m.window.len() && !m.ended && m.state != PlaybackState::Paused
    &&& !m.filling && m.state != PlaybackState::Idle ==> has_next(m)
}

/// The controller at boot: idle, waiting for its first window.
pub open spec fn boot_model(window: Seq<u8>, button_low: bool) -> ControllerModel {
    ControllerModel {
        state: PlaybackState::Idle,
        button: ButtonState { pressed: button_low, already_down: button_low },
        window,
        counter: 0,
        valid: 0,
        filling: true,
        filled: 0,
        ended: false,
    }
}

/// One round of the loop: the controller after it, and what the loop does
/// with the hardware.
///
/// The button is sampled first. A state other than `Playing` emits nothing.
/// Otherwise the sample under the cursor is emitted and the cursor moves on.
/// Where that was the last byte that the window holds of the stream, the
/// window is refilled, or playback ends if the stream has.
pub open spec fn poll_model(m: ControllerModel, button_low: bool) -> (ControllerModel, Action) {
    let state = state_after_sample(m.state, m.button.already_down, button_low);
    let button = ButtonState { pressed: button_low, already_down: button_low };
    if state != PlaybackState::Playing {
        (ControllerModel { state, button, ..m }, Action::Hold)
    } else {
        let duty = duty_of(m.window[m.counter]);
        let counter = m.counter + 1;
        if counter < m.valid {
            (ControllerModel { state, button, counter, ..m }, Action::Emit(duty))
        } else if m.ended {
            (
                ControllerModel { state: PlaybackState::Idle, button, counter, ..m },
                Action::Emit(duty),
            )
        } else {
            (
                ControllerModel { state, button, counter, filling: true, filled: 0, ..m },
                Action::EmitThenRefill(duty),
            )
        }
    }
}

/// The controller once a refill is over and the window holds `valid` bytes of
/// the stream: at the start of the window, playing if there is a sample to
/// play, idle if not.
pub open spec fn filled_model(m: ControllerModel, valid: int) -> ControllerModel {
    let fresh = ControllerModel { valid, counter: 0, filling: false, filled: 0, ..m };
    ControllerModel {
        state: if has_next(fresh) {
            PlaybackState::Playing
        } else {
            PlaybackState::Idle
        },
        ..fresh
    }
}

/// One word of a refill: the controller after it, and how far the refill has
/// come. A sample goes into the window's next byte, and the refill is over
/// with the window's last. The word that ends the stream ends the refill
/// where it stands.
pub open spec fn accept_model(m: ControllerModel, word: u32) -> (ControllerModel, FillOutcome) {
    match meaning_of(word) {
        Word::Sample(sample) => {
            let window = m.window.update(m.filled, sample);
            let filled = m.filled + 1;
            if filled < m.window.len() {
                (ControllerModel { window, filled, ..m }, FillOutcome::Pending)
            } else {
                (
                    filled_model(ControllerModel { window, ..m }, filled),
                    FillOutcome::Filled(filled as usize),
                )
            }
        },
        Word::EndOfStream => (
            filled_model(ControllerModel { ended: true, ..m }, m.filled),
            FillOutcome::Filled(m.filled as usize),
        ),
    }
}

/// A round of the loop keeps the controller well formed. The sample it
/// reads lies inside the part of the window that belongs to the stream, and
/// the cursor does not leave that part.
pub proof fn lemma_poll_keeps_inv(m: ControllerModel, button_low: bool)
    requires
        controller_inv(m),
        !m.filling,
    ensures
        controller_inv(poll_model(m, button_low).0),
        poll_model(m, button_low).1 != Action::Hold ==> 0 <= m.counter < m.valid
            && stream_index(m.counter, m.window.len() as int) == m.counter,
        poll_model(m, button_low).0.counter <= m.valid,
{
}

/// A button that is held down from one round to the next does not toggle
/// again: a paused controller stays paused and emits nothing, and a playing
/// one goes on playing unless the stream runs out.
pub proof fn lemma_held_button_does_not_toggle(m: ControllerModel)
    requires
        controller_inv(m),
        !m.filling,
        m.button.already_down,
    ensures
        poll_model(m, true).0.button.already_down,
        m.state == PlaybackState::Paused ==> poll_model(m, true) == (m, Action::Hold),
        m.state == PlaybackState::Playing ==> poll_model(m, true).1 != Action::Hold && (
        poll_model(m, true).0.state == PlaybackState::Playing || (poll_model(m, true).0.state
            == PlaybackState::Idle && m.ended)),
{
}

/// A word of a refill keeps the controller well formed.
pub proof fn lemma_accept_keeps_inv(m: ControllerModel, word: u32)
    requires
        controller_inv(m),
        m.filling,
    ensures
        controller_inv(accept_model(m, word).0),
{
}

/// The loop of the consumer core.
pub struct PlaybackController<'buf> {
    player: WAVStreamPlayer<'buf>,
    state: PlaybackState,
    button: ButtonState,
    valid: usize,
    filling: bool,
    filled: usize,
    ended: bool,
}

impl<'buf> View for PlaybackController<'buf> {
    type V = ControllerModel;

    closed spec fn view(&self) -> ControllerModel {
        ControllerModel {
            state: self.state,
            button: self.button,
            window: self.player.window(),
            counter: self.player.counter as int,
            valid: self.valid as int,
            filling: self.filling,
            filled: self.filled as int,
            ended: self.ended,
        }
    }
}

impl<'buf> PlaybackController<'buf> {
    /// What holds of a controller between any two steps.
    pub open spec fn wf(&self) -> bool {
        controller_inv(self@)
    }

    /// A controller over the given window, with the level of the pause
    /// button at boot. It is idle until its first window has arrived.
    pub fn new(buf: &'buf mut [u8], button_low: bool) -> (controller: PlaybackController<'buf>)
        requires
            old(buf)@.len() > 0,
        ensures
            controller.wf(),
            controller@ == boot_model(old(buf)@, button_low),
    {
        let len: usize = buf.len();
        assert(len == old(buf)@.len());
        PlaybackController {
            player: WAVStreamPlayer::new(buf),
            state: PlaybackState::Idle,
            button: ButtonState::new(button_low),
            valid: 0,
            filling: true,
            filled: 0,
            ended: false,
        }
    }

    /// Writes the audio carrier's settings into `pwm`, as the player of the
    /// window does.
    pub fn init(&self, pwm: &mut PwmConfig)
        ensures
            *final(pwm) == audio_config(),
    {
        self.player.init(pwm);
    }

    /// Whether samples are being emitted.
    pub fn state(&self) -> (state: PlaybackState)
        ensures
            state == self@.state,
    {
        self.state
    }

    /// Whether the next step is a word of a refill.
    pub fn wants_word(&self) -> (filling: bool)
        ensures
            filling == self@.filling,
    {
        self.filling
    }

    /// Whether the producer has ended the stream.
    pub fn has_ended(&self) -> (ended: bool)
        ensures
            ended == self@.ended,
    {
        self.ended
    }

    /// One round of the loop, with the level of the pause button.
    pub fn poll(&mut self, button_low: bool) -> (action: Action)
        requires
            old(self).wf(),
            !old(self)@.filling,
        ensures
            final(self).wf(),
            (final(self)@, action) == poll_model(old(self)@, button_low),
    {
        proof {
            lemma_poll_keeps_inv(self@, button_low);
        }
        let edge: bool = self.button.sample(button_low);
        if edge {
            self.state = self.state.toggle();
        }
        if self.state != PlaybackState::Playing {
            return Action::Hold;
        }
        let duty: u16 = self.player.get_next_sample();
        if self.player.counter < self.valid {
            Action::Emit(duty)
        } else if self.ended {
            self.state = PlaybackState::Idle;
            Action::Emit(duty)
        } else {
            self.filling = true;
            self.filled = 0;
            Action::EmitThenRefill(duty)
        }
    }

    /// One word of a refill, as it came out of the queue.
    pub fn accept_word(&mut self, word: u32) -> (outcome: FillOutcome)
        requires
            old(self).wf(),
            old(self)@.filling,
        ensures
            final(self).wf(),
            (final(self)@, outcome) == accept_model(old(self)@, word),
    {
        proof {
            lemma_accept_keeps_inv(self@, word);
        }
        match decode_word(word) {
            Word::Sample(sample) => {
                self.player.current_buffer[self.filled] = sample;
                self.filled = self.filled + 1;
                if self.filled < self.player.current_buffer.len() {
                    FillOutcome::Pending
                } else {
                    let valid: usize = self.filled;
                    self.finish_fill(valid);
                    FillOutcome::Filled(valid)
                }
            },
            Word::EndOfStream => {
                self.ended = true;
                let valid: usize = self.filled;
                self.finish_fill(valid);
                FillOutcome::Filled(valid)
            },
        }
    }

    fn finish_fill(&mut self, valid: usize)
        requires
            valid <= old(self)@.window.len(),
        ensures
            final(self)@ == filled_model(old(self)@, valid as int),
    {
        self.valid = valid;
        self.player.counter = 0;
        self.filling = false;
        self.filled = 0;
        if 0 < valid {
            self.state = PlaybackState::Playing;
        } else {
            self.state = PlaybackState::Idle;
        }
    }
}

} // verus!
