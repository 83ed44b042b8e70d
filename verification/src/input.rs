//! Button input: the polled edge detector of the pause button, and the flags
//! that an interrupt handler latches for the menu buttons.

use vstd::prelude::*;

verus! {

/// Number of presses that a run of polled levels holds. `true` is a line
/// that reads low, a button held down. A press is a low level that follows
/// a high one; `already_down` is the level before the run.
pub open spec fn down_edges(already_down: bool, levels: Seq<bool>) -> nat
    decreases levels.len(),
{
    if levels.len() == 0 {
        0
    } else {
        let first: nat = if levels[0] && !already_down {
            1
        } else {
            0
        };
        first + down_edges(levels[0], levels.drop_first())
    }
}

/// Whether every level of the run is low.
pub open spec fn all_low(levels: Seq<bool>) -> bool {
    forall|i: int| 0 <= i < levels.len() ==> levels[i]
}

/// A button that is held down over a whole run of polls is one press if it
/// was up before, and none if it was down already.
pub proof fn lemma_hold_is_one_press(already_down: bool, levels: Seq<bool>)
    requires
        all_low(levels),
        levels.len() > 0,
    ensures
        down_edges(already_down, levels) == if already_down { 0nat } else { 1nat },
    decreases levels.len(),
{
    let rest = levels.drop_first();
    assert(levels[0]);
    if rest.len() > 0 {
        assert forall|i: int| 0 <= i < rest.len() implies rest[i] by {
            assert(rest[i] == levels[i + 1]);
        }
        lemma_hold_is_one_press(true, rest);
    } else {
        assert(down_edges(true, rest) == 0);
    }
}

/// Edge detector of one active-low button that is polled.
#[derive(Clone, Copy, Debug, PartialEq, Eq, Structural)]
pub struct ButtonState {
    /// The level that was sampled last: whether the line read low.
    pub pressed: bool,
    /// Whether the press that is under way has been reported already.
    pub already_down: bool,
}

impl ButtonState {
    /// The detector's state at boot, from the level sampled then. A button
    /// that is down at boot counts as reported.
    pub fn new(is_low: bool) -> (state: ButtonState)
        ensures
            state == (ButtonState { pressed: is_low, already_down: is_low }),
    {
        ButtonState { pressed: is_low, already_down: is_low }
    }

    /// Takes one sample of the line and reports whether a press begins with
    /// it: the line reads low and no press was under way.
    pub fn sample(&mut self, is_low: bool) -> (edge: bool)
        ensures
            edge == (is_low && !old(self).already_down),
            *final(self) == (ButtonState { pressed: is_low, already_down: is_low }),
    {
        let edge: bool = is_low && !self.already_down;
        self.pressed = is_low;
        self.already_down = is_low;
        edge
    }

    /// Whether the line read low at the last sample.
    pub fn is_pressed(&self) -> (pressed: bool)
        ensures
            pressed == self.pressed,
    {
        self.pressed
    }
}

/// Presses that an interrupt handler has seen and the foreground loop has
/// not yet acted on.
#[derive(Clone, Copy, Debug, PartialEq, Eq, Structural)]
pub struct ButtonStates {
    /// The forward button.
    pub btn_1_pressed: bool,
    /// The back button.
    pub btn_2_pressed: bool,
    /// The confirm button.
    pub btn_3_pressed: bool,
}

impl Default for ButtonStates {
    fn default() -> (states: ButtonStates)
        ensures
            states == (ButtonStates {
                btn_1_pressed: false,
                btn_2_pressed: false,
                btn_3_pressed: false,
            }),
    {
        ButtonStates { btn_1_pressed: false, btn_2_pressed: false, btn_3_pressed: false }
    }
}

impl ButtonStates {
    /// The handler's part: records each of the two wired buttons whose line
    /// reads low. A flag that is set stays set.
    pub fn latch(&mut self, btn_1_low: bool, btn_2_low: bool)
        ensures
            final(self).btn_1_pressed == (old(self).btn_1_pressed || btn_1_low),
            final(self).btn_2_pressed == (old(self).btn_2_pressed || btn_2_low),
            final(self).btn_3_pressed == old(self).btn_3_pressed,
    {
        if btn_1_low {
            self.btn_1_pressed = true;
        }
        if btn_2_low {
            self.btn_2_pressed = true;
        }
    }

    /// The foreground loop's part: hands out the presses seen so far and
    /// clears them all.
    pub fn take(&mut self) -> (seen: ButtonStates)
        ensures
            seen == *old(self),
            !final(self).btn_1_pressed,
            !final(self).btn_2_pressed,
            !final(self).btn_3_pressed,
    {
        let seen: ButtonStates = *self;
        self.btn_1_pressed = false;
        self.btn_2_pressed = false;
        self.btn_3_pressed = false;
        seen
    }
}

} // verus!
