use wav_player::input::{ButtonState, ButtonStates};
use wav_player::playback::PlaybackState;
use wav_player::shared::SharedCell;

#[test]
fn press_is_reported_once() {
    let mut button = ButtonState::new(false);
    assert!(!button.sample(false));
    assert!(button.sample(true));
    assert!(button.is_pressed());
    for _ in 0..100 {
        assert!(!button.sample(true));
    }
    assert!(!button.sample(false));
    assert!(!button.is_pressed());
    assert!(button.sample(true));
}

#[test]
fn button_down_at_boot_is_no_press() {
    let mut button = ButtonState::new(true);
    assert!(button.already_down);
    assert!(!button.sample(true));
    assert!(!button.sample(false));
    assert!(button.sample(true));
}

#[test]
fn presses_are_counted_by_edges() {
    let levels = [true, true, false, true, false, false, true, true, true, false];
    let mut button = ButtonState::new(false);
    let mut presses = 0;
    let mut state = PlaybackState::Playing;
    for level in levels {
        if button.sample(level) {
            presses += 1;
            state = state.toggle();
        }
    }
    assert_eq!(presses, 3);
    assert_eq!(state, PlaybackState::Paused);
}

#[test]
fn toggle_switches_between_playing_and_paused() {
    assert_eq!(PlaybackState::Playing.toggle(), PlaybackState::Paused);
    assert_eq!(PlaybackState::Paused.toggle(), PlaybackState::Playing);
    assert_eq!(PlaybackState::Idle.toggle(), PlaybackState::Idle);
}

#[test]
fn latch_keeps_presses_until_taken() {
    let mut states = ButtonStates::default();
    assert_eq!(
        states,
        ButtonStates { btn_1_pressed: false, btn_2_pressed: false, btn_3_pressed: false }
    );
    states.latch(true, false);
    states.latch(false, false);
    assert!(states.btn_1_pressed);
    assert!(!states.btn_2_pressed);
    states.latch(false, true);
    assert!(states.btn_1_pressed);
    assert!(states.btn_2_pressed);
    assert!(!states.btn_3_pressed);
    let seen = states.take();
    assert!(seen.btn_1_pressed && seen.btn_2_pressed && !seen.btn_3_pressed);
    assert_eq!(states, ButtonStates::default());
}

#[test]
fn latch_leaves_third_button_alone() {
    let mut states =
        ButtonStates { btn_1_pressed: false, btn_2_pressed: false, btn_3_pressed: true };
    states.latch(true, true);
    assert!(states.btn_3_pressed);
    let seen = states.take();
    assert!(seen.btn_3_pressed);
    assert!(!states.btn_3_pressed);
}

#[test]
fn cell_takes_one_peripheral() {
    let mut cell: SharedCell<u32> = SharedCell::new();
    assert!(!cell.is_populated());
    assert_eq!(cell.set(5), Ok(()));
    assert!(cell.is_populated());
    assert_eq!(*cell.access(), 5);
}

#[test]
fn second_hand_off_is_discarded() {
    let mut cell: SharedCell<u32> = SharedCell::new();
    assert_eq!(cell.set(5), Ok(()));
    assert_eq!(cell.set(6), Err(6));
    assert_eq!(*cell.access(), 5);
}

#[test]
fn handler_sees_foreground_writes() {
    let mut cell: SharedCell<u16> = SharedCell::new();
    assert_eq!(cell.set(0), Ok(()));
    cell.unmask();
    *cell.access() = 1024;
    assert_eq!(*cell.access_from_handler(), 1024);
    *cell.access_from_handler() += 1;
    assert_eq!(*cell.access(), 1025);
    assert_eq!(cell.set(9), Err(9));
    assert_eq!(*cell.access(), 1025);
}
