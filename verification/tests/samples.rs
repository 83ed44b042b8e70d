use wav_player::player::wav::{WAVPlayer, HEADER_LEN};
use wav_player::player::wav_streaming::WAVStreamPlayer;
use wav_player::pwm::{
    AudioOutput, OutputState, PwmConfig, AUDIO_DIV_INT, AUDIO_TOP, TARGET_SAMPLE_RATE_HZ,
};
use wav_player::sample::{clamp_duty, rescale, MAX_DUTY};

fn asset_with(samples: &[u8]) -> Vec<u8> {
    let mut asset = vec![0xEEu8; HEADER_LEN];
    for sample in samples {
        asset.push(*sample);
    }
    asset
}

#[test]
fn rescale_matches_shift_and_mask_for_every_byte() {
    for value in 0..=255u8 {
        let expected = (((value as u16) << 4) & 0xFFF) >> 1;
        assert_eq!(rescale(value), expected);
        assert!(rescale(value) <= MAX_DUTY);
    }
}

#[test]
fn rescale_exact_values() {
    assert_eq!(rescale(0), 0);
    assert_eq!(rescale(1), 8);
    assert_eq!(rescale(128), 1024);
    assert_eq!(rescale(255), 2040);
}

#[test]
fn clamp_duty_limits_to_top() {
    assert_eq!(clamp_duty(100, 4096), 100);
    assert_eq!(clamp_duty(4096, 4096), 4096);
    assert_eq!(clamp_duty(5000, 4096), 4096);
    assert_eq!(clamp_duty(0, 0), 0);
}

#[test]
fn wav_player_starts_behind_header() {
    let asset = asset_with(&[10, 20, 30]);
    let mut player = WAVPlayer::new(&asset);
    assert_eq!(player.get_current_sample(), 0);
    assert_eq!(player.get_next_sample(), 80);
    assert_eq!(player.get_current_sample(), 0x2C);
    assert_eq!(player.get_next_sample(), 160);
    assert_eq!(player.get_current_sample(), 0x2D);
}

#[test]
fn wav_player_cycles_over_the_samples() {
    let asset = asset_with(&[10, 20, 30]);
    let mut player = WAVPlayer::new(&asset);
    let mut duties = Vec::new();
    for _ in 0..7 {
        duties.push(player.get_next_sample());
        assert!(player.get_current_sample() < asset.len());
        assert!(player.get_current_sample() >= HEADER_LEN);
    }
    assert_eq!(duties, vec![80, 160, 240, 80, 160, 240, 80]);
}

#[test]
fn wav_player_single_sample_repeats() {
    let asset = asset_with(&[255]);
    let mut player = WAVPlayer::new(&asset);
    assert_eq!(player.get_next_sample(), 2040);
    assert_eq!(player.get_next_sample(), 2040);
    assert_eq!(player.get_current_sample(), 0x2C);
}

#[test]
fn wav_player_reset_returns_to_first_sample() {
    let asset = asset_with(&[1, 2, 3, 4, 5]);
    for advance in 0..12 {
        let mut player = WAVPlayer::new(&asset);
        for _ in 0..advance {
            player.get_next_sample();
        }
        let before = player.get_current_sample();
        player.reset();
        assert_eq!(player.get_current_sample(), before);
        assert_eq!(player.get_next_sample(), 8);
        assert_eq!(player.get_current_sample(), 0x2C);
    }
}

#[test]
fn wav_player_reset_on_asset_without_samples() {
    let asset = vec![0u8; 10];
    let mut player = WAVPlayer::new(&asset);
    player.reset();
    assert_eq!(player.get_current_sample(), 0);
}

#[test]
fn wav_player_init_sets_audio_carrier() {
    let asset = asset_with(&[1]);
    let player = WAVPlayer::new(&asset);
    let mut pwm = PwmConfig { top: 0, div_int: 7, wrap_interrupt: false, enabled: false };
    player.init(&mut pwm);
    assert_eq!(pwm, PwmConfig { top: 4096, div_int: 1, wrap_interrupt: true, enabled: true });
    assert_eq!(AUDIO_TOP, 4096);
    assert_eq!(AUDIO_DIV_INT, 1);
}

#[test]
fn stream_player_reads_under_the_cursor() {
    let mut window = [10u8, 20, 30, 40];
    let mut player = WAVStreamPlayer::new(&mut window);
    assert_eq!(player.counter, 0);
    assert_eq!(player.get_next_sample(), 80);
    assert_eq!(player.counter, 1);
    assert_eq!(player.get_next_sample(), 160);
    assert_eq!(player.get_next_sample(), 240);
    assert_eq!(player.counter, 3);
    assert_eq!(player.get_next_sample(), 320);
    assert_eq!(player.counter, 4);
}

#[test]
fn stream_player_plays_a_fresh_window_in_order() {
    let mut window = [1u8, 2, 3, 4];
    let mut player = WAVStreamPlayer::new(&mut window);
    let results = [
        player.get_next_sample(),
        player.get_next_sample(),
        player.get_next_sample(),
        player.get_next_sample(),
    ];
    assert_eq!(results, [8, 16, 24, 32]);
}

#[test]
fn stream_player_wraps_at_the_end_of_the_window() {
    let mut window = [10u8, 20, 30, 40];
    let mut player = WAVStreamPlayer::new(&mut window);
    for _ in 0..4 {
        player.get_next_sample();
    }
    assert_eq!(player.counter, 4);
    assert_eq!(player.get_next_sample(), 80);
    assert_eq!(player.counter, 1);
    assert_eq!(player.get_next_sample(), 160);
    assert_eq!(player.counter, 2);
}

#[test]
fn stream_player_cursor_stays_in_the_window() {
    let mut window = [1u8, 2, 3, 4, 5];
    let mut player = WAVStreamPlayer::new(&mut window);
    let mut expected = Vec::new();
    let mut duties = Vec::new();
    for call in 0..23u16 {
        duties.push(player.get_next_sample());
        expected.push((call % 5 + 1) * 8);
        assert!(player.counter >= 1);
        assert!(player.counter <= 5);
    }
    assert_eq!(duties, expected);
}

#[test]
fn stream_player_cursor_beyond_the_window_starts_over() {
    let mut window = [10u8, 20, 30, 40];
    let mut player = WAVStreamPlayer::new(&mut window);
    player.counter = usize::MAX;
    assert_eq!(player.get_next_sample(), 80);
    assert_eq!(player.counter, 1);
}

#[test]
fn stream_player_window_of_one_byte() {
    let mut window = [128u8];
    let mut player = WAVStreamPlayer::new(&mut window);
    assert_eq!(player.get_next_sample(), 1024);
    assert_eq!(player.counter, 1);
    assert_eq!(player.get_next_sample(), 1024);
    assert_eq!(player.counter, 1);
}

#[test]
fn stream_player_sees_refilled_window() {
    let mut window = [0u8; 4];
    let mut player = WAVStreamPlayer::new(&mut window);
    assert_eq!(player.get_next_sample(), 0);
    player.current_buffer[1] = 200;
    assert_eq!(player.get_next_sample(), 1600);
    player.current_buffer[0] = 3;
    player.counter = 0;
    assert_eq!(player.get_next_sample(), 24);
}

#[test]
fn stream_player_init_sets_audio_carrier() {
    let mut window = [0u8; 4];
    let player = WAVStreamPlayer::new(&mut window);
    let mut pwm = PwmConfig { top: 1, div_int: 0, wrap_interrupt: false, enabled: false };
    player.init(&mut pwm);
    assert_eq!(pwm, PwmConfig::audio());
    assert_eq!(pwm.wrap_rate_hz(131_000_000), 31_974);
}

#[test]
fn wrap_rate_divides_the_system_clock() {
    let config = PwmConfig { top: 999, div_int: 4, wrap_interrupt: false, enabled: true };
    assert_eq!(config.wrap_rate_hz(8_000_000), 2_000);
    let fastest = PwmConfig { top: 0, div_int: 1, wrap_interrupt: false, enabled: true };
    assert_eq!(fastest.wrap_rate_hz(u32::MAX), u32::MAX);
    let slowest = PwmConfig { top: u16::MAX, div_int: 255, wrap_interrupt: false, enabled: true };
    assert_eq!(slowest.wrap_rate_hz(16_711_680), 1);
}

#[test]
fn output_is_brought_up_in_two_steps() {
    let mut output = AudioOutput::new();
    assert_eq!(output.state, OutputState::Uninitialized);
    assert_eq!(output.duty, 0);
    assert!(!output.wrap_pending);
    output.configure(PwmConfig::audio());
    assert_eq!(output.state, OutputState::Configured);
    assert_eq!(
        output.config,
        PwmConfig { top: 4096, div_int: 1, wrap_interrupt: true, enabled: false }
    );
    output.start();
    assert_eq!(output.state, OutputState::Running);
    assert_eq!(output.config, PwmConfig::audio());
    assert_eq!(output.duty, 0);
}

#[test]
fn output_limits_duty_to_top() {
    let mut output = AudioOutput::new();
    output.configure(PwmConfig { top: 1000, div_int: 1, wrap_interrupt: false, enabled: true });
    output.start();
    assert_eq!(output.write_duty(999), 999);
    assert_eq!(output.duty, 999);
    assert_eq!(output.write_duty(1000), 1000);
    assert_eq!(output.write_duty(1001), 1000);
    assert_eq!(output.duty, 1000);
    assert_eq!(output.write_duty(u16::MAX), 1000);
}

#[test]
fn samples_pass_the_audio_carrier_unchanged() {
    let mut output = AudioOutput::new();
    output.configure(PwmConfig::audio());
    output.start();
    for value in 0..=255u8 {
        assert_eq!(output.write_duty(rescale(value)), rescale(value));
    }
}

#[test]
fn handler_only_acknowledges_the_wrap() {
    let mut output = AudioOutput::new();
    output.configure(PwmConfig::audio());
    output.start();
    output.write_duty(1024);
    output.wrapped();
    assert!(output.wrap_pending);
    let before = output;
    output.acknowledge_wrap();
    assert_eq!(output, AudioOutput { wrap_pending: false, ..before });
    assert_eq!(output.duty, 1024);
    output.acknowledge_wrap();
    assert!(!output.wrap_pending);
}

#[test]
fn wrap_without_interrupt_raises_nothing() {
    let mut output = AudioOutput::new();
    output.configure(PwmConfig { top: 10, div_int: 1, wrap_interrupt: false, enabled: false });
    output.start();
    output.wrapped();
    assert!(!output.wrap_pending);
}

#[test]
fn audio_carrier_wraps_near_the_sample_rate() {
    let rate = PwmConfig::audio().wrap_rate_hz(131_000_000);
    assert_eq!(rate, 31_974);
    assert!(rate <= TARGET_SAMPLE_RATE_HZ);
    assert!(TARGET_SAMPLE_RATE_HZ - rate <= 32);
}
