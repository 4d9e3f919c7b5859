use melovitui::speed::calc_playback_speed;
use melovitui::speed::SPEED_MAX;
use melovitui::speed::SPEED_MIN;
use melovitui::speed::SPEED_UNIT;

#[test]
fn pitch_zero_is_unit_speed() {
    assert_eq!(calc_playback_speed(0), 1_000_000);
    assert_eq!(calc_playback_speed(0), SPEED_UNIT);
}

#[test]
fn full_pitch_is_double_speed() {
    assert_eq!(calc_playback_speed(100), 2_000_000);
    assert_eq!(calc_playback_speed(100), SPEED_MAX);
}

#[test]
fn lowest_pitch_is_half_speed() {
    assert_eq!(calc_playback_speed(-100), 500_000);
    assert_eq!(calc_playback_speed(-100), SPEED_MIN);
}

#[test]
fn one_octave_is_reached_at_fifty_steps() {
    assert_eq!(calc_playback_speed(50), 2_000_000);
    assert_eq!(calc_playback_speed(-50), 500_000);
    assert_eq!(calc_playback_speed(49), 1_972_465);
    assert_eq!(calc_playback_speed(-49), 506_979);
}

#[test]
fn speed_is_clamped_outside_one_octave() {
    assert_eq!(calc_playback_speed(51), 2_000_000);
    assert_eq!(calc_playback_speed(75), 2_000_000);
    assert_eq!(calc_playback_speed(i32::MAX), 2_000_000);
    assert_eq!(calc_playback_speed(-51), 500_000);
    assert_eq!(calc_playback_speed(-75), 500_000);
    assert_eq!(calc_playback_speed(i32::MIN), 500_000);
}

#[test]
fn half_an_octave_is_the_square_root_of_two() {
    assert_eq!(calc_playback_speed(25), 1_414_213);
    assert_eq!(calc_playback_speed(-25), 707_106);
}

#[test]
fn single_steps_have_their_exact_speed() {
    assert_eq!(calc_playback_speed(1), 1_013_959);
    assert_eq!(calc_playback_speed(-1), 986_232);
    assert_eq!(calc_playback_speed(5), 1_071_773);
    assert_eq!(calc_playback_speed(-5), 933_032);
    assert_eq!(calc_playback_speed(10), 1_148_698);
    assert_eq!(calc_playback_speed(-10), 870_550);
}

#[test]
fn speed_follows_the_power_of_two_within_a_millionth() {
    let mut pitch = -100;
    while pitch <= 100 {
        let exact = 2f64.powf(f64::from(pitch) / 100.0 * 24.0 / 12.0).clamp(0.5, 2.0);
        let speed = f64::from(calc_playback_speed(pitch)) / 1_000_000.0;
        assert!(speed <= exact + 1e-12, "pitch {pitch}: {speed} above {exact}");
        assert!(exact - speed < 1e-6, "pitch {pitch}: {speed} too far below {exact}");
        pitch += 1;
    }
}

#[test]
fn a_higher_pitch_never_plays_slower() {
    let mut pitch = -120;
    while pitch < 120 {
        assert!(calc_playback_speed(pitch) <= calc_playback_speed(pitch + 1));
        pitch += 1;
    }
}

#[test]
fn speed_grows_strictly_inside_one_octave() {
    let mut pitch = -50;
    while pitch < 50 {
        assert!(calc_playback_speed(pitch) < calc_playback_speed(pitch + 1));
        pitch += 1;
    }
}
