use melovitui::audio_engine::apply_effects;
use melovitui::audio_engine::scale_position;
use melovitui::audio_engine::EffectSettings;
use melovitui::sound_control::SoundControl;

#[test]
fn default_sound_asks_for_half_gain_at_unit_speed() {
    let sound = SoundControl::new();
    assert_eq!(apply_effects(&sound), EffectSettings { gain_percent: 50, speed: 1_000_000 });
}

#[test]
fn effects_follow_volume_and_pitch() {
    let mut sound = SoundControl::new();
    sound.adjust_volume(30);
    sound.adjust_pitch(25);
    assert_eq!(apply_effects(&sound), EffectSettings { gain_percent: 80, speed: 1_414_213 });
    sound.adjust_volume(-200);
    sound.adjust_pitch(-200);
    assert_eq!(apply_effects(&sound), EffectSettings { gain_percent: 0, speed: 500_000 });
    sound.adjust_volume(200);
    sound.adjust_pitch(200);
    assert_eq!(apply_effects(&sound), EffectSettings { gain_percent: 100, speed: 2_000_000 });
}

#[test]
fn effects_ignore_bass_and_treble() {
    let mut sound = SoundControl::new();
    sound.adjust_bass(40);
    sound.adjust_treble(60);
    assert_eq!(apply_effects(&sound), EffectSettings { gain_percent: 50, speed: 1_000_000 });
}

#[test]
fn position_scales_with_speed() {
    assert_eq!(scale_position(3_000_000_000, 1_000_000), 3_000_000_000);
    assert_eq!(scale_position(3_000_000_000, 2_000_000), 6_000_000_000);
    assert_eq!(scale_position(3_000_000_000, 500_000), 1_500_000_000);
    assert_eq!(scale_position(1_000_000_000, 1_414_213), 1_414_213_000);
    assert_eq!(scale_position(0, 2_000_000), 0);
    assert_eq!(scale_position(7, 0), 0);
}

#[test]
fn scaled_position_is_rounded_down() {
    assert_eq!(scale_position(1, 500_000), 0);
    assert_eq!(scale_position(3, 500_000), 1);
    assert_eq!(scale_position(999_999, 1_000_001), 999_999);
    assert_eq!(scale_position(1_000_000, 1_000_001), 1_000_001);
}

#[test]
fn scaled_position_is_capped_at_the_largest_time() {
    assert_eq!(scale_position(u64::MAX, 1_000_000), u64::MAX);
    assert_eq!(scale_position(u64::MAX, 2_000_000), u64::MAX);
    assert_eq!(scale_position(u64::MAX / 2 + 1, 2_000_000), u64::MAX);
    assert_eq!(scale_position(u64::MAX / 2, 2_000_000), u64::MAX - 1);
    assert_eq!(scale_position(u64::MAX, u32::MAX), u64::MAX);
}
