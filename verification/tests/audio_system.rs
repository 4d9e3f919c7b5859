use std::path::PathBuf;

use melovitui::audio_engine::EffectSettings;
use melovitui::audio_engine::EngineCommand;
use melovitui::audio_engine::EngineStatus;
use melovitui::audio_engine::PlayRequest;
use melovitui::audio_system::AudioError;
use melovitui::audio_system::AudioSystem;
use melovitui::music_library::MusicLibrary;
use melovitui::music_library::Track;
use melovitui::playback_state::PlaybackStatus;
use melovitui::spectrum::SpectrumResult;

const SECOND: u64 = 1_000_000_000;

fn library_with_lengths(seconds: &[u64]) -> MusicLibrary {
    let mut library = MusicLibrary::new(PathBuf::from("/music"));
    for (number, length) in seconds.iter().enumerate() {
        library.add_track(Track::with_metadata(
            PathBuf::from(format!("/music/{number}.mp3")),
            format!("track {number}"),
            None,
            Some(length * SECOND),
        ));
    }
    library
}

fn playing(library: &MusicLibrary, track: usize) -> AudioSystem<f32> {
    let mut system = AudioSystem::new();
    let request = system.play_track(library, Some(track)).unwrap();
    system.complete_play(library, request, true);
    system
}

fn at(position: u64) -> EngineStatus {
    EngineStatus { sink_empty: false, position }
}

fn ended() -> EngineStatus {
    EngineStatus { sink_empty: true, position: 0 }
}

#[test]
fn new_system_is_stopped_with_default_sound() {
    let system: AudioSystem<f32> = AudioSystem::new();
    assert_eq!(system.get_playback_state().status(), PlaybackStatus::Stopped);
    assert_eq!(system.get_playback_state().current_track(), None);
    assert_eq!(system.get_sound_state().volume(), 50);
    assert_eq!(system.get_sound_state().pitch(), 0);
    assert_eq!(system.get_visualizer_canvas_type(), 0);
    assert_eq!(system.get_current_speed(), 1_000_000);
    assert_eq!(system.get_current_frame(), Vec::<f32>::new());
    assert!(!system.get_spectrum().is_processing());
    assert_eq!(system.get_effect_settings(), EffectSettings { gain_percent: 50, speed: 1_000_000 });
}

#[test]
fn play_track_requests_the_track_and_begins_a_spectrum_job() {
    let library = library_with_lengths(&[3, 4]);
    let mut system: AudioSystem<f32> = AudioSystem::new();
    let request = system.play_track(&library, Some(1));
    assert_eq!(request, Ok(PlayRequest { track: 1, generation: 1 }));
    assert!(system.get_spectrum().is_processing());
    assert_eq!(system.get_spectrum().generation(), 1);
    assert_eq!(system.get_playback_state().status(), PlaybackStatus::Stopped);
    assert_eq!(system.get_playback_state().current_track(), None);
}

#[test]
fn play_track_without_index_plays_the_selection() {
    let mut library = library_with_lengths(&[3, 4, 5]);
    library.select_track(2);
    let mut system: AudioSystem<f32> = AudioSystem::new();
    let request = system.play_track(&library, None);
    assert_eq!(request, Ok(PlayRequest { track: 2, generation: 1 }));
    let request = system.play_track(&library, Some(0));
    assert_eq!(request, Ok(PlayRequest { track: 0, generation: 2 }));
}

#[test]
fn play_track_refuses_an_index_outside_the_library() {
    let library = library_with_lengths(&[3, 4]);
    let mut system = playing(&library, 0);
    system.tick(&library, at(SECOND), None);
    let request = system.play_track(&library, Some(2));
    assert_eq!(request, Err(AudioError::InvalidIndex(2)));
    assert_eq!(system.get_playback_state().status(), PlaybackStatus::Playing);
    assert_eq!(system.get_playback_state().current_track(), Some(0));
    assert_eq!(system.get_playback_state().elapsed(), SECOND);
    assert_eq!(system.get_spectrum().generation(), 1);
    let request = system.play_track(&library, Some(usize::MAX));
    assert_eq!(request, Err(AudioError::InvalidIndex(usize::MAX)));
    let empty = library_with_lengths(&[]);
    let request = system.play_track(&empty, Some(0));
    assert_eq!(request, Err(AudioError::InvalidIndex(0)));
}

#[test]
fn complete_play_starts_playback_and_applies_effects() {
    let library = library_with_lengths(&[3, 4]);
    let mut system: AudioSystem<f32> = AudioSystem::new();
    system.adjust_volume(20);
    let request = system.play_track(&library, Some(1)).unwrap();
    let command = system.complete_play(&library, request, true);
    assert_eq!(
        command,
        Some(EngineCommand::ApplyEffects(EffectSettings { gain_percent: 70, speed: 1_000_000 }))
    );
    assert_eq!(system.get_playback_state().status(), PlaybackStatus::Playing);
    assert_eq!(system.get_playback_state().current_track(), Some(1));
    assert_eq!(system.get_playback_state().elapsed(), 0);
    assert_eq!(system.get_playback_state().total_time(), 4 * SECOND);
}

#[test]
fn a_failed_play_leaves_playback_untouched() {
    let library = library_with_lengths(&[3, 4]);
    let mut system = playing(&library, 0);
    system.tick(&library, at(2 * SECOND), None);
    let request = system.play_track(&library, Some(1)).unwrap();
    let command = system.complete_play(&library, request, false);
    assert_eq!(command, None);
    assert_eq!(system.get_playback_state().status(), PlaybackStatus::Playing);
    assert_eq!(system.get_playback_state().current_track(), Some(0));
    assert_eq!(system.get_playback_state().elapsed(), 2 * SECOND);
    assert_eq!(system.get_playback_state().total_time(), 3 * SECOND);
}

#[test]
fn a_track_of_unknown_length_starts_with_length_zero() {
    let mut library = library_with_lengths(&[3]);
    library.add_track(Track::new(PathBuf::from("/music/unknown.mp3")));
    let mut system = playing(&library, 1);
    assert_eq!(system.get_playback_state().total_time(), 0);
    system.tick(&library, at(SECOND), None);
    assert_eq!(system.get_playback_state().elapsed(), 0);
    let vanished = PlayRequest { track: 9, generation: 1 };
    system.complete_play(&library, vanished, true);
    assert_eq!(system.get_playback_state().current_track(), Some(9));
    assert_eq!(system.get_playback_state().total_time(), 0);
}

#[test]
fn playback_advances_when_the_sink_runs_empty() {
    let library = library_with_lengths(&[3, 4]);
    let mut system: AudioSystem<f32> = AudioSystem::new();
    let request = system.play_track(&library, Some(0)).unwrap();
    system.complete_play(&library, request, true);
    assert_eq!(system.get_playback_state().status(), PlaybackStatus::Playing);
    assert_eq!(system.get_playback_state().current_track(), Some(0));
    assert_eq!(system.get_playback_state().elapsed(), 0);

    let mut position = 0;
    while position < 3 * SECOND {
        position += 16_000_000;
        assert_eq!(system.update_playback(&library, at(position)), None);
        assert_eq!(system.get_playback_state().elapsed(), position.min(3 * SECOND));
    }
    let next = system.update_playback(&library, ended());
    assert_eq!(next, Some(PlayRequest { track: 1, generation: 2 }));
    system.complete_play(&library, next.unwrap(), true);
    assert_eq!(system.get_playback_state().current_track(), Some(1));
    assert_eq!(system.get_playback_state().status(), PlaybackStatus::Playing);
    assert_eq!(system.get_playback_state().elapsed(), 0);
    assert_eq!(system.get_playback_state().total_time(), 4 * SECOND);
}

#[test]
fn toggle_pauses_a_playing_track() {
    let library = library_with_lengths(&[3, 4]);
    let mut system = playing(&library, 0);
    system.tick(&library, at(SECOND), None);
    let command = system.toggle_playback(&library);
    assert_eq!(command, Some(EngineCommand::Pause));
    assert_eq!(system.get_playback_state().status(), PlaybackStatus::Paused);
    assert_eq!(system.get_playback_state().elapsed(), SECOND);
    assert_eq!(system.get_playback_state().current_track(), Some(0));
}

#[test]
fn seek_backward_saturates_at_zero() {
    let library = library_with_lengths(&[30]);
    let system = playing(&library, 0);
    let command = system.seek_backward(5 * SECOND, Some(10 * SECOND));
    assert_eq!(command, EngineCommand::Seek(0));
    let command = system.seek_backward(5 * SECOND, None);
    assert_eq!(command, EngineCommand::Seek(0));
}

#[test]
fn pitch_is_clamped_and_doubles_the_speed() {
    let mut system: AudioSystem<f32> = AudioSystem::new();
    assert_eq!(system.get_sound_state().pitch(), 0);
    let command = system.adjust_pitch(150);
    assert_eq!(system.get_sound_state().pitch(), 100);
    assert_eq!(
        command,
        EngineCommand::ApplyEffects(EffectSettings { gain_percent: 50, speed: 2_000_000 })
    );
    assert_eq!(system.get_current_speed(), 2_000_000);
    assert_eq!(system.get_effect_settings().speed, 2_000_000);
}

#[test]
fn toggle_on_an_empty_library_stays_stopped() {
    let library = library_with_lengths(&[]);
    let mut system: AudioSystem<f32> = AudioSystem::new();
    let command = system.toggle_playback(&library);
    assert_eq!(command, None);
    assert_eq!(system.get_playback_state().status(), PlaybackStatus::Stopped);
    assert_eq!(system.get_playback_state().current_track(), None);
    assert_eq!(system.get_spectrum().generation(), 0);
    assert!(!system.get_spectrum().is_processing());
}

#[test]
fn toggle_with_nothing_playing_requests_the_first_track() {
    let library = library_with_lengths(&[3, 4]);
    let mut system: AudioSystem<f32> = AudioSystem::new();
    let command = system.toggle_playback(&library);
    assert_eq!(command, Some(EngineCommand::Play(PlayRequest { track: 0, generation: 1 })));
    assert_eq!(system.get_playback_state().status(), PlaybackStatus::Stopped);
    assert!(system.get_spectrum().is_processing());
}

#[test]
fn toggle_resumes_a_paused_track() {
    let library = library_with_lengths(&[3, 4]);
    let mut system = playing(&library, 1);
    system.tick(&library, at(2 * SECOND), None);
    system.toggle_playback(&library);
    let command = system.toggle_playback(&library);
    assert_eq!(command, Some(EngineCommand::Resume));
    assert_eq!(system.get_playback_state().status(), PlaybackStatus::Playing);
    assert_eq!(system.get_playback_state().elapsed(), 2 * SECOND);
    assert_eq!(system.get_playback_state().current_track(), Some(1));
}

#[test]
fn toggle_after_stop_starts_over_with_the_first_track() {
    let library = library_with_lengths(&[3, 4]);
    let mut system = playing(&library, 1);
    assert_eq!(system.stop(), EngineCommand::Stop);
    assert_eq!(system.get_playback_state().status(), PlaybackStatus::Stopped);
    assert_eq!(system.get_playback_state().current_track(), None);
    assert_eq!(system.get_playback_state().elapsed(), 0);
    let command = system.toggle_playback(&library);
    assert_eq!(command, Some(EngineCommand::Play(PlayRequest { track: 0, generation: 2 })));
}

#[test]
fn advance_wraps_from_the_last_track_to_the_first() {
    let library = library_with_lengths(&[3, 4, 5]);
    let mut system = playing(&library, 2);
    let next = system.advance_track(&library);
    assert_eq!(next, Some(PlayRequest { track: 0, generation: 2 }));
    system.complete_play(&library, next.unwrap(), true);
    assert_eq!(system.get_playback_state().current_track(), Some(0));
}

#[test]
fn advance_steps_to_the_next_track() {
    let library = library_with_lengths(&[3, 4, 5]);
    let mut system = playing(&library, 0);
    assert_eq!(system.advance_track(&library), Some(PlayRequest { track: 1, generation: 2 }));
    let single = library_with_lengths(&[3]);
    let mut alone = playing(&single, 0);
    assert_eq!(alone.advance_track(&single), Some(PlayRequest { track: 0, generation: 2 }));
}

#[test]
fn advance_does_nothing_without_a_current_track_or_without_tracks() {
    let library = library_with_lengths(&[3, 4]);
    let mut idle: AudioSystem<f32> = AudioSystem::new();
    assert_eq!(idle.advance_track(&library), None);
    assert_eq!(idle.get_spectrum().generation(), 0);
    let mut system = playing(&library, 1);
    let empty = library_with_lengths(&[]);
    assert_eq!(system.advance_track(&empty), None);
    assert_eq!(system.get_playback_state().current_track(), Some(1));
    assert_eq!(system.get_spectrum().generation(), 1);
}

#[test]
fn advance_from_a_track_outside_the_library_stays_inside() {
    let library = library_with_lengths(&[3, 4, 5]);
    let mut system: AudioSystem<f32> = AudioSystem::new();
    system.complete_play(&library, PlayRequest { track: 7, generation: 0 }, true);
    assert_eq!(system.advance_track(&library), Some(PlayRequest { track: 2, generation: 1 }));
    system.complete_play(&library, PlayRequest { track: usize::MAX, generation: 0 }, true);
    let next = system.advance_track(&library).unwrap();
    assert!(next.track < 3);
}

#[test]
fn update_does_nothing_unless_playing() {
    let library = library_with_lengths(&[3, 4]);
    let mut idle: AudioSystem<f32> = AudioSystem::new();
    assert_eq!(idle.update_playback(&library, ended()), None);
    assert_eq!(idle.get_playback_state().status(), PlaybackStatus::Stopped);
    let mut system = playing(&library, 0);
    system.tick(&library, at(SECOND), None);
    system.pause();
    assert_eq!(system.update_playback(&library, at(2 * SECOND)), None);
    assert_eq!(system.get_playback_state().elapsed(), SECOND);
    assert_eq!(system.update_playback(&library, ended()), None);
    assert_eq!(system.get_playback_state().current_track(), Some(0));
    assert_eq!(system.get_playback_state().status(), PlaybackStatus::Paused);
}

#[test]
fn update_scales_the_device_clock_by_the_speed() {
    let library = library_with_lengths(&[30]);
    let mut system = playing(&library, 0);
    system.adjust_pitch(100);
    system.update_playback(&library, at(3 * SECOND));
    assert_eq!(system.get_playback_state().elapsed(), 6 * SECOND);
    system.adjust_pitch(-200);
    system.update_playback(&library, at(3 * SECOND));
    assert_eq!(system.get_playback_state().elapsed(), 3 * SECOND / 2);
    system.adjust_pitch(125);
    system.update_playback(&library, at(SECOND));
    assert_eq!(system.get_playback_state().elapsed(), 1_414_213_000);
    system.adjust_pitch(75);
    system.update_playback(&library, at(20 * SECOND));
    assert_eq!(system.get_playback_state().elapsed(), 30 * SECOND);
    system.update_playback(&library, at(u64::MAX));
    assert_eq!(system.get_playback_state().elapsed(), 30 * SECOND);
}

#[test]
fn update_takes_in_the_spectrum_of_the_current_job() {
    let library = library_with_lengths(&[3, 4]);
    let mut system: AudioSystem<f32> = AudioSystem::new();
    let sender = system.spectrum_sender();
    let request = system.play_track(&library, Some(0)).unwrap();
    system.complete_play(&library, request, true);
    assert_eq!(system.get_current_frame(), Vec::<f32>::new());
    sender
        .send(SpectrumResult {
            buffer: vec![1.0, 2.0, 3.0, 4.0],
            frame_size: 2,
            generation: request.generation,
        })
        .unwrap();
    system.update_playback(&library, at(0));
    assert_eq!(system.get_current_frame(), vec![1.0, 2.0]);
    system.update_playback(&library, at(17_000_000));
    assert_eq!(system.get_current_frame(), vec![3.0, 4.0]);
    system.update_playback(&library, at(34_000_000));
    assert_eq!(system.get_current_frame(), Vec::<f32>::new());
}

#[test]
fn a_skipped_track_never_shows_its_spectrum() {
    let library = library_with_lengths(&[3, 4]);
    let mut system: AudioSystem<f32> = AudioSystem::new();
    let sender = system.spectrum_sender();
    let first = system.play_track(&library, Some(0)).unwrap();
    system.complete_play(&library, first, true);
    let second = system.play_track(&library, Some(1)).unwrap();
    system.complete_play(&library, second, true);
    sender
        .send(SpectrumResult { buffer: vec![9.0; 4], frame_size: 2, generation: first.generation })
        .unwrap();
    system.update_playback(&library, at(0));
    assert!(system.get_spectrum().is_processing());
    assert_eq!(system.get_current_frame(), Vec::<f32>::new());
    sender
        .send(SpectrumResult { buffer: vec![5.0; 4], frame_size: 2, generation: second.generation })
        .unwrap();
    system.update_playback(&library, at(0));
    assert_eq!(system.get_current_frame(), vec![5.0, 5.0]);
}

#[test]
fn the_spectrum_waits_while_paused() {
    let library = library_with_lengths(&[3]);
    let mut system = playing(&library, 0);
    let sender = system.spectrum_sender();
    system.pause();
    sender.send(SpectrumResult { buffer: vec![1.0; 2], frame_size: 2, generation: 1 }).unwrap();
    system.update_playback(&library, at(0));
    assert!(system.get_spectrum().is_processing());
    system.resume();
    system.update_playback(&library, at(0));
    assert!(!system.get_spectrum().is_processing());
    assert_eq!(system.get_current_frame(), vec![1.0, 1.0]);
}

#[test]
fn tick_takes_in_what_it_is_given() {
    let library = library_with_lengths(&[3, 4]);
    let mut system = playing(&library, 0);
    let result = SpectrumResult { buffer: vec![1.0, 2.0], frame_size: 1, generation: 1 };
    assert_eq!(system.tick(&library, at(20_000_000), Some(result)), None);
    assert_eq!(system.get_current_frame(), vec![2.0]);
    let next = system.tick(&library, ended(), None);
    assert_eq!(next, Some(PlayRequest { track: 1, generation: 2 }));
    assert_eq!(system.get_current_frame(), Vec::<f32>::new());
    assert_eq!(system.get_playback_state().current_track(), Some(0));
}

#[test]
fn pause_and_resume_follow_the_state_machine() {
    let library = library_with_lengths(&[3]);
    let mut idle: AudioSystem<f32> = AudioSystem::new();
    assert_eq!(idle.pause(), EngineCommand::Pause);
    assert_eq!(idle.get_playback_state().status(), PlaybackStatus::Stopped);
    assert_eq!(idle.resume(), EngineCommand::Resume);
    assert_eq!(idle.get_playback_state().status(), PlaybackStatus::Stopped);
    let mut system = playing(&library, 0);
    assert_eq!(system.pause(), EngineCommand::Pause);
    assert_eq!(system.get_playback_state().status(), PlaybackStatus::Paused);
    assert_eq!(system.resume(), EngineCommand::Resume);
    assert_eq!(system.get_playback_state().status(), PlaybackStatus::Playing);
}

#[test]
fn adjustments_hand_back_the_new_effects() {
    let mut system: AudioSystem<f32> = AudioSystem::new();
    assert_eq!(
        system.adjust_volume(5),
        EngineCommand::ApplyEffects(EffectSettings { gain_percent: 55, speed: 1_000_000 })
    );
    assert_eq!(
        system.adjust_volume(-100),
        EngineCommand::ApplyEffects(EffectSettings { gain_percent: 0, speed: 1_000_000 })
    );
    assert_eq!(
        system.adjust_pitch(-25),
        EngineCommand::ApplyEffects(EffectSettings { gain_percent: 0, speed: 707_106 })
    );
    assert_eq!(
        system.adjust_bass(5),
        EngineCommand::ApplyEffects(EffectSettings { gain_percent: 0, speed: 707_106 })
    );
    assert_eq!(
        system.adjust_treble(5),
        EngineCommand::ApplyEffects(EffectSettings { gain_percent: 0, speed: 707_106 })
    );
    assert_eq!(system.get_sound_state().bass(), 5);
    assert_eq!(system.get_sound_state().treble(), 5);
    assert_eq!(system.get_sound_state().pitch(), -25);
    assert_eq!(system.get_sound_state().volume(), 0);
}

#[test]
fn seek_forward_adds_the_distance() {
    let system: AudioSystem<f32> = AudioSystem::new();
    assert_eq!(system.seek_forward(5 * SECOND, None), EngineCommand::Seek(15 * SECOND));
    assert_eq!(system.seek_forward(5 * SECOND, Some(SECOND)), EngineCommand::Seek(6 * SECOND));
    assert_eq!(system.seek_forward(0, Some(0)), EngineCommand::Seek(0));
    assert_eq!(system.seek_forward(u64::MAX - 1, Some(1)), EngineCommand::Seek(u64::MAX));
}

#[test]
fn seek_backward_subtracts_the_distance() {
    let system: AudioSystem<f32> = AudioSystem::new();
    assert_eq!(system.seek_backward(25 * SECOND, None), EngineCommand::Seek(15 * SECOND));
    assert_eq!(system.seek_backward(10 * SECOND, None), EngineCommand::Seek(0));
    assert_eq!(system.seek_backward(5 * SECOND, Some(SECOND)), EngineCommand::Seek(4 * SECOND));
    assert_eq!(system.seek_backward(0, Some(u64::MAX)), EngineCommand::Seek(0));
    assert_eq!(system.seek_backward(u64::MAX, Some(u64::MAX)), EngineCommand::Seek(0));
}

#[test]
fn a_seek_that_succeeded_moves_progress() {
    let library = library_with_lengths(&[60]);
    let mut system = playing(&library, 0);
    system.complete_seek(15 * SECOND, true);
    assert_eq!(system.get_playback_state().elapsed(), 15 * SECOND);
    system.adjust_pitch(100);
    system.complete_seek(20 * SECOND, true);
    assert_eq!(system.get_playback_state().elapsed(), 40 * SECOND);
    system.complete_seek(50 * SECOND, true);
    assert_eq!(system.get_playback_state().elapsed(), 60 * SECOND);
}

#[test]
fn a_seek_that_failed_leaves_progress() {
    let library = library_with_lengths(&[60]);
    let mut system = playing(&library, 0);
    system.complete_seek(15 * SECOND, true);
    system.complete_seek(30 * SECOND, false);
    assert_eq!(system.get_playback_state().elapsed(), 15 * SECOND);
    assert_eq!(system.get_playback_state().status(), PlaybackStatus::Playing);
}

#[test]
fn canvas_type_above_nine_is_ignored() {
    let mut system: AudioSystem<f32> = AudioSystem::new();
    system.set_visualizer_canvas_type(4);
    assert_eq!(system.get_visualizer_canvas_type(), 4);
    system.set_visualizer_canvas_type(10);
    assert_eq!(system.get_visualizer_canvas_type(), 4);
    system.set_visualizer_canvas_type(9);
    assert_eq!(system.get_visualizer_canvas_type(), 9);
    system.set_visualizer_canvas_type(usize::MAX);
    assert_eq!(system.get_visualizer_canvas_type(), 9);
    system.set_visualizer_canvas_type(0);
    assert_eq!(system.get_visualizer_canvas_type(), 0);
}

#[test]
fn current_frame_follows_progress_in_milliseconds() {
    let library = library_with_lengths(&[3]);
    let mut system = playing(&library, 0);
    let buffer: Vec<f32> = (0..360).map(|i| (i / 2) as f32).collect();
    system.tick(&library, at(0), Some(SpectrumResult { buffer, frame_size: 2, generation: 1 }));
    assert_eq!(system.get_current_frame(), vec![0.0, 0.0]);
    system.tick(&library, at(SECOND), None);
    assert_eq!(system.get_current_frame(), vec![60.0, 60.0]);
    system.tick(&library, at(16_999_999), None);
    assert_eq!(system.get_current_frame(), vec![0.0, 0.0]);
    system.tick(&library, at(2_983_000_000), None);
    assert_eq!(system.get_current_frame(), vec![178.0, 178.0]);
    system.tick(&library, at(3 * SECOND), None);
    assert_eq!(system.get_current_frame(), Vec::<f32>::new());
}
