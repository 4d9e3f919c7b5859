//! The playback core of a terminal music player: playback state, sound
//! settings, the spectrum frame buffer and the orchestrator that ties them
//! to an audio output device driven by the caller.

pub mod audio_engine;
pub mod audio_system;
pub mod music_library;
pub mod playback_state;
pub mod sound_control;
pub mod spectrum;
pub mod speed;
