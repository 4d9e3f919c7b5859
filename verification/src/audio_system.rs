//! The orchestrator: it owns playback state, sound settings and the
//! spectrum, decides what the audio output device is to do, and takes in
//! what the device reports.
//!
//! The caller owns the device. It carries out each [`EngineCommand`] that a
//! method hands back, and reports the outcome where one is asked for: after
//! `Play` through [`AudioSystem::complete_play`], after `Seek` through
//! [`AudioSystem::complete_seek`].

use std::sync::mpsc::Sender;
use vstd::arithmetic::div_mod::lemma_mod_pos_bound;
use vstd::arithmetic::div_mod::lemma_mod_self_0;
use vstd::arithmetic::div_mod::lemma_small_mod;
use vstd::prelude::*;

use crate::audio_engine::apply_effects;
use crate::audio_engine::effects_of;
use crate::audio_engine::logical_position;
use crate::audio_engine::scale_position;
use crate::audio_engine::EffectSettings;
use crate::audio_engine::EngineCommand;
use crate::audio_engine::EngineStatus;
use crate::audio_engine::PlayRequest;
use crate::music_library::MusicLibrary;
use crate::playback_state::PlaybackModel;
use crate::playback_state::PlaybackState;
use crate::playback_state::PlaybackStatus;
use crate::sound_control::SoundControl;
use crate::sound_control::SoundLevels;
use crate::spectrum::next_generation;
use crate::spectrum::Spectrum;
use crate::spectrum::SpectrumModel;
use crate::spectrum::SpectrumResult;
use crate::speed::calc_playback_speed;
use crate::speed::playback_speed;

verus! {

/// The highest visualizer canvas there is.
pub const CANVAS_MAX: usize = 9;

/// How far a seek moves where no distance is given: ten seconds.
pub const DEFAULT_SEEK: u64 = 10_000_000_000;

/// Nanoseconds in a millisecond.
pub const NANOS_PER_MILLI: u64 = 1_000_000;

/// Why a track could not be played.
#[derive(Clone, Copy, Debug, PartialEq, Eq, Structural)]
pub enum AudioError {
    /// The library has no track of this index.
    InvalidIndex(usize),
}

/// The track that a request to play names: the one given, else the one
/// selected in the library.
pub open spec fn resolved_index(library: MusicLibrary, track_index: Option<usize>) -> usize {
    match track_index {
        Some(index) => index,
        None => library.selected_index.unwrap(),
    }
}

/// The distance of a seek: the one given, else the default.
pub open spec fn seek_distance(delta: Option<u64>) -> nat {
    match delta {
        Some(nanos) => nanos as nat,
        None => DEFAULT_SEEK as nat,
    }
}

/// The mathematical value of an [`AudioSystem`], with its transitions. Each
/// transition gives the next value and what the caller is handed.
pub struct AudioModel<T> {
    pub playback: PlaybackModel,
    pub sound: SoundLevels,
    pub spectrum: SpectrumModel<T>,
    pub canvas: nat,
}

impl<T> AudioModel<T> {
    /// Each part is valid, and the canvas is one there is.
    pub open spec fn wf(self) -> bool {
        &&& self.playback.wf()
        &&& self.sound.wf()
        &&& self.spectrum.wf()
        &&& self.canvas <= CANVAS_MAX
    }

    /// Stopped, default sound, silence, the first canvas.
    pub open spec fn initial() -> AudioModel<T> {
        AudioModel {
            playback: PlaybackModel::initial(),
            sound: SoundLevels::initial(),
            spectrum: SpectrumModel::silent(),
            canvas: 0,
        }
    }

    /// The speed that the pitch asks for, in millionths.
    pub open spec fn speed(self) -> nat {
        playback_speed(self.sound.pitch) as nat
    }

    /// Progress for the listener when the device stands at `position`,
    /// capped at the length of the track.
    pub open spec fn with_position(self, position: nat) -> AudioModel<T> {
        AudioModel {
            playback: self.playback.update_elapsed(logical_position(position, self.speed())),
            ..self
        }
    }

    /// A request to play: refused for an index outside the library; else a
    /// spectrum job begins and the device is to load the track. Playback
    /// itself changes only once the device has begun.
    pub open spec fn play_track(self, library: MusicLibrary, track_index: Option<usize>) -> (
        AudioModel<T>,
        Result<PlayRequest, AudioError>,
    ) {
        let index = resolved_index(library, track_index);
        if index < library.tracks@.len() {
            let spectrum = self.spectrum.begin();
            (
                AudioModel { spectrum, ..self },
                Ok(PlayRequest { track: index, generation: spectrum.generation }),
            )
        } else {
            (self, Err(AudioError::InvalidIndex(index)))
        }
    }

    /// The device has answered a request to play. Where it began, playback
    /// starts from zero and the device is to take the sound settings; where
    /// it failed, nothing changes.
    pub open spec fn complete_play(
        self,
        library: MusicLibrary,
        request: PlayRequest,
        started: bool,
    ) -> (AudioModel<T>, Option<EngineCommand>) {
        if started {
            (
                AudioModel {
                    playback: self.playback.start(
                        request.track,
                        library.duration_at(request.track as int),
                    ),
                    ..self
                },
                Some(EngineCommand::ApplyEffects(effects_of(self.sound))),
            )
        } else {
            (self, None)
        }
    }

    /// The track after `current`, the first one after the last.
    pub open spec fn next_track(library: MusicLibrary, current: usize) -> usize {
        ((current + 1) % (library.tracks@.len() as int)) as usize
    }

    /// The current track has ended: the next one is requested, the first
    /// after the last. Nothing happens without a current track or without
    /// tracks.
    pub open spec fn advance_track(self, library: MusicLibrary) -> (
        AudioModel<T>,
        Option<PlayRequest>,
    ) {
        if self.playback.current_track is Some && library.tracks@.len() > 0 {
            let next = Self::next_track(library, self.playback.current_track.unwrap());
            let (model, request) = self.play_track(library, Some(next));
            (model, Some(request.unwrap()))
        } else {
            (self, None)
        }
    }

    /// One tick. Nothing happens unless a track is playing. Else what the
    /// channel brought is taken in; then either the track has ended and the
    /// next one is requested, or progress follows the device's clock.
    pub open spec fn tick(
        self,
        library: MusicLibrary,
        engine: EngineStatus,
        pending: Option<SpectrumResult<T>>,
    ) -> (AudioModel<T>, Option<PlayRequest>) {
        if !(self.playback.status is Playing) {
            (self, None)
        } else {
            let polled = AudioModel { spectrum: self.spectrum.poll(pending), ..self };
            if engine.sink_empty {
                polled.advance_track(library)
            } else {
                (polled.with_position(engine.position as nat), None)
            }
        }
    }

    /// Play or pause: a playing track pauses; a current track that is not
    /// playing resumes; with no current track the first track is requested;
    /// with no tracks at all nothing happens and nothing is handed back.
    pub open spec fn toggle_playback(self, library: MusicLibrary) -> (
        AudioModel<T>,
        Option<EngineCommand>,
    ) {
        if self.playback.status is Playing {
            (AudioModel { playback: self.playback.pause(), ..self }, Some(EngineCommand::Pause))
        } else if self.playback.current_track is Some {
            (AudioModel { playback: self.playback.resume(), ..self }, Some(EngineCommand::Resume))
        } else if library.tracks@.len() > 0 {
            let (model, request) = self.play_track(library, Some(0));
            (model, Some(EngineCommand::Play(request.unwrap())))
        } else {
            (self, None)
        }
    }

    /// The device has answered a seek to `position`. Where it moved,
    /// progress follows; where it could not, nothing changes.
    pub open spec fn complete_seek(self, position: nat, succeeded: bool) -> AudioModel<T> {
        if succeeded {
            self.with_position(position)
        } else {
            self
        }
    }

    /// The canvas becomes `canvas_type` if there is such a canvas.
    pub open spec fn set_canvas(self, canvas_type: nat) -> AudioModel<T> {
        if canvas_type <= CANVAS_MAX {
            AudioModel { canvas: canvas_type, ..self }
        } else {
            self
        }
    }

    /// The frame of the spectrum that is due at the current progress.
    pub open spec fn current_frame(self) -> Seq<T> {
        self.spectrum.current_frame(self.playback.elapsed / (NANOS_PER_MILLI as nat))
    }
}

/// The visualizer's canvas: a number up to nine.
#[derive(Clone, Copy, Debug)]
pub struct CanvasChoice {
    canvas: usize,
}

impl View for CanvasChoice {
    type V = nat;

    closed spec fn view(&self) -> nat {
        self.canvas as nat
    }
}

impl CanvasChoice {
    #[verifier::type_invariant]
    pub open spec fn inv(self) -> bool {
        self@ <= CANVAS_MAX
    }

    /// The first canvas.
    pub fn new() -> (choice: Self)
        ensures
            choice@ == 0,
    {
        CanvasChoice { canvas: 0 }
    }

    /// Picks `canvas_type` if there is such a canvas.
    pub fn set(&mut self, canvas_type: usize)
        ensures
            final(self)@ == if canvas_type <= CANVAS_MAX {
                canvas_type as nat
            } else {
                old(self)@
            },
    {
        if canvas_type <= CANVAS_MAX {
            self.canvas = canvas_type;
        }
    }

    /// The canvas picked.
    pub fn get(&self) -> (canvas_type: usize)
        ensures
            canvas_type == self@,
            canvas_type <= CANVAS_MAX,
    {
        proof {
            use_type_invariant(self);
        }
        self.canvas
    }
}

/// Playback state, sound settings, spectrum and the visualizer's canvas.
#[verifier::reject_recursive_types(T)]
pub struct AudioSystem<T> {
    playback_state: PlaybackState,
    sound_control: SoundControl,
    spectrum: Spectrum<T>,
    visualizer_canvas: CanvasChoice,
}

impl<T> View for AudioSystem<T> {
    type V = AudioModel<T>;

    closed spec fn view(&self) -> AudioModel<T> {
        AudioModel {
            playback: self.playback_state@,
            sound: self.sound_control@,
            spectrum: self.spectrum@,
            canvas: self.visualizer_canvas@,
        }
    }
}

impl<T: Copy> AudioSystem<T> {
    /// Nothing played yet, default sound, silence, the first canvas.
    pub fn new() -> (system: Self)
        ensures
            system@ == AudioModel::<T>::initial(),
    {
        AudioSystem {
            playback_state: PlaybackState::new(),
            sound_control: SoundControl::new(),
            spectrum: Spectrum::new(),
            visualizer_canvas: CanvasChoice::new(),
        }
    }

    /// Asks for a track to be played: the one given, else the one selected
    /// in the library. An index outside the library is refused and changes
    /// nothing. Else a spectrum job begins, and the caller is to load the
    /// track into the device and report through
    /// [`AudioSystem::complete_play`].
    pub fn play_track(&mut self, library: &MusicLibrary, track_index: Option<usize>) -> (request:
        Result<PlayRequest, AudioError>)
        requires
            track_index is Some || library.selected_index is Some,
        ensures
            (final(self)@, request) == old(self)@.play_track(*library, track_index),
            final(self)@.wf(),
    {
        proof {
            use_type_invariant(&self.visualizer_canvas);
            use_type_invariant(&self.playback_state);
            use_type_invariant(&self.sound_control);
            use_type_invariant(&self.spectrum);
        }
        let index = match track_index {
            Some(index) => index,
            None => library.selected_index.unwrap(),
        };
        if index < library.len() {
            let generation = self.spectrum.begin();
            Ok(PlayRequest { track: index, generation })
        } else {
            Err(AudioError::InvalidIndex(index))
        }
    }

    /// Takes in the device's answer to a request to play. Where the device
    /// began, playback starts from zero with the length of the track, and
    /// the device is to take the sound settings. Where it failed, nothing
    /// changes.
    pub fn complete_play(&mut self, library: &MusicLibrary, request: PlayRequest, started: bool) -> (command:
        Option<EngineCommand>)
        ensures
            (final(self)@, command) == old(self)@.complete_play(*library, request, started),
            final(self)@.wf(),
    {
        proof {
            use_type_invariant(&self.visualizer_canvas);
            use_type_invariant(&self.playback_state);
            use_type_invariant(&self.sound_control);
            use_type_invariant(&self.spectrum);
        }
        if started {
            let duration = library.track_duration(request.track);
            self.playback_state.start(request.track, duration);
            Some(EngineCommand::ApplyEffects(apply_effects(&self.sound_control)))
        } else {
            None
        }
    }

    /// Requests the track after the current one, the first after the last.
    /// Does nothing without a current track or without tracks.
    pub fn advance_track(&mut self, library: &MusicLibrary) -> (request: Option<PlayRequest>)
        ensures
            (final(self)@, request) == old(self)@.advance_track(*library),
            final(self)@.wf(),
    {
        proof {
            use_type_invariant(&self.visualizer_canvas);
            use_type_invariant(&self.playback_state);
            use_type_invariant(&self.sound_control);
            use_type_invariant(&self.spectrum);
        }
        let len = library.len();
        match self.playback_state.current_track() {
            Some(current) => {
                if len > 0 {
                    let next = ((current as u128 + 1) % (len as u128)) as usize;
                    match self.play_track(library, Some(next)) {
                        Ok(request) => Some(request),
                        Err(_) => None,
                    }
                } else {
                    None
                }
            },
            None => None,
        }
    }

    /// One tick, with what the device reports. Does nothing unless a track
    /// is playing. Else looks into the spectrum's channel once; then, where
    /// the device has played its source to the end, requests the next
    /// track, and otherwise lets progress follow the device's clock at the
    /// current speed. Whatever the channel brought, the outcome is that of
    /// [`AudioSystem::tick`] for it.
    pub fn update_playback(&mut self, library: &MusicLibrary, engine: EngineStatus) -> (request:
        Option<PlayRequest>)
        ensures
            exists|pending: Option<SpectrumResult<T>>|
                (final(self)@, request) == #[trigger] old(self)@.tick(*library, engine, pending),
            final(self)@.wf(),
    {
        proof {
            use_type_invariant(&self.visualizer_canvas);
            use_type_invariant(&self.playback_state);
            use_type_invariant(&self.sound_control);
            use_type_invariant(&self.spectrum);
        }
        if self.playback_state.status() != PlaybackStatus::Playing {
            assert((self@, None::<PlayRequest>) == old(self)@.tick(*library, engine, None));
            return None;
        }
        let pending = self.spectrum.receive();
        let ghost arrived = pending;
        let request = self.tick(library, engine, pending);
        assert((self@, request) == old(self)@.tick(*library, engine, arrived));
        request
    }

    /// One tick, with what the device reports and what the spectrum's
    /// channel brought.
    pub fn tick(
        &mut self,
        library: &MusicLibrary,
        engine: EngineStatus,
        pending: Option<SpectrumResult<T>>,
    ) -> (request: Option<PlayRequest>)
        ensures
            (final(self)@, request) == old(self)@.tick(*library, engine, pending),
            final(self)@.wf(),
    {
        proof {
            use_type_invariant(&self.visualizer_canvas);
            use_type_invariant(&self.playback_state);
            use_type_invariant(&self.sound_control);
            use_type_invariant(&self.spectrum);
        }
        if self.playback_state.status() != PlaybackStatus::Playing {
            return None;
        }
        self.spectrum.poll(pending);
        if engine.sink_empty {
            self.advance_track(library)
        } else {
            self.follow(engine.position);
            None
        }
    }

    /// Sets progress to where the listener is when the device stands at
    /// `position`.
    fn follow(&mut self, position: u64)
        ensures
            final(self)@ == old(self)@.with_position(position as nat),
            final(self)@.wf(),
    {
        proof {
            use_type_invariant(&self.visualizer_canvas);
            use_type_invariant(&self.playback_state);
            use_type_invariant(&self.sound_control);
            use_type_invariant(&self.spectrum);
        }
        let speed = calc_playback_speed(self.sound_control.pitch());
        let elapsed = scale_position(position, speed);
        proof {
            self.playback_state.lemma_times_fit();
        }
        self.playback_state.update_elapsed(elapsed);
    }

    /// Play or pause. A playing track pauses. A current track that is not
    /// playing resumes. With no current track the first track of the
    /// library is requested. With no tracks nothing happens and nothing is
    /// handed back.
    pub fn toggle_playback(&mut self, library: &MusicLibrary) -> (command: Option<EngineCommand>)
        ensures
            (final(self)@, command) == old(self)@.toggle_playback(*library),
            final(self)@.wf(),
    {
        proof {
            use_type_invariant(&self.visualizer_canvas);
            use_type_invariant(&self.playback_state);
            use_type_invariant(&self.sound_control);
            use_type_invariant(&self.spectrum);
        }
        if self.playback_state.status() == PlaybackStatus::Playing {
            self.playback_state.pause();
            Some(EngineCommand::Pause)
        } else if self.playback_state.current_track().is_some() {
            self.playback_state.resume();
            Some(EngineCommand::Resume)
        } else if !library.is_empty() {
            match self.play_track(library, Some(0)) {
                Ok(request) => Some(EngineCommand::Play(request)),
                Err(_) => None,
            }
        } else {
            None
        }
    }

    /// Pauses a playing track; the device is to pause in any case.
    pub fn pause(&mut self) -> (command: EngineCommand)
        ensures
            final(self)@ == (AudioModel { playback: old(self)@.playback.pause(), ..old(self)@ }),
            command == EngineCommand::Pause,
            final(self)@.wf(),
    {
        proof {
            use_type_invariant(&self.visualizer_canvas);
            use_type_invariant(&self.playback_state);
            use_type_invariant(&self.sound_control);
            use_type_invariant(&self.spectrum);
        }
        self.playback_state.pause();
        EngineCommand::Pause
    }

    /// Resumes a paused track; the device is to resume in any case.
    pub fn resume(&mut self) -> (command: EngineCommand)
        ensures
            final(self)@ == (AudioModel { playback: old(self)@.playback.resume(), ..old(self)@ }),
            command == EngineCommand::Resume,
            final(self)@.wf(),
    {
        proof {
            use_type_invariant(&self.visualizer_canvas);
            use_type_invariant(&self.playback_state);
            use_type_invariant(&self.sound_control);
            use_type_invariant(&self.spectrum);
        }
        self.playback_state.resume();
        EngineCommand::Resume
    }

    /// Stops playback and forgets the current track; the device is to
    /// rewind and hold.
    pub fn stop(&mut self) -> (command: EngineCommand)
        ensures
            final(self)@ == (AudioModel { playback: old(self)@.playback.stop(), ..old(self)@ }),
            command == EngineCommand::Stop,
            final(self)@.wf(),
    {
        proof {
            use_type_invariant(&self.visualizer_canvas);
            use_type_invariant(&self.playback_state);
            use_type_invariant(&self.sound_control);
            use_type_invariant(&self.spectrum);
        }
        self.playback_state.stop();
        EngineCommand::Stop
    }

    /// Changes the volume by `delta`; the device is to take the new
    /// settings.
    pub fn adjust_volume(&mut self, delta: i32) -> (command: EngineCommand)
        ensures
            final(self)@ == (AudioModel {
                sound: old(self)@.sound.adjust_volume(delta as int),
                ..old(self)@
            }),
            command == EngineCommand::ApplyEffects(effects_of(final(self)@.sound)),
            final(self)@.wf(),
    {
        proof {
            use_type_invariant(&self.visualizer_canvas);
            use_type_invariant(&self.playback_state);
            use_type_invariant(&self.sound_control);
            use_type_invariant(&self.spectrum);
        }
        self.sound_control.adjust_volume(delta);
        EngineCommand::ApplyEffects(apply_effects(&self.sound_control))
    }

    /// Changes the bass by `delta`; the device is to take the new settings.
    pub fn adjust_bass(&mut self, delta: i32) -> (command: EngineCommand)
        ensures
            final(self)@ == (AudioModel {
                sound: old(self)@.sound.adjust_bass(delta as int),
                ..old(self)@
            }),
            command == EngineCommand::ApplyEffects(effects_of(final(self)@.sound)),
            final(self)@.wf(),
    {
        proof {
            use_type_invariant(&self.visualizer_canvas);
            use_type_invariant(&self.playback_state);
            use_type_invariant(&self.sound_control);
            use_type_invariant(&self.spectrum);
        }
        self.sound_control.adjust_bass(delta);
        EngineCommand::ApplyEffects(apply_effects(&self.sound_control))
    }

    /// Changes the treble by `delta`; the device is to take the new
    /// settings.
    pub fn adjust_treble(&mut self, delta: i32) -> (command: EngineCommand)
        ensures
            final(self)@ == (AudioModel {
                sound: old(self)@.sound.adjust_treble(delta as int),
                ..old(self)@
            }),
            command == EngineCommand::ApplyEffects(effects_of(final(self)@.sound)),
            final(self)@.wf(),
    {
        proof {
            use_type_invariant(&self.visualizer_canvas);
            use_type_invariant(&self.playback_state);
            use_type_invariant(&self.sound_control);
            use_type_invariant(&self.spectrum);
        }
        self.sound_control.adjust_treble(delta);
        EngineCommand::ApplyEffects(apply_effects(&self.sound_control))
    }

    /// Changes the pitch by `delta`; the device is to take the new
    /// settings, the speed of the new pitch among them.
    pub fn adjust_pitch(&mut self, delta: i32) -> (command: EngineCommand)
        ensures
            final(self)@ == (AudioModel {
                sound: old(self)@.sound.adjust_pitch(delta as int),
                ..old(self)@
            }),
            command == EngineCommand::ApplyEffects(effects_of(final(self)@.sound)),
            final(self)@.wf(),
    {
        proof {
            use_type_invariant(&self.visualizer_canvas);
            use_type_invariant(&self.playback_state);
            use_type_invariant(&self.sound_control);
            use_type_invariant(&self.spectrum);
        }
        self.sound_control.adjust_pitch(delta);
        EngineCommand::ApplyEffects(apply_effects(&self.sound_control))
    }

    /// Where the device is to move for a seek forward by `delta`, ten
    /// seconds where none is given, from its `position`. The caller reports
    /// the outcome through [`AudioSystem::complete_seek`].
    pub fn seek_forward(&self, position: u64, delta: Option<u64>) -> (command: EngineCommand)
        requires
            position + seek_distance(delta) <= u64::MAX,
        ensures
            command == EngineCommand::Seek((position + seek_distance(delta)) as u64),
    {
        let distance = match delta {
            Some(nanos) => nanos,
            None => DEFAULT_SEEK,
        };
        EngineCommand::Seek(position + distance)
    }

    /// Where the device is to move for a seek backward by `delta`, ten
    /// seconds where none is given, from its `position`: never before the
    /// start. The caller reports the outcome through
    /// [`AudioSystem::complete_seek`].
    pub fn seek_backward(&self, position: u64, delta: Option<u64>) -> (command: EngineCommand)
        ensures
            command == EngineCommand::Seek(
                if position >= seek_distance(delta) {
                    (position - seek_distance(delta)) as u64
                } else {
                    0
                },
            ),
    {
        let distance = match delta {
            Some(nanos) => nanos,
            None => DEFAULT_SEEK,
        };
        EngineCommand::Seek(position.saturating_sub(distance))
    }

    /// Takes in the device's answer to a seek to `position`. Where the
    /// device moved, progress follows at the current speed; where it could
    /// not, nothing changes.
    pub fn complete_seek(&mut self, position: u64, succeeded: bool)
        ensures
            final(self)@ == old(self)@.complete_seek(position as nat, succeeded),
            final(self)@.wf(),
    {
        proof {
            use_type_invariant(&self.visualizer_canvas);
            use_type_invariant(&self.playback_state);
            use_type_invariant(&self.sound_control);
            use_type_invariant(&self.spectrum);
        }
        if succeeded {
            self.follow(position);
        }
    }

    /// Picks the visualizer's canvas; a number above nine is ignored.
    pub fn set_visualizer_canvas_type(&mut self, canvas_type: usize)
        ensures
            final(self)@ == old(self)@.set_canvas(canvas_type as nat),
            final(self)@.wf(),
    {
        proof {
            use_type_invariant(&self.visualizer_canvas);
            use_type_invariant(&self.playback_state);
            use_type_invariant(&self.sound_control);
            use_type_invariant(&self.spectrum);
        }
        self.visualizer_canvas.set(canvas_type);
    }

    /// The visualizer's canvas.
    pub fn get_visualizer_canvas_type(&self) -> (canvas_type: usize)
        ensures
            canvas_type == self@.canvas,
            canvas_type <= CANVAS_MAX,
    {
        self.visualizer_canvas.get()
    }

    /// The frame of the spectrum that is due at the current progress: empty
    /// while the spectrum is awaited and wherever there is no whole frame.
    pub fn get_current_frame(&self) -> (frame: Vec<T>)
        ensures
            frame@ == self@.current_frame(),
    {
        self.spectrum.current_frame(self.playback_state.elapsed() / NANOS_PER_MILLI)
    }

    /// The speed that the pitch asks for, in millionths.
    pub fn get_current_speed(&self) -> (speed: u32)
        ensures
            speed == self@.speed(),
    {
        calc_playback_speed(self.sound_control.pitch())
    }

    /// The settings that the device is to have.
    pub fn get_effect_settings(&self) -> (settings: EffectSettings)
        ensures
            settings == effects_of(self@.sound),
    {
        apply_effects(&self.sound_control)
    }

    /// The sound settings.
    pub fn get_sound_state(&self) -> (sound: &SoundControl)
        ensures
            sound@ == self@.sound,
    {
        &self.sound_control
    }

    /// The playback state.
    pub fn get_playback_state(&self) -> (playback: &PlaybackState)
        ensures
            playback@ == self@.playback,
    {
        &self.playback_state
    }

    /// The spectrum.
    pub fn get_spectrum(&self) -> (spectrum: &Spectrum<T>)
        ensures
            spectrum@ == self@.spectrum,
    {
        &self.spectrum
    }

    /// A sending end of the spectrum's channel, for a background job.
    pub fn spectrum_sender(&self) -> (sender: Sender<SpectrumResult<T>>) {
        self.spectrum.sender()
    }
}

/// Every transition leads from a valid system to a valid system.
pub proof fn lemma_system_stays_valid<T>(
    system: AudioModel<T>,
    library: MusicLibrary,
    track_index: Option<usize>,
    request: PlayRequest,
    outcome: bool,
    engine: EngineStatus,
    pending: Option<SpectrumResult<T>>,
    canvas_type: nat,
)
    requires
        system.wf(),
    ensures
        AudioModel::<T>::initial().wf(),
        system.play_track(library, track_index).0.wf(),
        system.complete_play(library, request, outcome).0.wf(),
        system.advance_track(library).0.wf(),
        system.tick(library, engine, pending).0.wf(),
        system.toggle_playback(library).0.wf(),
        system.complete_seek(engine.position as nat, outcome).wf(),
        system.set_canvas(canvas_type).wf(),
{
}

/// A request to play never touches playback state or sound: playback
/// changes only once the device has begun. A refused request changes
/// nothing at all.
pub proof fn lemma_request_leaves_playback<T>(
    system: AudioModel<T>,
    library: MusicLibrary,
    track_index: Option<usize>,
)
    ensures
        system.play_track(library, track_index).0.playback == system.playback,
        system.play_track(library, track_index).0.sound == system.sound,
        system.play_track(library, track_index).1 is Err ==> system.play_track(
            library,
            track_index,
        ).0 == system,
        system.play_track(library, track_index).1 is Err <==> resolved_index(library, track_index)
            >= library.tracks@.len(),
{
}

/// A request for a track of the library, once the device has begun, plays
/// that track from zero with its length, leaves the sound as it was, and has
/// the device take the sound settings; the spectrum of the track is awaited.
pub proof fn lemma_play_starts_the_track<T>(
    system: AudioModel<T>,
    library: MusicLibrary,
    track_index: Option<usize>,
)
    requires
        resolved_index(library, track_index) < library.tracks@.len(),
    ensures
        ({
            let index = resolved_index(library, track_index);
            let (requested, request) = system.play_track(library, track_index);
            let (started, command) = requested.complete_play(library, request.unwrap(), true);
            &&& request is Ok
            &&& started.playback == (PlaybackModel {
                status: PlaybackStatus::Playing,
                current_track: Some(index),
                elapsed: 0,
                total_time: library.duration_at(index as int),
            })
            &&& started.sound == system.sound
            &&& started.spectrum.processing
            &&& started.spectrum.generation == next_generation(system.spectrum.generation)
            &&& command == Some(EngineCommand::ApplyEffects(effects_of(system.sound)))
        }),
{
}

/// Where the device could not begin, a request leaves playback and sound as
/// they were.
pub proof fn lemma_failed_play_changes_no_playback<T>(
    system: AudioModel<T>,
    library: MusicLibrary,
    track_index: Option<usize>,
)
    requires
        resolved_index(library, track_index) < library.tracks@.len(),
    ensures
        ({
            let (requested, request) = system.play_track(library, track_index);
            let (failed, command) = requested.complete_play(library, request.unwrap(), false);
            &&& failed.playback == system.playback
            &&& failed.sound == system.sound
            &&& command is None
        }),
{
}

/// Toggling with no tracks and nothing playing changes nothing: the system
/// stays stopped without a current track, and no command is given.
pub proof fn lemma_toggle_without_tracks<T>(system: AudioModel<T>, library: MusicLibrary)
    requires
        system.wf(),
        system.playback.status is Stopped,
        library.tracks@.len() == 0,
    ensures
        system.toggle_playback(library).0 == system,
        system.toggle_playback(library).0.playback.status is Stopped,
        system.toggle_playback(library).0.playback.current_track is None,
        system.toggle_playback(library).1 is None,
{
}

/// Toggling a playing track pauses it where it is.
pub proof fn lemma_toggle_pauses<T>(system: AudioModel<T>, library: MusicLibrary)
    requires
        system.playback.status is Playing,
    ensures
        system.toggle_playback(library).1 == Some(EngineCommand::Pause),
        system.toggle_playback(library).0.playback.status is Paused,
        system.toggle_playback(library).0.playback.elapsed == system.playback.elapsed,
        system.toggle_playback(library).0.playback.current_track == system.playback.current_track,
{
}

/// After the last track the first one is requested.
pub proof fn lemma_advance_wraps_around<T>(
    system: AudioModel<T>,
    library: MusicLibrary,
    current: usize,
)
    requires
        current + 1 == library.tracks@.len(),
        system.playback.current_track == Some(current),
    ensures
        system.advance_track(library).1 == Some(
            PlayRequest { track: 0, generation: next_generation(system.spectrum.generation) },
        ),
{
    lemma_mod_self_0(current + 1);
}

/// Before the last track, the track after the current one is requested.
pub proof fn lemma_advance_steps<T>(system: AudioModel<T>, library: MusicLibrary, current: usize)
    requires
        current + 1 < library.tracks@.len(),
        system.playback.current_track == Some(current),
    ensures
        system.advance_track(library).1 == Some(
            PlayRequest {
                track: (current + 1) as usize,
                generation: next_generation(system.spectrum.generation),
            },
        ),
{
    lemma_small_mod((current + 1) as nat, library.tracks@.len());
}

/// Whatever the current track, the one requested after it lies in the
/// library.
pub proof fn lemma_advance_stays_inside<T>(system: AudioModel<T>, library: MusicLibrary)
    requires
        library.tracks@.len() > 0,
        system.playback.current_track is Some,
    ensures
        system.advance_track(library).1 matches Some(request) && request.track
            < library.tracks@.len(),
{
    let current = system.playback.current_track.unwrap();
    lemma_mod_pos_bound(current + 1, library.tracks@.len() as int);
}

/// A tick changes nothing unless a track is playing.
pub proof fn lemma_tick_needs_playing<T>(
    system: AudioModel<T>,
    library: MusicLibrary,
    engine: EngineStatus,
    pending: Option<SpectrumResult<T>>,
)
    requires
        !(system.playback.status is Playing),
    ensures
        system.tick(library, engine, pending) == (system, None::<PlayRequest>),
{
}

/// There is no frame while the spectrum of the current track is awaited.
pub proof fn lemma_no_frame_while_processing<T>(system: AudioModel<T>)
    requires
        system.spectrum.processing,
    ensures
        system.current_frame() == Seq::<T>::empty(),
{
}

} // verus!
