//! Playback status and progress of the current track.
//!
//! All times are whole nanoseconds.

use vstd::prelude::*;

verus! {

/// Whether a track is stopped, playing or paused.
#[derive(Clone, Copy, Debug, PartialEq, Eq, Structural)]
pub enum PlaybackStatus {
    Stopped,
    Playing,
    Paused,
}

impl Default for PlaybackStatus {
    fn default() -> (status: Self)
        ensures
            status == PlaybackStatus::Stopped,
    {
        PlaybackStatus::Stopped
    }
}

/// The mathematical value of a [`PlaybackState`], with its transitions.
pub struct PlaybackModel {
    pub status: PlaybackStatus,
    pub current_track: Option<usize>,
    pub elapsed: nat,
    pub total_time: nat,
}

impl PlaybackModel {
    /// Progress never passes the end of the track, and exactly the stopped
    /// state has no current track.
    pub open spec fn wf(self) -> bool {
        &&& self.elapsed <= self.total_time
        &&& (self.current_track is None <==> self.status is Stopped)
    }

    /// Nothing was played yet.
    pub open spec fn initial() -> PlaybackModel {
        PlaybackModel {
            status: PlaybackStatus::Stopped,
            current_track: None,
            elapsed: 0,
            total_time: 0,
        }
    }

    pub open spec fn start(self, track_index: usize, total_duration: nat) -> PlaybackModel {
        PlaybackModel {
            status: PlaybackStatus::Playing,
            current_track: Some(track_index),
            elapsed: 0,
            total_time: total_duration,
        }
    }

    pub open spec fn pause(self) -> PlaybackModel {
        if self.status is Playing {
            PlaybackModel { status: PlaybackStatus::Paused, ..self }
        } else {
            self
        }
    }

    pub open spec fn resume(self) -> PlaybackModel {
        if self.status is Paused {
            PlaybackModel { status: PlaybackStatus::Playing, ..self }
        } else {
            self
        }
    }

    pub open spec fn stop(self) -> PlaybackModel {
        PlaybackModel { status: PlaybackStatus::Stopped, current_track: None, elapsed: 0, ..self }
    }

    pub open spec fn update_elapsed(self, time: nat) -> PlaybackModel {
        PlaybackModel {
            elapsed: if time <= self.total_time {
                time
            } else {
                self.total_time
            },
            ..self
        }
    }
}

/// Status, current track and progress of playback.
#[derive(Clone, Copy, Debug)]
pub struct PlaybackState {
    status: PlaybackStatus,
    current_track: Option<usize>,
    elapsed: u64,
    total_time: u64,
}

impl View for PlaybackState {
    type V = PlaybackModel;

    closed spec fn view(&self) -> PlaybackModel {
        PlaybackModel {
            status: self.status,
            current_track: self.current_track,
            elapsed: self.elapsed as nat,
            total_time: self.total_time as nat,
        }
    }
}

impl PlaybackState {
    #[verifier::type_invariant]
    pub open spec fn inv(self) -> bool {
        self@.wf()
    }

    /// The times of a state fit in 64 bits.
    pub proof fn lemma_times_fit(&self)
        ensures
            self@.elapsed <= u64::MAX,
            self@.total_time <= u64::MAX,
    {
    }

    /// The stopped state with no track.
    pub fn new() -> (state: Self)
        ensures
            state@ == PlaybackModel::initial(),
    {
        PlaybackState {
            status: PlaybackStatus::Stopped,
            current_track: None,
            elapsed: 0,
            total_time: 0,
        }
    }

    /// Begins `track_index` from its start, whatever was going on before.
    pub fn start(&mut self, track_index: usize, total_duration: u64)
        ensures
            final(self)@ == old(self)@.start(track_index, total_duration as nat),
    {
        *self = PlaybackState {
            status: PlaybackStatus::Playing,
            current_track: Some(track_index),
            elapsed: 0,
            total_time: total_duration,
        };
    }

    /// Playing becomes paused; any other state stays as it is.
    pub fn pause(&mut self)
        ensures
            final(self)@ == old(self)@.pause(),
    {
        proof {
            use_type_invariant(&*self);
        }
        if self.status == PlaybackStatus::Playing {
            self.status = PlaybackStatus::Paused;
        }
    }

    /// Paused becomes playing; any other state stays as it is.
    pub fn resume(&mut self)
        ensures
            final(self)@ == old(self)@.resume(),
    {
        proof {
            use_type_invariant(&*self);
        }
        if self.status == PlaybackStatus::Paused {
            self.status = PlaybackStatus::Playing;
        }
    }

    /// Stops, forgets the current track and rewinds progress to zero.
    pub fn stop(&mut self)
        ensures
            final(self)@ == old(self)@.stop(),
    {
        *self = PlaybackState {
            status: PlaybackStatus::Stopped,
            current_track: None,
            elapsed: 0,
            total_time: self.total_time,
        };
    }

    /// Sets progress to `time`, capped at the length of the track.
    pub fn update_elapsed(&mut self, time: u64)
        ensures
            final(self)@ == old(self)@.update_elapsed(time as nat),
    {
        proof {
            use_type_invariant(&*self);
        }
        if time <= self.total_time {
            self.elapsed = time;
        } else {
            self.elapsed = self.total_time;
        }
    }

    pub fn status(&self) -> (status: PlaybackStatus)
        ensures
            status == self@.status,
    {
        self.status
    }

    pub fn current_track(&self) -> (track: Option<usize>)
        ensures
            track == self@.current_track,
            track is None <==> self@.status is Stopped,
    {
        proof {
            use_type_invariant(self);
        }
        self.current_track
    }

    /// Progress within the current track.
    pub fn elapsed(&self) -> (elapsed: u64)
        ensures
            elapsed == self@.elapsed,
            elapsed <= self@.total_time,
    {
        proof {
            use_type_invariant(self);
        }
        self.elapsed
    }

    /// Length of the current track.
    pub fn total_time(&self) -> (total: u64)
        ensures
            total == self@.total_time,
    {
        self.total_time
    }
}

impl Default for PlaybackState {
    fn default() -> (state: Self)
        ensures
            state@ == PlaybackModel::initial(),
    {
        PlaybackState::new()
    }
}

/// Every transition leads from a valid state to a valid state.
pub proof fn lemma_playback_stays_valid(
    state: PlaybackModel,
    track_index: usize,
    total_duration: nat,
    time: nat,
)
    requires
        state.wf(),
    ensures
        PlaybackModel::initial().wf(),
        state.start(track_index, total_duration).wf(),
        state.pause().wf(),
        state.resume().wf(),
        state.stop().wf(),
        state.update_elapsed(time).wf(),
{
}

/// Starting a track plays it from zero, whatever the state before.
pub proof fn lemma_start_resets(state: PlaybackModel, track_index: usize, total_duration: nat)
    ensures
        state.start(track_index, total_duration).status is Playing,
        state.start(track_index, total_duration).current_track == Some(track_index),
        state.start(track_index, total_duration).elapsed == 0,
        state.start(track_index, total_duration).total_time == total_duration,
{
}

/// Progress after an update is the smaller of the time given and the length
/// of the track; nothing else changes, and a second update with the same
/// time changes nothing.
pub proof fn lemma_update_elapsed_is_min(state: PlaybackModel, time: nat)
    ensures
        state.update_elapsed(time).elapsed == vstd::math::min(
            time as int,
            state.total_time as int,
        ),
        state.update_elapsed(time).elapsed <= state.total_time,
        state.update_elapsed(time).status == state.status,
        state.update_elapsed(time).current_track == state.current_track,
        state.update_elapsed(time).total_time == state.total_time,
        state.update_elapsed(time).update_elapsed(time) == state.update_elapsed(time),
{
}

/// Pausing and resuming a playing track leaves it as it was.
pub proof fn lemma_pause_then_resume(state: PlaybackModel)
    requires
        state.status is Playing,
    ensures
        state.pause().status is Paused,
        state.pause().resume() == state,
{
}

} // verus!
