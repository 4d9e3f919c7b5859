//! User-adjustable sound parameters, kept inside their ranges on every write.
//!
//! Volume, bass and treble are whole percents in `0..=100`; pitch is a whole
//! number in `-100..=100`.

use vstd::prelude::*;

verus! {

pub const VOLUME_MIN: i32 = 0;

pub const VOLUME_MAX: i32 = 100;

pub const TONE_MIN: i32 = 0;

pub const TONE_MAX: i32 = 100;

pub const PITCH_MIN: i32 = -100;

pub const PITCH_MAX: i32 = 100;

pub const DEFAULT_VOLUME: i32 = 50;

/// `value` if it lies in `lo..=hi`, else the nearer bound.
pub open spec fn clamp(value: int, lo: int, hi: int) -> int {
    if value < lo {
        lo
    } else if value > hi {
        hi
    } else {
        value
    }
}

/// The mathematical value of a [`SoundControl`], with its adjustments.
pub struct SoundLevels {
    pub volume: int,
    pub bass: int,
    pub treble: int,
    pub pitch: int,
}

impl SoundLevels {
    /// Every parameter lies in its range.
    pub open spec fn wf(self) -> bool {
        &&& VOLUME_MIN <= self.volume <= VOLUME_MAX
        &&& TONE_MIN <= self.bass <= TONE_MAX
        &&& TONE_MIN <= self.treble <= TONE_MAX
        &&& PITCH_MIN <= self.pitch <= PITCH_MAX
    }

    /// Half volume, flat tone, no pitch shift.
    pub open spec fn initial() -> SoundLevels {
        SoundLevels { volume: DEFAULT_VOLUME as int, bass: 0, treble: 0, pitch: 0 }
    }

    pub open spec fn adjust_volume(self, delta: int) -> SoundLevels {
        SoundLevels {
            volume: clamp(self.volume + delta, VOLUME_MIN as int, VOLUME_MAX as int),
            ..self
        }
    }

    pub open spec fn adjust_bass(self, delta: int) -> SoundLevels {
        SoundLevels { bass: clamp(self.bass + delta, TONE_MIN as int, TONE_MAX as int), ..self }
    }

    pub open spec fn adjust_treble(self, delta: int) -> SoundLevels {
        SoundLevels {
            treble: clamp(self.treble + delta, TONE_MIN as int, TONE_MAX as int),
            ..self
        }
    }

    pub open spec fn adjust_pitch(self, delta: int) -> SoundLevels {
        SoundLevels {
            pitch: clamp(self.pitch + delta, PITCH_MIN as int, PITCH_MAX as int),
            ..self
        }
    }
}

/// Volume, bass, treble and pitch, each clamped into its range.
#[derive(Clone, Copy, Debug)]
pub struct SoundControl {
    volume: i32,
    bass: i32,
    treble: i32,
    pitch: i32,
}

impl View for SoundControl {
    type V = SoundLevels;

    closed spec fn view(&self) -> SoundLevels {
        SoundLevels {
            volume: self.volume as int,
            bass: self.bass as int,
            treble: self.treble as int,
            pitch: self.pitch as int,
        }
    }
}

/// `current + delta`, clamped into `lo..=hi`.
fn adjusted(current: i32, delta: i32, lo: i32, hi: i32) -> (value: i32)
    requires
        lo <= hi,
    ensures
        value == clamp(current + delta, lo as int, hi as int),
{
    let sum: i64 = current as i64 + delta as i64;
    if sum < lo as i64 {
        lo
    } else if sum > hi as i64 {
        hi
    } else {
        sum as i32
    }
}

impl SoundControl {
    #[verifier::type_invariant]
    pub open spec fn inv(self) -> bool {
        self@.wf()
    }

    /// The default settings.
    pub fn new() -> (control: Self)
        ensures
            control@ == SoundLevels::initial(),
    {
        SoundControl { volume: DEFAULT_VOLUME, bass: 0, treble: 0, pitch: 0 }
    }

    /// Adds `delta` to the volume and clamps it into `0..=100`.
    pub fn adjust_volume(&mut self, delta: i32)
        ensures
            final(self)@ == old(self)@.adjust_volume(delta as int),
    {
        proof {
            use_type_invariant(&*self);
        }
        self.volume = adjusted(self.volume, delta, VOLUME_MIN, VOLUME_MAX);
    }

    /// Adds `delta` to the bass and clamps it into `0..=100`.
    pub fn adjust_bass(&mut self, delta: i32)
        ensures
            final(self)@ == old(self)@.adjust_bass(delta as int),
    {
        proof {
            use_type_invariant(&*self);
        }
        self.bass = adjusted(self.bass, delta, TONE_MIN, TONE_MAX);
    }

    /// Adds `delta` to the treble and clamps it into `0..=100`.
    pub fn adjust_treble(&mut self, delta: i32)
        ensures
            final(self)@ == old(self)@.adjust_treble(delta as int),
    {
        proof {
            use_type_invariant(&*self);
        }
        self.treble = adjusted(self.treble, delta, TONE_MIN, TONE_MAX);
    }

    /// Adds `delta` to the pitch and clamps it into `-100..=100`.
    pub fn adjust_pitch(&mut self, delta: i32)
        ensures
            final(self)@ == old(self)@.adjust_pitch(delta as int),
    {
        proof {
            use_type_invariant(&*self);
        }
        self.pitch = adjusted(self.pitch, delta, PITCH_MIN, PITCH_MAX);
    }

    pub fn volume(&self) -> (volume: i32)
        ensures
            volume == self@.volume,
            VOLUME_MIN <= volume <= VOLUME_MAX,
    {
        proof {
            use_type_invariant(self);
        }
        self.volume
    }

    pub fn bass(&self) -> (bass: i32)
        ensures
            bass == self@.bass,
            TONE_MIN <= bass <= TONE_MAX,
    {
        proof {
            use_type_invariant(self);
        }
        self.bass
    }

    pub fn treble(&self) -> (treble: i32)
        ensures
            treble == self@.treble,
            TONE_MIN <= treble <= TONE_MAX,
    {
        proof {
            use_type_invariant(self);
        }
        self.treble
    }

    pub fn pitch(&self) -> (pitch: i32)
        ensures
            pitch == self@.pitch,
            PITCH_MIN <= pitch <= PITCH_MAX,
    {
        proof {
            use_type_invariant(self);
        }
        self.pitch
    }
}

impl Default for SoundControl {
    fn default() -> (control: Self)
        ensures
            control@ == SoundLevels::initial(),
    {
        SoundControl::new()
    }
}

/// A clamped value lies between the bounds, and a value between the bounds
/// is left alone.
pub proof fn lemma_clamp_in_range(value: int, lo: int, hi: int)
    requires
        lo <= hi,
    ensures
        lo <= clamp(value, lo, hi) <= hi,
        lo <= value <= hi ==> clamp(value, lo, hi) == value,
{
}

/// Every adjustment leads from valid levels to valid levels, and changes
/// only the parameter it names.
pub proof fn lemma_sound_stays_valid(levels: SoundLevels, delta: int)
    requires
        levels.wf(),
    ensures
        SoundLevels::initial().wf(),
        levels.adjust_volume(delta).wf(),
        levels.adjust_bass(delta).wf(),
        levels.adjust_treble(delta).wf(),
        levels.adjust_pitch(delta).wf(),
        levels.adjust_volume(delta) == (SoundLevels {
            volume: levels.adjust_volume(delta).volume,
            ..levels
        }),
        levels.adjust_pitch(delta) == (SoundLevels {
            pitch: levels.adjust_pitch(delta).pitch,
            ..levels
        }),
{
}

} // verus!
