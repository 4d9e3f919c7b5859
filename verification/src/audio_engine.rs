//! What the orchestrator and the audio output device say to each other.
//!
//! The device itself lives with the caller. The orchestrator answers each
//! request with an [`EngineCommand`] for the device, and is told what the
//! device reports as an [`EngineStatus`]. Positions are whole nanoseconds,
//! speeds whole millionths.

use vstd::prelude::*;

use crate::sound_control::SoundControl;
use crate::sound_control::SoundLevels;
use crate::speed::calc_playback_speed;
use crate::speed::playback_speed;
use crate::speed::SPEED_UNIT;

verus! {

/// A track to load and play, and the generation under which its spectrum
/// job runs.
#[derive(Clone, Copy, Debug, PartialEq, Eq, Structural)]
pub struct PlayRequest {
    pub track: usize,
    pub generation: u64,
}

/// The output gain in percent and the playback speed in millionths.
#[derive(Clone, Copy, Debug, PartialEq, Eq, Structural)]
pub struct EffectSettings {
    pub gain_percent: u32,
    pub speed: u32,
}

/// What the device reports: whether it has played its source to the end,
/// and where its own clock stands in the source.
#[derive(Clone, Copy, Debug, PartialEq, Eq, Structural)]
pub struct EngineStatus {
    pub sink_empty: bool,
    pub position: u64,
}

/// What the device is to do next.
#[derive(Clone, Copy, Debug, PartialEq, Eq, Structural)]
pub enum EngineCommand {
    /// Drop the current source, load the track and play it.
    Play(PlayRequest),
    /// Hold the current source where it is.
    Pause,
    /// Go on with the current source.
    Resume,
    /// Rewind the current source to its start and hold it there.
    Stop,
    /// Move to this position in the current source.
    Seek(u64),
    /// Set gain and speed.
    ApplyEffects(EffectSettings),
}

/// The settings that a sound state asks of the device.
pub open spec fn effects_of(sound: SoundLevels) -> EffectSettings {
    EffectSettings { gain_percent: sound.volume as u32, speed: playback_speed(sound.pitch) as u32 }
}

/// Where playback stands for the listener when the device's clock stands at
/// `position` and the source plays at `speed`.
pub open spec fn logical_position(position: nat, speed: nat) -> nat {
    position * speed / (SPEED_UNIT as nat)
}

/// The gain and the speed that `sound_control` asks for: the volume as it
/// is, and the speed of its pitch.
pub fn apply_effects(sound_control: &SoundControl) -> (settings: EffectSettings)
    ensures
        settings == effects_of(sound_control@),
        settings.gain_percent <= 100,
{
    EffectSettings {
        gain_percent: sound_control.volume() as u32,
        speed: calc_playback_speed(sound_control.pitch()),
    }
}

/// The listener's position for a device position, capped at the largest
/// time there is.
pub fn scale_position(position: u64, speed: u32) -> (scaled: u64)
    ensures
        scaled == if logical_position(position as nat, speed as nat) <= u64::MAX {
            logical_position(position as nat, speed as nat)
        } else {
            u64::MAX as nat
        },
{
    assert(position * speed <= u128::MAX) by (nonlinear_arith)
        requires
            position <= u64::MAX,
            speed <= u32::MAX,
    ;
    let scaled: u128 = (position as u128) * (speed as u128) / (SPEED_UNIT as u128);
    if scaled > u64::MAX as u128 {
        u64::MAX
    } else {
        scaled as u64
    }
}

} // verus!
