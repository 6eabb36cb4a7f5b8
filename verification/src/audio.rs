//! The two-value selector for the notification tones and the fixed
//! parameters of each tone. Synthesis and playback are an external
//! collaborator; only the selector and the tone parameters are modeled here.

use vstd::prelude::*;

verus! {

/// Kinds of notification sounds.
#[derive(Debug, Clone, Copy, PartialEq, Eq, Structural)]
pub enum SoundType {
    RecordingStart,
    RecordingStop,
}

/// Frequency of the tone for a sound kind, in hertz.
pub open spec fn spec_tone_frequency_hz(sound: SoundType) -> u32 {
    match sound {
        SoundType::RecordingStart => 880,
        SoundType::RecordingStop => 440,
    }
}

/// Duration of the tone for a sound kind, in milliseconds.
pub open spec fn spec_tone_duration_ms(sound: SoundType) -> u64 {
    match sound {
        SoundType::RecordingStart => 100,
        SoundType::RecordingStop => 150,
    }
}

/// Amplitude of every tone, as a percentage of full volume.
pub const TONE_AMPLITUDE_PERCENT: u8 = 30;

/// The start tone is a short high beep; the stop tone a slightly longer
/// lower one.
pub fn tone_frequency_hz(sound: SoundType) -> (r: u32)
    ensures
        r == spec_tone_frequency_hz(sound),
{
    match sound {
        SoundType::RecordingStart => 880,
        SoundType::RecordingStop => 440,
    }
}

/// How long the tone for a sound kind plays.
pub fn tone_duration_ms(sound: SoundType) -> (r: u64)
    ensures
        r == spec_tone_duration_ms(sound),
{
    match sound {
        SoundType::RecordingStart => 100,
        SoundType::RecordingStop => 150,
    }
}

} // verus!
