use focus_watch::audio::SoundType;
use focus_watch::audio::TONE_AMPLITUDE_PERCENT;
use focus_watch::audio::tone_duration_ms;
use focus_watch::audio::tone_frequency_hz;

#[test]
fn start_tone_is_a_short_high_beep() {
    assert_eq!(tone_frequency_hz(SoundType::RecordingStart), 880);
    assert_eq!(tone_duration_ms(SoundType::RecordingStart), 100);
}

#[test]
fn stop_tone_is_a_longer_lower_beep() {
    assert_eq!(tone_frequency_hz(SoundType::RecordingStop), 440);
    assert_eq!(tone_duration_ms(SoundType::RecordingStop), 150);
}

#[test]
fn tones_play_at_reduced_volume() {
    assert_eq!(TONE_AMPLITUDE_PERCENT, 30);
}
