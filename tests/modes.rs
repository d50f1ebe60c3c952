use graindr::modes::{LinkwitzRileyFilterType, PlaybackDirection, ToneType};

#[test]
fn playback_direction_codes() {
    assert_eq!(PlaybackDirection::from(0), PlaybackDirection::Forward);
    assert_eq!(PlaybackDirection::from(1), PlaybackDirection::Reverse);
    assert_eq!(PlaybackDirection::from(2), PlaybackDirection::Alternate);
}

#[test]
fn playback_direction_per_voice() {
    assert!(!PlaybackDirection::Forward.reads_reverse(0));
    assert!(!PlaybackDirection::Forward.reads_reverse(1));
    assert!(PlaybackDirection::Reverse.reads_reverse(0));
    assert!(PlaybackDirection::Reverse.reads_reverse(1));
    assert!(!PlaybackDirection::Alternate.reads_reverse(0));
    assert!(PlaybackDirection::Alternate.reads_reverse(1));
}

#[test]
fn tone_type_codes() {
    assert_eq!(ToneType::from(0), ToneType::Digital);
    assert_eq!(ToneType::from(1), ToneType::Tape);
    assert!(ToneType::Tape.tape_sim());
    assert!(!ToneType::Digital.tape_sim());
}

#[test]
fn linkwitz_riley_type_codes() {
    assert_eq!(LinkwitzRileyFilterType::from(0), LinkwitzRileyFilterType::Lowpass);
    assert_eq!(LinkwitzRileyFilterType::from(1), LinkwitzRileyFilterType::Highpass);
    assert_eq!(LinkwitzRileyFilterType::from(2), LinkwitzRileyFilterType::Allpass);
}
