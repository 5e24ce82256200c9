use stems::track::Track;
use stems::playback::PlaybackLoadError;
use stems::playback::PlaybackTrack;
use stems::units::UNIT;

#[test]
fn test_track_creation() {
    let track = Track::new(0, 0);
    assert_eq!(track.id, 0);
    assert_eq!(track.name, "Track 1");
    assert!(!track.is_armed());
    assert_eq!(track.get_level(), UNIT);
    assert_eq!(track.get_pan(), 0);
}

#[test]
fn track_test_level_clamping() {
    let mut track = Track::new(0, 0);
    track.set_level(UNIT + UNIT / 2);
    assert_eq!(track.get_level(), UNIT);
    track.set_level(-UNIT / 2);
    assert_eq!(track.get_level(), 0);
}

#[test]
fn track_test_pan_clamping() {
    let mut track = Track::new(0, 0);
    track.set_pan(2 * UNIT);
    assert_eq!(track.get_pan(), UNIT);
    track.set_pan(-2 * UNIT);
    assert_eq!(track.get_pan(), -UNIT);
}

#[test]
fn track_test_pan_gains() {
    let mut track = Track::new(0, 0);

    // Centre pan: both sides near sqrt(2)/2 of full scale.
    track.set_pan(0);
    let (left, right) = track.calculate_pan_gains();
    assert!((left - 707_107).abs() < 10_000);
    assert!((right - 707_107).abs() < 10_000);

    // Full left.
    track.set_pan(-UNIT);
    let (left, right) = track.calculate_pan_gains();
    assert!((left - UNIT).abs() < 10_000);
    assert!(right.abs() < 10_000);

    // Full right.
    track.set_pan(UNIT);
    let (left, right) = track.calculate_pan_gains();
    assert!(left.abs() < 10_000);
    assert!((right - UNIT).abs() < 10_000);
}

#[test]
fn test_set_level_then_get_returns_clamped() {
    // A level of 1.5 reads back as 1.0; a pan of -2.0 reads back as -1.0.
    let mut track = Track::new(3, 3);
    track.set_level(UNIT + UNIT / 2);
    assert_eq!(track.get_level(), UNIT);
    track.set_pan(-2 * UNIT);
    assert_eq!(track.get_pan(), -UNIT);
    // Writing the same value twice changes nothing further.
    track.set_level(UNIT + UNIT / 2);
    assert_eq!(track.get_level(), UNIT);
}

#[test]
fn test_arm_disarm_roundtrip() {
    let mut track = Track::new(0, 0);
    assert!(!track.is_armed());
    track.set_armed(true);
    assert!(track.is_armed());
    track.set_armed(false);
    assert!(!track.is_armed());
}

#[test]
fn test_peak_decay_never_below_zero() {
    let mut track = Track::new(0, 0);
    track.update_peak_level(5_000);
    track.decay_peak_level(10_000);
    assert_eq!(track.get_peak_level(), 0);
    track.decay_peak_level(10_000);
    assert_eq!(track.get_peak_level(), 0);
}

#[test]
fn test_playback_track_num_frames() {
    let track = PlaybackTrack {
        samples: vec![0; 960], // 480 frames for stereo
        channels: 2,
        sample_rate: 48000,
        position: 0,
        monitoring: true,
        solo: false,
        level: UNIT,
        pan: 0,
        peak_level: 0,
    };

    assert_eq!(track.num_frames(), 480);
}

#[test]
fn playback_test_level_clamping() {
    let mut track = PlaybackTrack {
        samples: vec![],
        channels: 1,
        sample_rate: 48000,
        position: 0,
        monitoring: true,
        solo: false,
        level: UNIT,
        pan: 0,
        peak_level: 0,
    };

    track.set_level(UNIT + UNIT / 2);
    assert_eq!(track.get_level(), UNIT);
    track.set_level(-UNIT / 2);
    assert_eq!(track.get_level(), 0);
}

#[test]
fn playback_test_pan_clamping() {
    let mut track = PlaybackTrack {
        samples: vec![],
        channels: 1,
        sample_rate: 48000,
        position: 0,
        monitoring: true,
        solo: false,
        level: UNIT,
        pan: 0,
        peak_level: 0,
    };

    track.set_pan(2 * UNIT);
    assert_eq!(track.get_pan(), UNIT);
    track.set_pan(-2 * UNIT);
    assert_eq!(track.get_pan(), -UNIT);
}

#[test]
fn playback_test_pan_gains() {
    let mut track = PlaybackTrack {
        samples: vec![],
        channels: 1,
        sample_rate: 48000,
        position: 0,
        monitoring: true,
        solo: false,
        level: UNIT,
        pan: 0,
        peak_level: 0,
    };

    track.set_pan(0);
    let (left, right) = track.calculate_pan_gains();
    assert!((left - 707_107).abs() < 10_000);
    assert!((right - 707_107).abs() < 10_000);

    track.set_pan(-UNIT);
    let (left, right) = track.calculate_pan_gains();
    assert!((left - UNIT).abs() < 10_000);
    assert!(right.abs() < 10_000);

    track.set_pan(UNIT);
    let (left, right) = track.calculate_pan_gains();
    assert!(left.abs() < 10_000);
    assert!((right - UNIT).abs() < 10_000);
}

#[test]
fn test_playback_from_samples_validates() {
    // Sample rate must match the engine rate.
    let r = PlaybackTrack::from_samples(vec![0; 4], 1, 44100, 48000);
    assert_eq!(r.err(), Some(PlaybackLoadError::SampleRateMismatch));
    // Only mono and stereo are played.
    let r = PlaybackTrack::from_samples(vec![0; 6], 3, 48000, 48000);
    assert_eq!(r.err(), Some(PlaybackLoadError::UnsupportedChannels));
    // A valid source monitors by default at unity level.
    let t = PlaybackTrack::from_samples(vec![1, 2, 3, 4], 2, 48000, 48000).unwrap();
    assert_eq!(t.num_frames(), 2);
    assert!(t.is_monitoring());
    assert_eq!(t.get_level(), UNIT);
}
