use stems::callback::{process_audio_input, fill_monitor_output};
use stems::session::EngineState;
use stems::track::Track;
use stems::playback::PlaybackTrack;
use stems::units::UNIT;
use stems::writer::{route_samples, writer_drain_pass};

fn stereo_rings() -> (
    (rtrb::Producer<(usize, i64)>, rtrb::Consumer<(usize, i64)>),
    (rtrb::Producer<i64>, rtrb::Consumer<i64>),
    (rtrb::Producer<i64>, rtrb::Consumer<i64>),
    (rtrb::Producer<i64>, rtrb::Consumer<i64>),
) {
    (
        rtrb::RingBuffer::new(1024),
        rtrb::RingBuffer::new(1024),
        rtrb::RingBuffer::new(1024),
        rtrb::RingBuffer::new(1024),
    )
}

#[test]
fn test_audio_processing_not_recording() {
    let mut tracks = vec![Track::new(0, 0)];
    tracks[0].set_armed(true);
    let mut playback: Vec<PlaybackTrack> = Vec::new();

    let ((mut producer, _consumer), (mut monitor_p, _mc), (mut mix_p, _xc), (mut pb_p, _pc)) =
        stereo_rings();

    let input = vec![UNIT / 2; 128]; // 128 samples, mono

    process_audio_input(
        &input,
        &mut tracks,
        &mut playback,
        false,
        false,
        false,
        1, // mono
        &mut producer,
        &mut monitor_p,
        &mut mix_p,
        &mut pb_p,
    );

    // Should not have written anything to recording buffer
    assert_eq!(producer.slots(), 1024);
}

#[test]
fn test_audio_processing_armed_track() {
    let mut tracks = vec![Track::new(0, 0)];
    tracks[0].set_armed(true);
    tracks[0].set_level(UNIT / 2);
    let mut playback: Vec<PlaybackTrack> = Vec::new();

    let ((mut producer, mut consumer), (mut monitor_p, _mc), (mut mix_p, _xc), (mut pb_p, _pc)) =
        stereo_rings();

    let input = vec![UNIT; 16]; // 16 samples at full scale, mono

    process_audio_input(
        &input,
        &mut tracks,
        &mut playback,
        true,
        false,
        false,
        1,
        &mut producer,
        &mut monitor_p,
        &mut mix_p,
        &mut pb_p,
    );

    // Should have written 16 samples
    assert_eq!(consumer.slots(), 16);

    // Check first sample: full scale through a half-unit level.
    let (track_id, sample) = consumer.pop().unwrap();
    assert_eq!(track_id, 0);
    assert_eq!(sample, UNIT / 2);
}

#[test]
fn test_peak_meter_update() {
    let mut tracks = vec![Track::new(0, 0)];
    tracks[0].set_armed(true);
    let mut playback: Vec<PlaybackTrack> = Vec::new();

    let ((mut producer, _consumer), (mut monitor_p, _mc), (mut mix_p, _xc), (mut pb_p, _pc)) =
        stereo_rings();

    let input = vec![UNIT * 4 / 5; 16]; // 16 samples at 0.8 amplitude

    process_audio_input(
        &input,
        &mut tracks,
        &mut playback,
        true,
        false,
        false,
        1,
        &mut producer,
        &mut monitor_p,
        &mut mix_p,
        &mut pb_p,
    );

    // Peak should be updated to 0.8 (with level 1.0).
    assert_eq!(tracks[0].get_peak_level(), UNIT * 4 / 5);
}

#[test]
fn test_multi_channel_input() {
    let mut tracks = vec![
        Track::new(0, 0), // Track 0 reads input channel 0
        Track::new(1, 1), // Track 1 reads input channel 1
    ];
    tracks[0].set_armed(true);
    tracks[1].set_armed(true);
    let mut playback: Vec<PlaybackTrack> = Vec::new();

    let ((mut producer, mut consumer), (mut monitor_p, _mc), (mut mix_p, _xc), (mut pb_p, _pc)) =
        stereo_rings();

    // Stereo input: left channel 0.5, right channel 0.8, four frames.
    let left = UNIT / 2;
    let right = UNIT * 4 / 5;
    let input = vec![left, right, left, right, left, right, left, right];

    process_audio_input(
        &input,
        &mut tracks,
        &mut playback,
        true,
        false,
        false,
        2, // stereo
        &mut producer,
        &mut monitor_p,
        &mut mix_p,
        &mut pb_p,
    );

    // Should have 8 samples total (4 frames * 2 tracks)
    assert_eq!(consumer.slots(), 8);

    let mut track0_samples = Vec::new();
    let mut track1_samples = Vec::new();

    while let Ok((track_id, sample)) = consumer.pop() {
        if track_id == 0 {
            track0_samples.push(sample);
        } else {
            track1_samples.push(sample);
        }
    }

    // Track 0 should have left channel (0.5)
    assert_eq!(track0_samples.len(), 4);
    for sample in track0_samples {
        assert_eq!(sample, left);
    }

    // Track 1 should have right channel (0.8)
    assert_eq!(track1_samples.len(), 4);
    for sample in track1_samples {
        assert_eq!(sample, right);
    }
}

#[test]
fn test_monitor_silent_when_nothing_heard() {
    // Stream running, no track monitoring, no playback: the monitor ring
    // still gets one stereo zero-pair per frame.
    let mut tracks = vec![Track::new(0, 0)];
    let mut playback: Vec<PlaybackTrack> = Vec::new();

    let ((mut producer, _c), (mut monitor_p, mut monitor_c), (mut mix_p, _xc), (mut pb_p, _pc)) =
        stereo_rings();

    let input = vec![UNIT; 8];
    process_audio_input(
        &input,
        &mut tracks,
        &mut playback,
        false,
        false,
        false,
        1,
        &mut producer,
        &mut monitor_p,
        &mut mix_p,
        &mut pb_p,
    );

    assert_eq!(monitor_c.slots(), 16);
    while let Ok(sample) = monitor_c.pop() {
        assert_eq!(sample, 0);
    }
}

#[test]
fn test_mix_ring_filled_when_armed() {
    // With the mix armed and an armed track receiving constant input, one
    // stereo pair per frame lands in the mix ring, and one tagged sample
    // per frame in the input ring.
    let mut tracks = vec![Track::new(0, 0)];
    tracks[0].set_armed(true);
    tracks[0].set_monitoring(true);
    let mut playback: Vec<PlaybackTrack> = Vec::new();

    let ((mut producer, rec_c), (mut monitor_p, _mc), (mut mix_p, mut mix_c), (mut pb_p, _pc)) =
        stereo_rings();

    let frames = 48;
    let input = vec![UNIT / 2; frames];
    process_audio_input(
        &input,
        &mut tracks,
        &mut playback,
        true,
        false,
        true,
        1,
        &mut producer,
        &mut monitor_p,
        &mut mix_p,
        &mut pb_p,
    );

    assert_eq!(rec_c.slots(), frames);
    assert_eq!(mix_c.slots(), 2 * frames);
    // The mix carries the monitored signal, not silence.
    let first = mix_c.pop().unwrap();
    assert!(first > 0);
}

#[test]
fn test_playback_position_advances_with_looping() {
    // After processing N frames against a source of length L, the
    // position equals (start + N) mod L.
    let mut tracks: Vec<Track> = Vec::new();
    let mut playback =
        vec![PlaybackTrack::from_samples(vec![UNIT / 4; 10], 1, 48000, 48000).unwrap()];
    playback[0].set_position(7);

    let ((mut producer, _c), (mut monitor_p, _mc), (mut mix_p, _xc), (mut pb_p, _pc)) =
        stereo_rings();

    let input = vec![0; 6]; // six mono frames
    process_audio_input(
        &input,
        &mut tracks,
        &mut playback,
        false,
        true,
        false,
        1,
        &mut producer,
        &mut monitor_p,
        &mut mix_p,
        &mut pb_p,
    );

    assert_eq!(playback[0].get_position(), (7 + 6) % 10);
}

#[test]
fn test_fill_monitor_output_routes_pair() {
    let (mut p, mut c) = rtrb::RingBuffer::new(64);
    // Two frames pending: (11, 22) then (33, 44).
    p.push(11i64).unwrap();
    p.push(22).unwrap();
    p.push(33).unwrap();
    p.push(44).unwrap();

    // Four output channels, monitor pair on channels 3-4 (1-indexed).
    let out = fill_monitor_output(&mut c, 3, 4, 3, 4);
    assert_eq!(out.len(), 12);
    // Frame 0: silence on channels 1-2, the pair on 3-4.
    assert_eq!(&out[0..4], &[0, 0, 11, 22]);
    // Frame 1.
    assert_eq!(&out[4..8], &[0, 0, 33, 44]);
    // Frame 2 underflows to silence.
    assert_eq!(&out[8..12], &[0, 0, 0, 0]);
}

#[test]
fn test_route_samples_to_buckets() {
    // Samples tagged for tracks 2 and 5; track 9 is not armed and drops.
    let samples = vec![(2usize, 10i64), (5, 20), (2, 30), (9, 40), (5, 50)];
    let armed = vec![2usize, 5];
    let buckets = route_samples(&samples, &armed);
    assert_eq!(buckets.len(), 2);
    assert_eq!(buckets[0], vec![10, 30]);
    assert_eq!(buckets[1], vec![20, 50]);
}

#[test]
fn test_writer_drain_pass_empties_ring() {
    let (mut p, mut c) = rtrb::RingBuffer::new(16);
    p.push((0usize, 7i64)).unwrap();
    p.push((1, 8)).unwrap();
    p.push((0, 9)).unwrap();
    let armed = vec![0usize, 1];
    let buckets = writer_drain_pass(&mut c, &armed, 16);
    assert_eq!(buckets[0], vec![7, 9]);
    assert_eq!(buckets[1], vec![8]);
    assert_eq!(c.slots(), 0);
}

#[test]
fn test_recording_pass_end_to_end() {
    // Begin a pass with the mix armed, feed constant input for a stretch
    // of buffers, stop: the armed track's bucket holds one sample per
    // frame, and the mix stream two per frame.
    let mut engine = EngineState::new(vec![Track::new(0, 0)], Vec::new());
    engine.tracks[0].set_armed(true);
    engine.tracks[0].set_monitoring(true);
    engine.set_mix_recording_armed(true);

    let plan = engine.begin_recording_pass("pass".to_string()).unwrap();
    assert_eq!(plan.armed_track_ids, vec![0]);
    assert!(plan.start_mix);

    let ((mut rec_p, mut rec_c), (mut mon_p, _mc), (mut mix_p, mut mix_c), (mut pb_p, _pc)) =
        stereo_rings();

    let frames_per_buffer = 32;
    let buffers = 4;
    let input = vec![UNIT / 2; frames_per_buffer];
    let mut playback: Vec<PlaybackTrack> = Vec::new();
    for _ in 0..buffers {
        process_audio_input(
            &input,
            &mut engine.tracks,
            &mut playback,
            engine.recording,
            engine.playing,
            engine.mix_recording_armed,
            1,
            &mut rec_p,
            &mut mon_p,
            &mut mix_p,
            &mut pb_p,
        );
    }
    engine.stop_recording_async();

    let buckets = writer_drain_pass(&mut rec_c, &plan.armed_track_ids, 65536);
    assert_eq!(buckets[0].len(), frames_per_buffer * buffers);
    assert!(buckets[0].iter().all(|&s| s == UNIT / 2));
    assert_eq!(mix_c.slots(), 2 * frames_per_buffer * buffers);
    let _ = mix_c.pop();
}

#[test]
fn test_ring_overflow_drops_without_failing() {
    // A full ring drops the overflow; the callback never blocks or fails.
    let mut tracks = vec![Track::new(0, 0)];
    tracks[0].set_armed(true);
    let mut playback: Vec<PlaybackTrack> = Vec::new();

    let (mut rec_p, mut rec_c) = rtrb::RingBuffer::new(4);
    let (mut mon_p, _mc) = rtrb::RingBuffer::new(1024);
    let (mut mix_p, _xc) = rtrb::RingBuffer::new(1024);
    let (mut pb_p, _pc) = rtrb::RingBuffer::new(1024);

    let input = vec![UNIT; 16];
    process_audio_input(
        &input,
        &mut tracks,
        &mut playback,
        true,
        false,
        false,
        1,
        &mut rec_p,
        &mut mon_p,
        &mut mix_p,
        &mut pb_p,
    );

    // Only the first four samples fit; the rest were dropped.
    assert_eq!(rec_c.slots(), 4);
    assert_eq!(rec_c.pop().unwrap(), (0, UNIT));
}
