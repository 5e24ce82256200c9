use stems::playback::PlaybackTrack;
use stems::nav::{Column, MessageType, Message, NavState, message_expired};
use stems::session::{activate, ActivateOutcome};
use stems::config::{Config, ConfigError, DeviceConfig, TrackConfig, AudioFileConfig,
    validate_monitor_channels};
use stems::device::{AudioDeviceInfo, DeviceLookupError, resolve_audio_device,
    resolve_midi_device, find_device_by_name};
use stems::listener::{MidiCommand, MidiPortInfo, PortLookupError, get_port_by_name};
use stems::session::{EngineState, SessionController, handle_midi_command};
use stems::track::Track;
use stems::types::RecordingState;
use stems::units::UNIT;
use stems::writer::{generate_timestamp, track_file_name, mix_file_name};

#[test]
fn test_timestamp_format() {
    let timestamp = generate_timestamp();
    assert_eq!(timestamp.len(), 15); // YYYYMMDD-HHMMSS
    assert!(timestamp.contains('-'));
}

#[test]
fn test_capture_file_names() {
    assert_eq!(track_file_name(0, "20240101-120000"), "01-20240101-120000.wav");
    assert_eq!(track_file_name(16, "20240101-120000"), "17-20240101-120000.wav");
    assert_eq!(mix_file_name("20240101-120000"), "mix-20240101-120000.wav");
}

#[test]
fn test_validate_monitor_channels_accepts_stereo_pair() {
    assert_eq!(validate_monitor_channels("17-18"), Ok((17, 18)));
    assert_eq!(validate_monitor_channels("1-2"), Ok((1, 2)));
}

#[test]
fn test_validate_monitor_channels_rejections() {
    assert_eq!(validate_monitor_channels("17"), Err(ConfigError::InvalidMonitorFormat));
    assert_eq!(validate_monitor_channels("1-2-3"), Err(ConfigError::InvalidMonitorFormat));
    assert_eq!(validate_monitor_channels("a-2"), Err(ConfigError::InvalidMonitorStart));
    assert_eq!(validate_monitor_channels("1-b"), Err(ConfigError::InvalidMonitorEnd));
    assert_eq!(validate_monitor_channels("0-1"), Err(ConfigError::MonitorStartTooSmall));
    assert_eq!(validate_monitor_channels("5-4"), Err(ConfigError::MonitorEndBeforeStart));
    assert_eq!(validate_monitor_channels("1-3"), Err(ConfigError::MonitorNotStereo));
}

fn base_config() -> Config {
    Config {
        devices: DeviceConfig { audio: None, monitorch: None, midiin: None },
        tracks: Vec::new(),
        audio: Vec::new(),
    }
}

#[test]
fn test_config_validation() {
    let mut config = base_config();
    assert!(config.validate().is_ok());

    config.devices.monitorch = Some("17-18".to_string());
    config.tracks.push((1, TrackConfig {
        arm: Some(true),
        monitor: None,
        solo: None,
        level: Some(UNIT / 2),
        pan: Some(-UNIT / 4),
    }));
    assert!(config.validate().is_ok());

    config.tracks.push((0, TrackConfig {
        arm: None,
        monitor: None,
        solo: None,
        level: None,
        pan: None,
    }));
    assert_eq!(config.validate(), Err(ConfigError::TrackNumberTooSmall));
    config.tracks.pop();

    config.tracks.push((2, TrackConfig {
        arm: None,
        monitor: None,
        solo: None,
        level: Some(UNIT + 1),
        pan: None,
    }));
    assert_eq!(config.validate(), Err(ConfigError::TrackLevelOutOfRange));
    config.tracks.pop();

    config.tracks.push((3, TrackConfig {
        arm: None,
        monitor: None,
        solo: None,
        level: None,
        pan: Some(-2 * UNIT),
    }));
    assert_eq!(config.validate(), Err(ConfigError::TrackPanOutOfRange));
    config.tracks.pop();

    config.audio.push(AudioFileConfig {
        file: "loop.wav".to_string(),
        monitor: None,
        solo: None,
        level: Some(-1),
        pan: None,
    });
    assert_eq!(config.validate(), Err(ConfigError::AudioLevelOutOfRange));
    config.audio.pop();

    config.audio.push(AudioFileConfig {
        file: "loop.wav".to_string(),
        monitor: None,
        solo: None,
        level: None,
        pan: Some(2 * UNIT),
    });
    assert_eq!(config.validate(), Err(ConfigError::AudioPanOutOfRange));
}

#[test]
fn test_resolve_devices_by_index_and_name() {
    let devices = vec![
        AudioDeviceInfo {
            name: "Built-in Microphone".to_string(),
            is_default: true,
            max_input_channels: 2,
            sample_rate: 48000,
        },
        AudioDeviceInfo {
            name: "Scarlett 18i20".to_string(),
            is_default: false,
            max_input_channels: 18,
            sample_rate: 48000,
        },
    ];
    assert_eq!(resolve_audio_device(&devices, "1"), Ok(1));
    assert_eq!(resolve_audio_device(&devices, "scarlett"), Ok(1));
    assert_eq!(resolve_audio_device(&devices, "built-in"), Ok(0));
    assert_eq!(resolve_audio_device(&devices, "tape deck"), Err(DeviceLookupError::NotFound));

    let ports = vec![
        MidiPortInfo { name: "Sync Out".to_string(), index: 3 },
        MidiPortInfo { name: "Drum Machine".to_string(), index: 7 },
    ];
    assert_eq!(resolve_midi_device(&ports, "0"), Ok(0));
    assert_eq!(resolve_midi_device(&ports, "drum"), Ok(7));
    assert_eq!(resolve_midi_device(&ports, "nothing"), Err(DeviceLookupError::NotFound));
}

#[test]
fn test_get_port_by_name_case_insensitive() {
    let ports = vec![
        MidiPortInfo { name: "beefdown-sync".to_string(), index: 2 },
        MidiPortInfo { name: "Other".to_string(), index: 5 },
    ];
    assert_eq!(get_port_by_name(&ports, "SYNC"), Ok(2));
    assert_eq!(get_port_by_name(&ports, "oth"), Ok(5));
    assert_eq!(get_port_by_name(&ports, "piano"), Err(PortLookupError::NotFound));
}

#[test]
fn test_find_device_by_name_unbound() {
    assert_eq!(find_device_by_name("any"), 0);
}

fn engine_with_tracks(n: usize) -> EngineState {
    let mut tracks = Vec::new();
    for i in 0..n {
        tracks.push(Track::new(i, i));
    }
    EngineState::new(tracks, Vec::new())
}

#[test]
fn test_recording_pass_lifecycle() {
    let mut engine = engine_with_tracks(3);
    engine.tracks[0].set_armed(true);
    engine.tracks[2].set_armed(true);

    let plan = engine.begin_recording_pass("ts-a".to_string()).unwrap();
    assert_eq!(plan.armed_track_ids, vec![0, 2]);
    assert!(!plan.start_mix);
    // Nothing from an earlier pass: the first start joins nothing.
    assert!(!plan.join_first);
    assert!(engine.is_recording());
    assert!(engine.tracks[0].is_recording());
    assert!(!engine.tracks[1].is_recording());

    // A second start while recording is refused.
    assert!(engine.begin_recording_pass("ts-b".to_string()).is_err());

    // Stop is non-blocking: worker handles stay outstanding.
    engine.stop_recording_async();
    assert!(!engine.is_recording());
    assert!(!engine.tracks[0].is_recording());
    assert!(engine.writer_outstanding);

    // The next start carries the deferred join.
    let plan = engine.begin_recording_pass("ts-c".to_string()).unwrap();
    assert!(plan.join_first);

    // A blocking stop leaves nothing outstanding.
    engine.stop_recording();
    assert!(!engine.writer_outstanding);
    let plan = engine.begin_recording_pass("ts-d".to_string()).unwrap();
    assert!(!plan.join_first);
}

#[test]
fn test_mix_recording_armed_pass() {
    let mut engine = engine_with_tracks(1);
    engine.tracks[0].set_armed(true);
    engine.set_mix_recording_armed(true);
    assert!(engine.is_mix_recording_armed());

    let plan = engine.begin_recording_pass("ts".to_string()).unwrap();
    assert!(plan.start_mix);
    assert!(engine.is_mix_recording());

    engine.stop_recording_async();
    assert!(!engine.is_mix_recording());
}

#[test]
fn test_playback_start_stop_resets_positions() {
    let pb = PlaybackTrack::from_samples(vec![0; 8], 1, 48000, 48000).unwrap();
    let mut engine = EngineState::new(Vec::new(), vec![pb]);
    engine.playback_tracks[0].set_position(5);

    engine.start_playback();
    assert!(engine.is_playing());
    assert_eq!(engine.playback_tracks[0].get_position(), 0);

    engine.playback_tracks[0].set_position(3);
    engine.stop_playback();
    assert!(!engine.is_playing());
    assert_eq!(engine.playback_tracks[0].get_position(), 0);
}

#[test]
fn test_controller_clock_protocol() {
    // Start arms the controller; the first tick begins the pass exactly
    // once; Stop halts without joining.
    let mut ctrl = SessionController::new();
    let mut engine = engine_with_tracks(2);
    engine.tracks[1].set_armed(true);

    let plan = handle_midi_command(&mut ctrl, &mut engine, MidiCommand::Start, "t0".to_string());
    assert!(plan.is_none());
    assert_eq!(ctrl.recording_state, RecordingState::WaitingForClock);

    let plan = handle_midi_command(&mut ctrl, &mut engine, MidiCommand::Clock, "t1".to_string());
    let plan = plan.unwrap();
    assert_eq!(plan.timestamp, "t1");
    assert_eq!(plan.armed_track_ids, vec![1]);
    assert!(!plan.start_mix);
    assert!(!plan.join_first);
    assert_eq!(ctrl.recording_state, RecordingState::Recording);
    assert!(engine.is_recording());
    assert!(engine.tracks[1].is_recording());
    assert!(!engine.tracks[0].is_recording());

    // Later ticks do not begin another pass.
    let plan = handle_midi_command(&mut ctrl, &mut engine, MidiCommand::Clock, "t2".to_string());
    assert!(plan.is_none());

    let plan = handle_midi_command(&mut ctrl, &mut engine, MidiCommand::Stop, "t3".to_string());
    assert!(plan.is_none());
    assert_eq!(ctrl.recording_state, RecordingState::Stopped);
    assert!(!engine.is_recording());
    assert!(engine.writer_outstanding);

    let plan =
        handle_midi_command(&mut ctrl, &mut engine, MidiCommand::TempoUpdate(120_000), "t4".to_string());
    assert!(plan.is_none());
    assert_eq!(ctrl.tempo_milli, Some(120_000));
}

#[test]
fn test_column_order_and_messages() {
    let cols = Column::all();
    assert_eq!(cols, vec![Column::Arm, Column::Monitor, Column::Solo, Column::Level, Column::Pan]);

    let msg = Message {
        text: "Sample rate mismatch".to_string(),
        msg_type: MessageType::Warning,
        timestamp: 1_000_000,
    };
    assert!(!message_expired(msg.timestamp, 3_000_000, 3_000_000));
    assert!(message_expired(msg.timestamp, 4_500_000, 3_000_000));
}

#[test]
fn test_activate_toggles_cells_and_guards_live_arms() {
    let mut nav = NavState::new();
    let mut engine = engine_with_tracks(2);

    // Space on the arm column arms the track.
    assert_eq!(activate(&mut nav, &mut engine), ActivateOutcome::Done);
    assert!(engine.tracks[0].is_armed());

    // While the track records, its arm flag is locked.
    engine.tracks[0].set_recording(true);
    assert_eq!(
        activate(&mut nav, &mut engine),
        ActivateOutcome::ArmLockedWhileRecording
    );
    assert!(engine.tracks[0].is_armed());
    engine.tracks[0].set_recording(false);

    // Space on a value column enters edit mode; space again leaves it.
    nav.selected_column = Column::Level;
    activate(&mut nav, &mut engine);
    assert!(nav.edit_mode);
    activate(&mut nav, &mut engine);
    assert!(!nav.edit_mode);

    // Space on the mix row toggles the mix arm.
    nav.jump_to_last();
    activate(&mut nav, &mut engine);
    assert!(engine.is_mix_recording_armed());
}
