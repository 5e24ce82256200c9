use stems::clock::{ClockState, MidiClock};
use stems::listener::{handle_midi_message, MidiCommand, MIDI_CLOCK, MIDI_START, MIDI_STOP};
use stems::types::MidiSyncStatus;

#[test]
fn test_clock_state_machine() {
    let mut clock = MidiClock::new(0);

    assert_eq!(clock.state(), ClockState::Stopped);

    clock.handle_start(0);
    assert_eq!(clock.state(), ClockState::WaitingForClock);

    let is_first = clock.handle_clock(1_000);
    assert!(is_first);
    assert_eq!(clock.state(), ClockState::Running);
    assert_eq!(clock.clock_count(), 1);

    let is_first = clock.handle_clock(2_000);
    assert!(!is_first);
    assert_eq!(clock.clock_count(), 2);

    clock.handle_stop(3_000);
    assert_eq!(clock.state(), ClockState::Stopped);
    assert_eq!(clock.clock_count(), 0);
}

#[test]
fn test_continue_preserves_count() {
    let mut clock = MidiClock::new(0);

    clock.handle_start(0);
    clock.handle_clock(1_000);
    clock.handle_clock(2_000);
    assert_eq!(clock.clock_count(), 2);

    clock.handle_stop(3_000);
    assert_eq!(clock.clock_count(), 0);

    clock.handle_start(4_000);
    clock.handle_clock(5_000);
    assert_eq!(clock.clock_count(), 1);

    clock.handle_continue(6_000);
    clock.handle_clock(7_000);
    // Continue doesn't reset count
    assert_eq!(clock.clock_count(), 2);
}

#[test]
fn test_tempo_calculation() {
    let mut clock = MidiClock::new(0);

    clock.handle_start(0);

    // 120 BPM: 500ms per beat = 20.833ms per clock.
    let mut now: u64 = 0;
    for _ in 0..48 {
        clock.handle_clock(now);
        now += 20_833;
    }

    let tempo = clock.calculate_tempo().unwrap();
    // Tempo is in milli-BPM; allow the same ten-BPM tolerance.
    assert!(tempo > 110_000 && tempo < 130_000);
}

#[test]
fn test_tempo_uniform_ticks_within_five_percent() {
    // Ticks spaced 20.833 ms apart (120 BPM at 24 ticks per beat) for 48
    // ticks: the estimate lands within [115, 125] BPM.
    let mut clock = MidiClock::new(0);
    clock.handle_start(0);
    let mut now: u64 = 0;
    for _ in 0..48 {
        now += 20_833;
        clock.handle_clock(now);
    }
    let tempo = clock.calculate_tempo().unwrap();
    assert!(tempo >= 115_000 && tempo <= 125_000);
}

#[test]
fn test_clock_timeout() {
    let mut clock = MidiClock::new(0);
    clock.handle_start(0);
    assert!(!clock.is_timed_out(1_000_000));
    assert!(clock.is_timed_out(2_000_001));
    // A stopped clock never times out.
    clock.handle_stop(2_500_000);
    assert!(!clock.is_timed_out(10_000_000));
    assert_eq!(clock.time_since_last_activity(2_600_000), 100_000);
}

#[test]
fn test_clock_reset() {
    let mut clock = MidiClock::new(0);
    clock.handle_start(0);
    clock.handle_clock(1_000);
    clock.reset(5_000);
    assert_eq!(clock.state(), ClockState::Stopped);
    assert_eq!(clock.clock_count(), 0);
}

#[test]
fn test_command_sequence_start_ticks_stop() {
    // Start, then 25 ticks, then Stop: a Start command, one Clock per
    // tick with a TempoSample after the 24th, then a Stop command.
    let mut clock = MidiClock::new(0);

    let cmds = handle_midi_message(&[MIDI_START], &mut clock, 0);
    assert_eq!(cmds, vec![MidiCommand::Start]);

    let mut now: u64 = 0;
    for tick in 1..=25u32 {
        now += 20_833;
        let cmds = handle_midi_message(&[MIDI_CLOCK], &mut clock, now);
        assert_eq!(cmds[0], MidiCommand::Clock);
        if tick == 24 {
            assert_eq!(cmds.len(), 2);
            assert!(matches!(cmds[1], MidiCommand::TempoUpdate(_)));
        } else {
            assert_eq!(cmds.len(), 1);
        }
    }

    let cmds = handle_midi_message(&[MIDI_STOP], &mut clock, now + 1);
    assert_eq!(cmds, vec![MidiCommand::Stop]);
    assert_eq!(clock.clock_count(), 0);
}

#[test]
fn test_unknown_message_ignored() {
    let mut clock = MidiClock::new(0);
    let cmds = handle_midi_message(&[0x90, 0x40, 0x7F], &mut clock, 10);
    assert!(cmds.is_empty());
    assert_eq!(clock.state(), ClockState::Stopped);
    let cmds = handle_midi_message(&[], &mut clock, 10);
    assert!(cmds.is_empty());
}

#[test]
fn test_sync_status_indicator() {
    let clock = MidiClock::new(0);
    assert_eq!(stems::listener::sync_status(false, &clock, 0), MidiSyncStatus::NoDevice);
    assert_eq!(stems::listener::sync_status(true, &clock, 0), MidiSyncStatus::NoClockDetected);

    let mut running = MidiClock::new(0);
    running.handle_start(0);
    running.handle_clock(1_000);
    assert_eq!(stems::listener::sync_status(true, &running, 2_000), MidiSyncStatus::Synced);
    // After two silent seconds the indicator downgrades.
    assert_eq!(
        stems::listener::sync_status(true, &running, 3_000_000),
        MidiSyncStatus::NoClockDetected
    );
}
