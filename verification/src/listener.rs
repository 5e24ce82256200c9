//! The clock listener: turns raw transport bytes into clock transitions
//! and high-level commands for the session controller, and resolves input
//! ports by name.

use vstd::prelude::*;
use crate::clock::{ClockState, MidiClock, MIDI_CLOCKS_PER_BEAT, tempo_milli_spec, state_after_ticks, lemma_tick_count_replay};
use crate::text::{lower_of, contains_spec, to_lowercase, str_contains};
use crate::types::MidiSyncStatus;

verus! {

use vstd::string::StringExecFns;

/// Transport tick byte.
pub const MIDI_CLOCK: u8 = 0xF8;

/// Transport start byte.
pub const MIDI_START: u8 = 0xFA;

/// Transport continue byte.
pub const MIDI_CONTINUE: u8 = 0xFB;

/// Transport stop byte.
pub const MIDI_STOP: u8 = 0xFC;

/// Commands sent from the clock listener to the session controller.
#[derive(Debug, Clone, Copy, PartialEq, Eq, Structural)]
pub enum MidiCommand {
    /// Arm for recording (Start or Continue was received).
    Start,
    /// Halt recording.
    Stop,
    /// One clock pulse.
    Clock,
    /// A fresh tempo estimate, in milli-BPM.
    TempoUpdate(u64),
}

/// An input port, by display name and index.
#[derive(Debug, Clone)]
pub struct MidiPortInfo {
    pub name: String,
    pub index: usize,
}

/// The commands a tick emits: a clock pulse, and on each beat boundary a
/// tempo estimate when one exists.
pub open spec fn tick_commands(count_after: u32, window_after: Seq<u64>) -> Seq<MidiCommand> {
    if count_after % MIDI_CLOCKS_PER_BEAT == 0 {
        match tempo_milli_spec(window_after) {
            Some(t) => seq![MidiCommand::Clock, MidiCommand::TempoUpdate(t)],
            None => seq![MidiCommand::Clock],
        }
    } else {
        seq![MidiCommand::Clock]
    }
}

/// Feed one incoming transport message to the clock and emit the commands
/// it gives rise to. Unknown and empty messages leave everything alone;
/// Continue arms the clock but is reported as a Start to the controller.
pub fn handle_midi_message(message: &[u8], clock: &mut MidiClock, now: u64) -> (cmds: Vec<
    MidiCommand,
>)
    requires
        old(clock).wf(),
        old(clock).last_clock_time matches Some(t) ==> t <= now,
    ensures
        final(clock).wf(),
        message@.len() == 0 ==> *final(clock) == *old(clock) && cmds@ == Seq::<
            MidiCommand,
        >::empty(),
        message@.len() > 0 && message@[0] == MIDI_START ==> {
            &&& (final(clock).state, final(clock).clock_count) == MidiClock::start_transition(
                old(clock).state,
                old(clock).clock_count,
            )
            &&& final(clock).last_clock_time is None
            &&& final(clock).clock_intervals@.len() == 0
            &&& final(clock).last_activity == now
            &&& cmds@ == seq![MidiCommand::Start]
        },
        message@.len() > 0 && message@[0] == MIDI_STOP ==> {
            &&& (final(clock).state, final(clock).clock_count) == MidiClock::stop_transition(
                old(clock).state,
                old(clock).clock_count,
            )
            &&& *final(clock) == (MidiClock {
                state: ClockState::Stopped,
                clock_count: 0,
                last_activity: now,
                ..*old(clock)
            })
            &&& cmds@ == seq![MidiCommand::Stop]
        },
        message@.len() > 0 && message@[0] == MIDI_CONTINUE ==> {
            &&& (final(clock).state, final(clock).clock_count) == MidiClock::continue_transition(
                old(clock).state,
                old(clock).clock_count,
            )
            &&& *final(clock) == (MidiClock {
                state: ClockState::WaitingForClock,
                last_activity: now,
                ..*old(clock)
            })
            &&& cmds@ == seq![MidiCommand::Start]
        },
        message@.len() > 0 && message@[0] == MIDI_CLOCK ==> {
            &&& (final(clock).state, final(clock).clock_count) == (
                MidiClock::tick_transition(old(clock).state, old(clock).clock_count).0,
                MidiClock::tick_transition(old(clock).state, old(clock).clock_count).1,
            )
            &&& final(clock).last_clock_time == Some(now)
            &&& final(clock).last_activity == now
            &&& final(clock).clock_intervals@ == MidiClock::tick_window(*old(clock), now)
            &&& cmds@ == tick_commands(final(clock).clock_count, final(clock).clock_intervals@)
        },
        message@.len() > 0 && message@[0] != MIDI_START && message@[0] != MIDI_STOP && message@[0]
            != MIDI_CONTINUE && message@[0] != MIDI_CLOCK ==> *final(clock) == *old(clock)
            && cmds@ == Seq::<MidiCommand>::empty(),
{
    let mut cmds: Vec<MidiCommand> = Vec::new();
    if message.len() == 0 {
        return cmds;
    }

    let status = message[0];
    if status == MIDI_START {
        clock.handle_start(now);
        cmds.push(MidiCommand::Start);
    } else if status == MIDI_STOP {
        clock.handle_stop(now);
        cmds.push(MidiCommand::Stop);
    } else if status == MIDI_CONTINUE {
        clock.handle_continue(now);
        cmds.push(MidiCommand::Start);
    } else if status == MIDI_CLOCK {
        clock.handle_clock(now);
        cmds.push(MidiCommand::Clock);
        if clock.clock_count() % MIDI_CLOCKS_PER_BEAT == 0 {
            match clock.calculate_tempo() {
                Some(tempo) => {
                    cmds.push(MidiCommand::TempoUpdate(tempo));
                },
                None => {},
            }
        }
    }
    cmds
}

/// The sync indicator: no device while disconnected, synced while the
/// clock is running and fresh, otherwise no clock.
pub fn sync_status(connected: bool, clock: &MidiClock, now: u64) -> (r: MidiSyncStatus)
    requires
        clock.last_activity <= now,
    ensures
        r == if !connected {
            MidiSyncStatus::NoDevice
        } else if clock.state == ClockState::Running && now - clock.last_activity
            <= clock.timeout_micros {
            MidiSyncStatus::Synced
        } else {
            MidiSyncStatus::NoClockDetected
        },
{
    if !connected {
        return MidiSyncStatus::NoDevice;
    }
    if clock.is_timed_out(now) {
        MidiSyncStatus::NoClockDetected
    } else if matches!(clock.state(), ClockState::Running) {
        MidiSyncStatus::Synced
    } else {
        MidiSyncStatus::NoClockDetected
    }
}

/// The first port whose lowercased name contains the lowercased query.
pub open spec fn first_matching_port(ports: Seq<MidiPortInfo>, needle: Seq<char>) -> Option<
    MidiPortInfo,
>
    decreases ports.len(),
{
    if ports.len() == 0 {
        None
    } else if contains_spec(lower_of(ports[0].name@), needle) {
        Some(ports[0])
    } else {
        first_matching_port(ports.drop_first(), needle)
    }
}

/// Why a port query found nothing.
#[derive(Debug, Clone, Copy, PartialEq, Eq, Structural)]
pub enum PortLookupError {
    /// No port name contains the query.
    NotFound,
}

/// Get port by name (case-insensitive substring match): the index stored
/// in the first port whose name contains the query.
pub fn get_port_by_name(ports: &Vec<MidiPortInfo>, name: &str) -> (r: Result<
    usize,
    PortLookupError,
>)
    ensures
        r == match first_matching_port(ports@, lower_of(name@)) {
            Some(p) => Ok::<usize, PortLookupError>(p.index),
            None => Err(PortLookupError::NotFound),
        },
{
    let name_lower = to_lowercase(name);
    proof {
        assert(ports@.skip(0) =~= ports@);
    }
    let mut i: usize = 0;
    while i < ports.len()
        invariant
            i <= ports@.len(),
            name_lower@ == lower_of(name@),
            first_matching_port(ports@, lower_of(name@)) == first_matching_port(
                ports@.skip(i as int),
                lower_of(name@),
            ),
        decreases ports@.len() - i,
    {
        let port_lower = to_lowercase(ports[i].name.as_str());
        proof {
            assert(ports@.skip(i as int)[0] == ports@[i as int]);
            assert(ports@.skip(i as int).drop_first() =~= ports@.skip(i + 1));
        }
        if str_contains(port_lower.as_str(), name_lower.as_str()) {
            return Ok(ports[i].index);
        }
        i = i + 1;
    }
    proof {
        assert(ports@.skip(ports@.len() as int).len() == 0);
    }
    Err(PortLookupError::NotFound)
}


/// The command shape of a whole run: after Start, the `k`-th tick emits a
/// clock pulse, and a tempo estimate beside it exactly on beat boundaries
/// (every 24th tick) when the interval window yields one; no other
/// command appears. With Stop clearing the count and Start re-arming, this
/// pins the full Start, ticks, Stop command sequence.
pub proof fn lemma_command_sequence_after_start(k: int, window: Seq<u64>)
    requires
        1 <= k <= u32::MAX,
    ensures
        ({
            let cmds = tick_commands(state_after_ticks(k).1, window);
            &&& cmds.len() >= 1
            &&& cmds[0] == MidiCommand::Clock
            &&& (k % 24 != 0 ==> cmds == seq![MidiCommand::Clock])
            &&& (k % 24 == 0 ==> cmds == match tempo_milli_spec(window) {
                Some(t) => seq![MidiCommand::Clock, MidiCommand::TempoUpdate(t)],
                None => seq![MidiCommand::Clock],
            })
        }),
{
    lemma_tick_count_replay(k);
}

} // verus!
