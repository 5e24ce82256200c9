//! Session control: the engine's shared flags, the recording-pass
//! transitions, and the controller that turns clock commands into them.
//!
//! The engine state here is the decision layer of the audio engine: what
//! the flags become and what the surrounding application must do (join the
//! previous pass's workers, open which files) is stated exactly. Streams,
//! worker threads and files are the application's; it performs each
//! returned plan.

use vstd::prelude::*;
use crate::track::Track;
use crate::playback::PlaybackTrack;
use crate::callback::{tracks_wf, playback_wf};
use crate::listener::MidiCommand;
use crate::nav::{Column, NavState};
use crate::types::RecordingState;

verus! {

/// Why the engine refused a request.
#[derive(Debug, Clone, Copy, PartialEq, Eq, Structural)]
pub enum EngineError {
    /// A recording pass is already running.
    AlreadyRecording,
}

/// What the application must do to begin a recording pass: first join any
/// workers left from the previous pass, then open one file per armed track
/// id (and the mix file when the mix is armed) under the timestamp.
pub struct WriterStartPlan {
    /// File-name timestamp of the pass.
    pub timestamp: String,
    /// The ids of the tracks to be written, in track order.
    pub armed_track_ids: Vec<usize>,
    /// Whether the stereo mix file is written too.
    pub start_mix: bool,
    /// Whether worker handles from an earlier pass must be joined first.
    pub join_first: bool,
}

/// The ids of the armed tracks among the first `j`, in track order.
pub open spec fn armed_ids_spec(tracks: Seq<Track>, j: int) -> Seq<usize>
    decreases j,
{
    if j <= 0 {
        Seq::empty()
    } else {
        let pre = armed_ids_spec(tracks, j - 1);
        if tracks[j - 1].armed {
            pre.push(tracks[j - 1].id)
        } else {
            pre
        }
    }
}

/// The engine's control state: the per-track registry and the session
/// flags the audio callback snapshots.
pub struct EngineState {
    /// One input track per input channel.
    pub tracks: Vec<Track>,
    /// Preloaded playback tracks.
    pub playback_tracks: Vec<PlaybackTrack>,
    /// A recording pass is live: armed tracks stream to the input ring.
    pub recording: bool,
    /// Playback tracks are mixed into the monitor bus.
    pub playing: bool,
    /// The stereo mix file will be written on the next pass.
    pub mix_recording_armed: bool,
    /// The stereo mix is being written now.
    pub mix_recording: bool,
    /// Monitor output channel pair, 1-indexed, if configured.
    pub monitor_channels: Option<(u16, u16)>,
    /// A per-track writer worker from some pass may still exist.
    pub writer_outstanding: bool,
    /// The per-track writer worker is told to keep running.
    pub writer_running: bool,
    /// A mix writer worker from some pass may still exist.
    pub mix_writer_outstanding: bool,
    /// The mix writer worker is told to keep running.
    pub mix_writer_running: bool,
}

impl EngineState {
    /// Tracks and playback tracks are well formed.
    pub open spec fn wf(&self) -> bool {
        tracks_wf(self.tracks@) && playback_wf(self.playback_tracks@)
    }

    /// A fresh engine around a track registry: nothing recording, nothing
    /// playing, no workers.
    pub fn new(tracks: Vec<Track>, playback_tracks: Vec<PlaybackTrack>) -> (e: EngineState)
        ensures
            e.tracks == tracks,
            e.playback_tracks == playback_tracks,
            !e.recording,
            !e.playing,
            !e.mix_recording_armed,
            !e.mix_recording,
            e.monitor_channels is None,
            !e.writer_outstanding,
            !e.writer_running,
            !e.mix_writer_outstanding,
            !e.mix_writer_running,
    {
        EngineState {
            tracks,
            playback_tracks,
            recording: false,
            playing: false,
            mix_recording_armed: false,
            mix_recording: false,
            monitor_channels: None,
            writer_outstanding: false,
            writer_running: false,
            mix_writer_outstanding: false,
            mix_writer_running: false,
        }
    }

    /// Configure the monitor output channel pair (1-indexed).
    pub fn set_monitor_channels(&mut self, start: u16, end: u16)
        ensures
            *final(self) == (EngineState { monitor_channels: Some((start, end)), ..*old(self) }),
    {
        self.monitor_channels = Some((start, end));
    }

    /// Begin a recording pass under the given timestamp. Refused while one
    /// is already running. On success: the plan says to join any workers
    /// still out from the previous pass (keeping Stop itself cheap), which
    /// tracks get files, and whether the mix file is opened; the armed
    /// tracks are marked live before the recording flag flips on.
    pub fn begin_recording_pass(&mut self, timestamp: String) -> (r: Result<
        WriterStartPlan,
        EngineError,
    >)
        ensures
            old(self).recording ==> (r matches Err(EngineError::AlreadyRecording))
                && *final(self) == *old(self),
            !old(self).recording ==> match r {
                Ok(plan) => {
                    &&& plan.timestamp == timestamp
                    &&& plan.armed_track_ids@ == armed_ids_spec(
                        old(self).tracks@,
                        old(self).tracks@.len() as int,
                    )
                    &&& plan.start_mix == old(self).mix_recording_armed
                    &&& plan.join_first == (old(self).writer_outstanding
                        || old(self).mix_writer_outstanding)
                    &&& final(self).recording
                    &&& final(self).mix_recording == old(self).mix_recording_armed
                    &&& final(self).writer_outstanding
                    &&& final(self).writer_running
                    &&& final(self).mix_writer_outstanding == (old(self).mix_recording_armed
                        || old(self).mix_writer_outstanding)
                    &&& final(self).mix_writer_running == old(self).mix_recording_armed
                    &&& final(self).playing == old(self).playing
                    &&& final(self).mix_recording_armed == old(self).mix_recording_armed
                    &&& final(self).monitor_channels == old(self).monitor_channels
                    &&& final(self).playback_tracks == old(self).playback_tracks
                    &&& final(self).tracks@.len() == old(self).tracks@.len()
                    &&& forall|j: int|
                        0 <= j < old(self).tracks@.len() ==> final(self).tracks@[j] == (Track {
                            recording: old(self).tracks@[j].armed
                                || (#[trigger] old(self).tracks@[j]).recording,
                            ..old(self).tracks@[j]
                        })
                },
                Err(_) => false,
            },
            old(self).wf() ==> final(self).wf(),
    {
        if self.recording {
            return Err(EngineError::AlreadyRecording);
        }

        let ghost tracks0 = self.tracks@;

        // Collect armed track ids (track ids, not vector indices).
        let mut armed_track_ids: Vec<usize> = Vec::new();
        let mut j: usize = 0;
        while j < self.tracks.len()
            invariant
                j <= tracks0.len(),
                *self == *old(self),
                self.tracks@ == tracks0,
                armed_track_ids@ == armed_ids_spec(tracks0, j as int),
            decreases tracks0.len() - j,
        {
            if self.tracks[j].is_armed() {
                let id = self.tracks[j].id;
                armed_track_ids.push(id);
            }
            j = j + 1;
        }

        let start_mix = self.mix_recording_armed;
        let join_first = self.writer_outstanding || self.mix_writer_outstanding;

        // Mark armed tracks as live writes before the session flag flips.
        let mut k: usize = 0;
        while k < self.tracks.len()
            invariant
                k <= tracks0.len() == self.tracks@.len(),
                *self == (EngineState { tracks: self.tracks, ..*old(self) }),
                tracks0 == old(self).tracks@,
                tracks_wf(tracks0) ==> tracks_wf(self.tracks@),
                forall|i: int|
                    0 <= i < k ==> self.tracks@[i] == (Track {
                        recording: tracks0[i].armed || (#[trigger] tracks0[i]).recording,
                        ..tracks0[i]
                    }),
                forall|i: int| k <= i < tracks0.len() ==> self.tracks@[i] == #[trigger] tracks0[i],
            decreases tracks0.len() - k,
        {
            if self.tracks[k].is_armed() {
                let t = &mut self.tracks[k];
                t.set_recording(true);
            }
            k = k + 1;
        }

        self.writer_outstanding = true;
        self.writer_running = true;
        if start_mix {
            self.mix_writer_outstanding = true;
            self.mix_writer_running = true;
            self.mix_recording = true;
        } else {
            self.mix_writer_running = false;
            self.mix_recording = false;
        }
        self.recording = true;

        Ok(WriterStartPlan { timestamp, armed_track_ids, start_mix, join_first })
    }

    /// Begin a recording pass stamped with the current wall-clock time.
    pub fn start_recording(&mut self) -> (r: Result<WriterStartPlan, EngineError>)
        ensures
            old(self).recording ==> (r matches Err(EngineError::AlreadyRecording))
                && *final(self) == *old(self),
            !old(self).recording ==> match r {
                Ok(plan) => {
                    &&& plan.timestamp@.len() >= 15
                    &&& plan.armed_track_ids@ == armed_ids_spec(
                        old(self).tracks@,
                        old(self).tracks@.len() as int,
                    )
                    &&& plan.start_mix == old(self).mix_recording_armed
                    &&& plan.join_first == (old(self).writer_outstanding
                        || old(self).mix_writer_outstanding)
                    &&& final(self).recording
                    &&& final(self).mix_recording == old(self).mix_recording_armed
                    &&& final(self).writer_outstanding
                    &&& final(self).writer_running
                    &&& final(self).mix_writer_outstanding == (old(self).mix_recording_armed
                        || old(self).mix_writer_outstanding)
                    &&& final(self).mix_writer_running == old(self).mix_recording_armed
                    &&& final(self).playing == old(self).playing
                    &&& final(self).mix_recording_armed == old(self).mix_recording_armed
                    &&& final(self).monitor_channels == old(self).monitor_channels
                    &&& final(self).playback_tracks == old(self).playback_tracks
                    &&& final(self).tracks@.len() == old(self).tracks@.len()
                    &&& forall|j: int|
                        0 <= j < old(self).tracks@.len() ==> final(self).tracks@[j] == (Track {
                            recording: old(self).tracks@[j].armed
                                || (#[trigger] old(self).tracks@[j]).recording,
                            ..old(self).tracks@[j]
                        })
                },
                Err(_) => false,
            },
            old(self).wf() ==> final(self).wf(),
    {
        let timestamp = crate::writer::generate_timestamp();
        self.begin_recording_pass(timestamp)
    }

    /// Halt a recording pass without waiting: flip the flags off, clear
    /// every track's live mark, and signal the writer workers to stop.
    /// Their handles stay outstanding — the next pass joins them — so Stop
    /// never blocks. Does nothing while no pass is running.
    pub fn stop_recording_async(&mut self)
        ensures
            !old(self).recording ==> *final(self) == *old(self),
            old(self).recording ==> {
                &&& !final(self).recording
                &&& !final(self).mix_recording
                &&& !final(self).writer_running
                &&& !final(self).mix_writer_running
                &&& final(self).writer_outstanding == old(self).writer_outstanding
                &&& final(self).mix_writer_outstanding == old(self).mix_writer_outstanding
                &&& final(self).playing == old(self).playing
                &&& final(self).mix_recording_armed == old(self).mix_recording_armed
                &&& final(self).monitor_channels == old(self).monitor_channels
                &&& final(self).playback_tracks == old(self).playback_tracks
                &&& final(self).tracks@.len() == old(self).tracks@.len()
                &&& forall|j: int|
                    0 <= j < old(self).tracks@.len() ==> final(self).tracks@[j] == (Track {
                        recording: false,
                        ..#[trigger] old(self).tracks@[j]
                    })
            },
            old(self).wf() ==> final(self).wf(),
    {
        if !self.recording {
            return;
        }

        self.recording = false;
        self.mix_recording = false;

        let ghost tracks0 = self.tracks@;
        let mut k: usize = 0;
        while k < self.tracks.len()
            invariant
                k <= tracks0.len() == self.tracks@.len(),
                *self == (EngineState {
                    recording: false,
                    mix_recording: false,
                    tracks: self.tracks,
                    ..*old(self)
                }),
                tracks0 == old(self).tracks@,
                tracks_wf(tracks0) ==> tracks_wf(self.tracks@),
                forall|i: int|
                    0 <= i < k ==> self.tracks@[i] == (Track {
                        recording: false,
                        ..#[trigger] tracks0[i]
                    }),
                forall|i: int| k <= i < tracks0.len() ==> self.tracks@[i] == #[trigger] tracks0[i],
            decreases tracks0.len() - k,
        {
            let t = &mut self.tracks[k];
            t.set_recording(false);
            k = k + 1;
        }

        self.writer_running = false;
        self.mix_writer_running = false;
    }

    /// Halt a recording pass and wait: as the non-blocking stop, but the
    /// workers are also joined, so no handle stays outstanding and every
    /// file is finalized before this returns. Does nothing while no pass
    /// is running.
    pub fn stop_recording(&mut self)
        ensures
            !old(self).recording ==> *final(self) == *old(self),
            old(self).recording ==> {
                &&& !final(self).recording
                &&& !final(self).mix_recording
                &&& !final(self).writer_running
                &&& !final(self).mix_writer_running
                &&& !final(self).writer_outstanding
                &&& !final(self).mix_writer_outstanding
                &&& final(self).playing == old(self).playing
                &&& final(self).mix_recording_armed == old(self).mix_recording_armed
                &&& final(self).monitor_channels == old(self).monitor_channels
                &&& final(self).playback_tracks == old(self).playback_tracks
                &&& final(self).tracks@.len() == old(self).tracks@.len()
                &&& forall|j: int|
                    0 <= j < old(self).tracks@.len() ==> final(self).tracks@[j] == (Track {
                        recording: false,
                        ..#[trigger] old(self).tracks@[j]
                    })
            },
            old(self).wf() ==> final(self).wf(),
    {
        if !self.recording {
            return;
        }
        self.stop_recording_async();
        self.writer_outstanding = false;
        self.mix_writer_outstanding = false;
    }

    /// Whether a recording pass is live.
    pub fn is_recording(&self) -> (r: bool)
        ensures
            r == self.recording,
    {
        self.recording
    }

    /// Whether the mix file will be written on the next pass.
    pub fn is_mix_recording_armed(&self) -> (r: bool)
        ensures
            r == self.mix_recording_armed,
    {
        self.mix_recording_armed
    }

    /// Arm or disarm the stereo mix file.
    pub fn set_mix_recording_armed(&mut self, armed: bool)
        ensures
            *final(self) == (EngineState { mix_recording_armed: armed, ..*old(self) }),
    {
        self.mix_recording_armed = armed;
    }

    /// Whether the stereo mix is being written now.
    pub fn is_mix_recording(&self) -> (r: bool)
        ensures
            r == self.mix_recording,
    {
        self.mix_recording
    }

    /// Replace the playback track registry.
    pub fn set_playback_tracks(&mut self, tracks: Vec<PlaybackTrack>)
        ensures
            *final(self) == (EngineState { playback_tracks: tracks, ..*old(self) }),
    {
        self.playback_tracks = tracks;
    }

    /// Start playback: rewind every playback track and flip the flag the
    /// audio callback reads.
    pub fn start_playback(&mut self)
        ensures
            final(self).playing,
            final(self).playback_tracks@.len() == old(self).playback_tracks@.len(),
            forall|j: int|
                0 <= j < old(self).playback_tracks@.len() ==> final(self).playback_tracks@[j]
                    == (PlaybackTrack {
                    position: 0,
                    ..#[trigger] old(self).playback_tracks@[j]
                }),
            *final(self) == (EngineState {
                playing: true,
                playback_tracks: final(self).playback_tracks,
                ..*old(self)
            }),
            old(self).wf() ==> final(self).wf(),
    {
        let ghost playback0 = self.playback_tracks@;
        let mut k: usize = 0;
        while k < self.playback_tracks.len()
            invariant
                k <= playback0.len() == self.playback_tracks@.len(),
                *self == (EngineState { playback_tracks: self.playback_tracks, ..*old(self) }),
                playback0 == old(self).playback_tracks@,
                playback_wf(playback0) ==> playback_wf(self.playback_tracks@),
                forall|i: int|
                    0 <= i < k ==> self.playback_tracks@[i] == (PlaybackTrack {
                        position: 0,
                        ..#[trigger] playback0[i]
                    }),
                forall|i: int|
                    k <= i < playback0.len() ==> self.playback_tracks@[i] == #[trigger] playback0[i],
            decreases playback0.len() - k,
        {
            let p = &mut self.playback_tracks[k];
            p.reset();
            k = k + 1;
        }
        self.playing = true;
    }

    /// Stop playback: flip the flag off — the callback stops mixing within
    /// a buffer — and rewind every playback track. The application also
    /// drains the playback ring.
    pub fn stop_playback(&mut self)
        ensures
            !final(self).playing,
            final(self).playback_tracks@.len() == old(self).playback_tracks@.len(),
            forall|j: int|
                0 <= j < old(self).playback_tracks@.len() ==> final(self).playback_tracks@[j]
                    == (PlaybackTrack {
                    position: 0,
                    ..#[trigger] old(self).playback_tracks@[j]
                }),
            *final(self) == (EngineState {
                playing: false,
                playback_tracks: final(self).playback_tracks,
                ..*old(self)
            }),
            old(self).wf() ==> final(self).wf(),
    {
        self.playing = false;
        let ghost playback0 = self.playback_tracks@;
        let mut k: usize = 0;
        while k < self.playback_tracks.len()
            invariant
                k <= playback0.len() == self.playback_tracks@.len(),
                *self == (EngineState {
                    playing: false,
                    playback_tracks: self.playback_tracks,
                    ..*old(self)
                }),
                playback0 == old(self).playback_tracks@,
                playback_wf(playback0) ==> playback_wf(self.playback_tracks@),
                forall|i: int|
                    0 <= i < k ==> self.playback_tracks@[i] == (PlaybackTrack {
                        position: 0,
                        ..#[trigger] playback0[i]
                    }),
                forall|i: int|
                    k <= i < playback0.len() ==> self.playback_tracks@[i] == #[trigger] playback0[i],
            decreases playback0.len() - k,
        {
            let p = &mut self.playback_tracks[k];
            p.reset();
            k = k + 1;
        }
    }

    /// Whether playback is running.
    pub fn is_playing(&self) -> (r: bool)
        ensures
            r == self.playing,
    {
        self.playing
    }
}

/// The session controller's own state: where the clock-driven recording
/// protocol stands, and the tempo shown to the operator.
pub struct SessionController {
    /// Where the clock-driven recording protocol stands.
    pub recording_state: RecordingState,
    /// The latest tempo estimate, in milli-BPM.
    pub tempo_milli: Option<u64>,
}

impl SessionController {
    /// A fresh controller: stopped, no tempo yet.
    pub fn new() -> (c: SessionController)
        ensures
            c.recording_state == RecordingState::Stopped,
            c.tempo_milli is None,
    {
        SessionController { recording_state: RecordingState::Stopped, tempo_milli: None }
    }
}

/// Drive the session from one clock command. Start arms the controller
/// (and playback, when playback tracks are loaded); the first tick after
/// arming begins the recording pass under the given timestamp and returns
/// its writer plan; later ticks do nothing; Stop halts recording and
/// playback without blocking; a tempo update is kept for display.
pub fn handle_midi_command(
    ctrl: &mut SessionController,
    engine: &mut EngineState,
    cmd: MidiCommand,
    timestamp: String,
) -> (plan: Option<WriterStartPlan>)
    ensures
        cmd == MidiCommand::Start ==> {
            &&& *final(ctrl) == (SessionController {
                recording_state: RecordingState::WaitingForClock,
                ..*old(ctrl)
            })
            &&& plan is None
            &&& (old(engine).playback_tracks@.len() == 0 ==> *final(engine) == *old(engine))
            &&& (old(engine).playback_tracks@.len() > 0 ==> {
                &&& *final(engine) == (EngineState {
                    playing: true,
                    playback_tracks: final(engine).playback_tracks,
                    ..*old(engine)
                })
                &&& final(engine).playback_tracks@.len() == old(engine).playback_tracks@.len()
                &&& forall|j: int|
                    0 <= j < old(engine).playback_tracks@.len() ==> final(engine).playback_tracks@[j] == (PlaybackTrack {
                        position: 0,
                        ..#[trigger] old(engine).playback_tracks@[j]
                    })
            })
        },
        cmd == MidiCommand::Stop ==> {
            &&& *final(ctrl) == (SessionController {
                recording_state: RecordingState::Stopped,
                ..*old(ctrl)
            })
            &&& plan is None
            &&& !final(engine).recording
            &&& !final(engine).playing
            &&& (old(engine).recording ==> !final(engine).writer_running
                && !final(engine).mix_writer_running && !final(engine).mix_recording)
            &&& (!old(engine).recording ==> final(engine).writer_running == old(engine).writer_running && final(engine).mix_writer_running == old(engine).mix_writer_running
                && final(engine).mix_recording == old(engine).mix_recording)
            &&& final(engine).writer_outstanding == old(engine).writer_outstanding
            &&& final(engine).mix_writer_outstanding == old(engine).mix_writer_outstanding
            &&& final(engine).mix_recording_armed == old(engine).mix_recording_armed
            &&& final(engine).monitor_channels == old(engine).monitor_channels
            &&& final(engine).tracks@.len() == old(engine).tracks@.len()
            &&& (old(engine).recording ==> forall|j: int|
                0 <= j < old(engine).tracks@.len() ==> final(engine).tracks@[j] == (Track {
                    recording: false,
                    ..#[trigger] old(engine).tracks@[j]
                }))
            &&& (!old(engine).recording ==> final(engine).tracks == old(engine).tracks)
            &&& final(engine).playback_tracks@.len() == old(engine).playback_tracks@.len()
            &&& (old(engine).playing ==> forall|j: int|
                0 <= j < old(engine).playback_tracks@.len() ==> final(engine).playback_tracks@[j] == (PlaybackTrack {
                    position: 0,
                    ..#[trigger] old(engine).playback_tracks@[j]
                }))
            &&& (!old(engine).playing ==> final(engine).playback_tracks == old(engine).playback_tracks)
        },
        cmd == MidiCommand::Clock ==> {
            &&& (old(ctrl).recording_state == RecordingState::WaitingForClock && !old(engine).recording) ==> {
                &&& *final(ctrl) == (SessionController {
                    recording_state: RecordingState::Recording,
                    ..*old(ctrl)
                })
                &&& plan matches Some(p) ==> {
                    &&& p.timestamp == timestamp
                    &&& p.armed_track_ids@ == armed_ids_spec(
                        old(engine).tracks@,
                        old(engine).tracks@.len() as int,
                    )
                    &&& p.start_mix == old(engine).mix_recording_armed
                    &&& p.join_first == (old(engine).writer_outstanding || old(engine).mix_writer_outstanding)
                }
                &&& plan is Some
                &&& final(engine).recording
                &&& final(engine).mix_recording == old(engine).mix_recording_armed
                &&& final(engine).writer_outstanding
                &&& final(engine).writer_running
                &&& final(engine).mix_writer_outstanding == (old(engine).mix_recording_armed
                    || old(engine).mix_writer_outstanding)
                &&& final(engine).mix_writer_running == old(engine).mix_recording_armed
                &&& final(engine).playing == old(engine).playing
                &&& final(engine).mix_recording_armed == old(engine).mix_recording_armed
                &&& final(engine).monitor_channels == old(engine).monitor_channels
                &&& final(engine).playback_tracks == old(engine).playback_tracks
                &&& final(engine).tracks@.len() == old(engine).tracks@.len()
                &&& forall|j: int|
                    0 <= j < old(engine).tracks@.len() ==> final(engine).tracks@[j] == (Track {
                        recording: old(engine).tracks@[j].armed
                            || (#[trigger] old(engine).tracks@[j]).recording,
                        ..old(engine).tracks@[j]
                    })
            }
            &&& (old(ctrl).recording_state == RecordingState::WaitingForClock && old(engine).recording) ==> *final(ctrl)
                == *old(ctrl) && *final(engine) == *old(engine) && plan is None
            &&& old(ctrl).recording_state != RecordingState::WaitingForClock ==> *final(ctrl)
                == *old(ctrl) && *final(engine) == *old(engine) && plan is None
        },
        cmd matches MidiCommand::TempoUpdate(t) ==> *final(ctrl) == (SessionController {
            tempo_milli: Some(t),
            ..*old(ctrl)
        }) && *final(engine) == *old(engine) && plan is None,
        old(engine).wf() ==> final(engine).wf(),
{
    match cmd {
        MidiCommand::Start => {
            ctrl.recording_state = RecordingState::WaitingForClock;
            if engine.playback_tracks.len() > 0 {
                engine.start_playback();
            }
            None
        },
        MidiCommand::Stop => {
            engine.stop_recording_async();
            if engine.is_playing() {
                engine.stop_playback();
            }
            ctrl.recording_state = RecordingState::Stopped;
            None
        },
        MidiCommand::Clock => {
            if matches!(ctrl.recording_state, RecordingState::WaitingForClock) {
                match engine.begin_recording_pass(timestamp) {
                    Ok(plan) => {
                        ctrl.recording_state = RecordingState::Recording;
                        Some(plan)
                    },
                    Err(_) => None,
                }
            } else {
                None
            }
        },
        MidiCommand::TempoUpdate(t) => {
            ctrl.tempo_milli = Some(t);
            None
        },
    }
}


/// What pressing the activate key did.
#[derive(Debug, Clone, Copy, PartialEq, Eq, Structural)]
pub enum ActivateOutcome {
    /// The cell was toggled, edit mode changed, or there was nothing to do.
    Done,
    /// The arm flag is locked while its track records.
    ArmLockedWhileRecording,
}

/// Act on the selected cell: leave edit mode if it is on; toggle a flag
/// cell (arm, monitor, solo, or the mix arm); enter edit mode on a value
/// cell. An armed flag is refused while its track is live, so a pass is
/// never reshaped mid-flight.
pub fn activate(nav: &mut NavState, engine: &mut EngineState) -> (r: ActivateOutcome)
    ensures
        old(nav).edit_mode ==> *final(nav) == (NavState { edit_mode: false, ..*old(nav) })
            && *final(engine) == *old(engine) && r == ActivateOutcome::Done,
        !old(nav).edit_mode && old(nav).in_playback_section ==> *final(nav) == (
        if old(nav).selected_playback_track < old(engine).playback_tracks@.len() && (old(nav).selected_column == Column::Level || old(nav).selected_column == Column::Pan) {
            NavState { edit_mode: true, ..*old(nav) }
        } else {
            *old(nav)
        }) && r == ActivateOutcome::Done && ({
            let idx = old(nav).selected_playback_track as int;
            if idx < old(engine).playback_tracks@.len() && old(nav).selected_column
                == Column::Monitor {
                *final(engine) == (EngineState {
                    playback_tracks: final(engine).playback_tracks,
                    ..*old(engine)
                }) && final(engine).playback_tracks@ == old(engine).playback_tracks@.update(
                    idx,
                    PlaybackTrack {
                        monitoring: !old(engine).playback_tracks@[idx].monitoring,
                        ..old(engine).playback_tracks@[idx]
                    },
                )
            } else if idx < old(engine).playback_tracks@.len() && old(nav).selected_column
                == Column::Solo {
                *final(engine) == (EngineState {
                    playback_tracks: final(engine).playback_tracks,
                    ..*old(engine)
                }) && final(engine).playback_tracks@ == old(engine).playback_tracks@.update(
                    idx,
                    PlaybackTrack {
                        solo: !old(engine).playback_tracks@[idx].solo,
                        ..old(engine).playback_tracks@[idx]
                    },
                )
            } else {
                *final(engine) == *old(engine)
            }
        }),
        !old(nav).edit_mode && !old(nav).in_playback_section && old(nav).selected_on_mix_row
            ==> *final(nav) == *old(nav) && r == ActivateOutcome::Done && *final(engine) == (
        EngineState {
            mix_recording_armed: !old(engine).mix_recording_armed,
            ..*old(engine)
        }),
        !old(nav).edit_mode && !old(nav).in_playback_section && !old(nav).selected_on_mix_row
            && old(nav).selected_track < old(engine).tracks@.len() ==> ({
            let idx = old(nav).selected_track as int;
            let t = old(engine).tracks@[idx];
            if old(nav).selected_column == Column::Arm {
                if t.recording {
                    r == ActivateOutcome::ArmLockedWhileRecording && *final(nav) == *old(nav)
                        && *final(engine) == *old(engine)
                } else {
                    r == ActivateOutcome::Done && *final(nav) == *old(nav) && *final(engine) == (
                    EngineState { tracks: final(engine).tracks, ..*old(engine) }) && final(engine).tracks@ == old(engine).tracks@.update(
                        idx,
                        Track { armed: !t.armed, ..t },
                    )
                }
            } else if old(nav).selected_column == Column::Monitor {
                r == ActivateOutcome::Done && *final(nav) == *old(nav) && *final(engine) == (
                EngineState { tracks: final(engine).tracks, ..*old(engine) }) && final(engine).tracks@ == old(engine).tracks@.update(
                    idx,
                    Track { monitoring: !t.monitoring, ..t },
                )
            } else if old(nav).selected_column == Column::Solo {
                r == ActivateOutcome::Done && *final(nav) == *old(nav) && *final(engine) == (
                EngineState { tracks: final(engine).tracks, ..*old(engine) }) && final(engine).tracks@ == old(engine).tracks@.update(idx, Track { solo: !t.solo, ..t })
            } else {
                r == ActivateOutcome::Done && *final(engine) == *old(engine) && *final(nav) == (
                NavState { edit_mode: true, ..*old(nav) })
            }
        }),
        !old(nav).edit_mode && !old(nav).in_playback_section && !old(nav).selected_on_mix_row
            && old(nav).selected_track >= old(engine).tracks@.len() ==> *final(nav) == *old(nav)
            && *final(engine) == *old(engine) && r == ActivateOutcome::Done,
        old(engine).wf() ==> final(engine).wf(),
{
    if nav.edit_mode {
        nav.set_edit_mode(false);
        return ActivateOutcome::Done;
    }

    if nav.in_playback_section {
        let idx = nav.selected_playback_track;
        if idx < engine.playback_tracks.len() {
            match nav.selected_column {
                Column::Monitor => {
                    let track = &mut engine.playback_tracks[idx];
                    let current = track.is_monitoring();
                    track.set_monitoring(!current);
                },
                Column::Solo => {
                    let track = &mut engine.playback_tracks[idx];
                    let current = track.is_solo();
                    track.set_solo(!current);
                },
                Column::Level | Column::Pan => {
                    nav.set_edit_mode(true);
                },
                Column::Arm => {},
            }
        }
        return ActivateOutcome::Done;
    }

    if nav.selected_on_mix_row {
        let current = engine.is_mix_recording_armed();
        engine.set_mix_recording_armed(!current);
        return ActivateOutcome::Done;
    }

    let idx = nav.selected_track;
    if idx < engine.tracks.len() {
        match nav.selected_column {
            Column::Arm => {
                if engine.tracks[idx].is_recording() {
                    return ActivateOutcome::ArmLockedWhileRecording;
                }
                let track = &mut engine.tracks[idx];
                let current = track.is_armed();
                track.set_armed(!current);
            },
            Column::Monitor => {
                let track = &mut engine.tracks[idx];
                let current = track.is_monitoring();
                track.set_monitoring(!current);
            },
            Column::Solo => {
                let track = &mut engine.tracks[idx];
                let current = track.is_solo();
                track.set_solo(!current);
            },
            Column::Level | Column::Pan => {
                nav.set_edit_mode(true);
            },
        }
    }
    ActivateOutcome::Done
}

} // verus!
