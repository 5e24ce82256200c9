//! Shared constants and small state enums.

use vstd::prelude::*;

verus! {

/// Default sample rate (Hz).
pub const SAMPLE_RATE: u32 = 48000;

/// Default buffer size (frames).
pub const BUFFER_SIZE: u32 = 512;

/// Ring buffer size in seconds.
pub const RING_BUFFER_SECONDS: usize = 5;

/// Commands sent between threads.
#[derive(Debug, Clone, PartialEq, Eq)]
pub enum AudioCommand {
    /// Start recording with timestamp.
    StartRecording { timestamp: String },
    /// Stop recording and finalize files.
    StopRecording,
    /// Set track level (fixed point, clamped to `[0, UNIT]`).
    SetTrackLevel { track_id: usize, level: i64 },
    /// Set track pan (fixed point, clamped to `[-UNIT, UNIT]`).
    SetTrackPan { track_id: usize, pan: i64 },
    /// Arm or disarm a track.
    ArmTrack { track_id: usize, armed: bool },
}

/// Recording state of the session controller.
#[derive(Debug, Clone, Copy, PartialEq, Eq, Structural)]
pub enum RecordingState {
    Stopped,
    WaitingForClock,
    Recording,
}

/// External clock sync status shown to the operator.
#[derive(Debug, Clone, Copy, PartialEq, Eq, Structural)]
pub enum MidiSyncStatus {
    NoDevice,
    NoClockDetected,
    Synced,
}

} // verus!
