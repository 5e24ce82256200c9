//! An input track: one input channel with its control state.
//!
//! The control values are plain fields here; the surrounding application is
//! responsible for sharing a track between threads. Levels, pans and peaks
//! are fixed-point millionths (see [`crate::units`]).

use vstd::prelude::*;
use crate::units::{UNIT, clamped, pan_curve, clamp_level, clamp_pan, pan_gains};
use crate::text::dec_digits;

verus! {

use vstd::string::StringExecFns;

/// A single input track.
#[derive(Debug, Clone)]
pub struct Track {
    /// Stable identity, fixed at construction.
    pub id: usize,
    /// Display name.
    pub name: String,
    /// Selected to be written to a file during the next or current pass.
    pub armed: bool,
    /// Mixed into the monitor bus.
    pub monitoring: bool,
    /// When any track is soloed, only soloed tracks are monitored.
    pub solo: bool,
    /// Gain in `[0, UNIT]`.
    pub level: i64,
    /// Pan in `[-UNIT, UNIT]`; negative is left.
    pub pan: i64,
    /// The input channel this track reads.
    pub input_channel: usize,
    /// Meter peak in `[0, UNIT]`; written by the mixer, decayed by the UI.
    pub peak_level: i64,
    /// An arm that became a live write; guards arm changes.
    pub recording: bool,
}

impl Track {
    /// The control values lie in their documented ranges.
    pub open spec fn wf(&self) -> bool {
        &&& 0 <= self.level <= UNIT
        &&& -UNIT <= self.pan <= UNIT
        &&& 0 <= self.peak_level <= UNIT
    }

    /// `t` with its armed flag replaced.
    pub open spec fn with_armed(t: Track, armed: bool) -> Track {
        Track { armed, ..t }
    }

    /// `t` with its level replaced by the clamped value.
    pub open spec fn with_level(t: Track, level: i64) -> Track {
        Track { level: clamped(level as int, 0, UNIT as int) as i64, ..t }
    }

    /// `t` with its pan replaced by the clamped value.
    pub open spec fn with_pan(t: Track, pan: i64) -> Track {
        Track { pan: clamped(pan as int, -(UNIT as int), UNIT as int) as i64, ..t }
    }

    /// A fresh track reading `input_channel`: disarmed, not monitored, not
    /// soloed, unity level, centre pan, meter at rest.
    pub fn new(id: usize, input_channel: usize) -> (t: Track)
        requires
            id < usize::MAX,
        ensures
            t.id == id,
            t.input_channel == input_channel,
            t.name@ == "Track "@ + dec_digits((id + 1) as nat),
            !t.armed,
            !t.monitoring,
            !t.solo,
            !t.recording,
            t.level == UNIT,
            t.pan == 0,
            t.peak_level == 0,
            t.wf(),
    {
        let mut name = String::from_str("Track ");
        let digits = crate::text::usize_to_dec(id + 1);
        name.append(digits.as_str());
        Track {
            id,
            name,
            armed: false,
            monitoring: false,
            solo: false,
            level: UNIT,
            pan: 0,
            input_channel,
            peak_level: 0,
            recording: false,
        }
    }

    /// Armed status.
    pub fn is_armed(&self) -> (r: bool)
        ensures
            r == self.armed,
    {
        self.armed
    }

    /// Select or deselect the track for recording.
    pub fn set_armed(&mut self, armed: bool)
        ensures
            *final(self) == Track::with_armed(*old(self), armed),
    {
        self.armed = armed;
    }

    /// Monitoring status.
    pub fn is_monitoring(&self) -> (r: bool)
        ensures
            r == self.monitoring,
    {
        self.monitoring
    }

    /// Turn monitoring on or off.
    pub fn set_monitoring(&mut self, monitoring: bool)
        ensures
            *final(self) == (Track { monitoring, ..*old(self) }),
    {
        self.monitoring = monitoring;
    }

    /// Solo status.
    pub fn is_solo(&self) -> (r: bool)
        ensures
            r == self.solo,
    {
        self.solo
    }

    /// Turn solo on or off.
    pub fn set_solo(&mut self, solo: bool)
        ensures
            *final(self) == (Track { solo, ..*old(self) }),
    {
        self.solo = solo;
    }

    /// Current level.
    pub fn get_level(&self) -> (r: i64)
        ensures
            r == self.level,
    {
        self.level
    }

    /// Store a level, clamped to `[0, UNIT]`.
    pub fn set_level(&mut self, level: i64)
        ensures
            *final(self) == Track::with_level(*old(self), level),
            0 <= final(self).level <= UNIT,
    {
        self.level = clamp_level(level);
    }

    /// Current pan.
    pub fn get_pan(&self) -> (r: i64)
        ensures
            r == self.pan,
    {
        self.pan
    }

    /// Store a pan, clamped to `[-UNIT, UNIT]`.
    pub fn set_pan(&mut self, pan: i64)
        ensures
            *final(self) == Track::with_pan(*old(self), pan),
            -UNIT <= final(self).pan <= UNIT,
    {
        self.pan = clamp_pan(pan);
    }

    /// Current meter peak.
    pub fn get_peak_level(&self) -> (r: i64)
        ensures
            r == self.peak_level,
    {
        self.peak_level
    }

    /// Store a meter peak, clamped to `[0, UNIT]`.
    pub fn update_peak_level(&mut self, new_peak: i64)
        ensures
            *final(self) == (Track {
                peak_level: clamped(new_peak as int, 0, UNIT as int) as i64,
                ..*old(self)
            }),
    {
        self.peak_level = clamp_level(new_peak);
    }

    /// Let the meter fall by `decay_rate`, stopping at zero.
    pub fn decay_peak_level(&mut self, decay_rate: i64)
        requires
            0 <= decay_rate,
            0 <= old(self).peak_level,
        ensures
            *final(self) == (Track {
                peak_level: if old(self).peak_level >= decay_rate {
                    (old(self).peak_level - decay_rate) as i64
                } else {
                    0
                },
                ..*old(self)
            }),
            final(self).peak_level >= 0,
    {
        if self.peak_level >= decay_rate {
            self.peak_level = self.peak_level - decay_rate;
        } else {
            self.peak_level = 0;
        }
    }

    /// Recording status.
    pub fn is_recording(&self) -> (r: bool)
        ensures
            r == self.recording,
    {
        self.recording
    }

    /// Mark the track as live (or no longer live) in a recording pass.
    pub fn set_recording(&mut self, recording: bool)
        ensures
            *final(self) == (Track { recording, ..*old(self) }),
    {
        self.recording = recording;
    }

    /// Stereo gains from the pan position under the equal-power law.
    pub fn calculate_pan_gains(&self) -> (gains: (i64, i64))
        requires
            self.wf(),
        ensures
            gains.0 == pan_curve(UNIT - self.pan),
            gains.1 == pan_curve(UNIT + self.pan),
            0 <= gains.0 <= UNIT,
            0 <= gains.1 <= UNIT,
    {
        pan_gains(self.pan)
    }
}

/// Arming and then disarming a track restores the armed flag it started
/// with; so does disarming and re-arming. No other field moves.
pub proof fn lemma_arm_disarm_restores(t: Track)
    ensures
        Track::with_armed(Track::with_armed(t, true), t.armed) == t,
        Track::with_armed(Track::with_armed(t, false), t.armed) == t,
{
}

/// A stored level reads back as the clamped written value, and writing the
/// same level twice changes nothing the first write did not.
pub proof fn lemma_level_set_get(t: Track, level: i64)
    ensures
        Track::with_level(t, level).level == clamped(level as int, 0, UNIT as int),
        Track::with_level(Track::with_level(t, level), level) == Track::with_level(t, level),
{
}

/// A stored pan reads back as the clamped written value, and writing the
/// same pan twice changes nothing the first write did not.
pub proof fn lemma_pan_set_get(t: Track, pan: i64)
    ensures
        Track::with_pan(t, pan).pan == clamped(pan as int, -(UNIT as int), UNIT as int),
        Track::with_pan(Track::with_pan(t, pan), pan) == Track::with_pan(t, pan),
{
}


/// The track registry of a fresh engine: one track per input channel,
/// track `j` reading channel `j`, all at the defaults.
pub fn channel_tracks(num_channels: usize) -> (tracks: Vec<Track>)
    ensures
        tracks@.len() == num_channels,
        forall|j: int|
            0 <= j < num_channels ==> {
                let t = #[trigger] tracks@[j];
                &&& t.id == j
                &&& t.input_channel == j
                &&& !t.armed
                &&& !t.monitoring
                &&& !t.solo
                &&& !t.recording
                &&& t.level == UNIT
                &&& t.pan == 0
                &&& t.peak_level == 0
                &&& t.wf()
            },
{
    let mut tracks: Vec<Track> = Vec::new();
    let mut i: usize = 0;
    while i < num_channels
        invariant
            i <= num_channels,
            tracks@.len() == i,
            forall|j: int|
                0 <= j < i ==> {
                    let t = #[trigger] tracks@[j];
                    &&& t.id == j
                    &&& t.input_channel == j
                    &&& !t.armed
                    &&& !t.monitoring
                    &&& !t.solo
                    &&& !t.recording
                    &&& t.level == UNIT
                    &&& t.pan == 0
                    &&& t.peak_level == 0
                    &&& t.wf()
                },
        decreases num_channels - i,
    {
        tracks.push(Track::new(i, i));
        i = i + 1;
    }
    tracks
}

} // verus!
