//! A playback track: preloaded interleaved samples with the same control
//! surface as an input track, plus a looping play position.

use vstd::prelude::*;
use crate::units::{UNIT, SAMPLE_LIMIT, clamped, pan_curve, clamp_level, clamp_pan, pan_gains};

verus! {

/// Why a set of decoded samples cannot become a playback track.
#[derive(Debug, Clone, Copy, PartialEq, Eq, Structural)]
pub enum PlaybackLoadError {
    /// The file's sample rate differs from the engine's.
    SampleRateMismatch,
    /// Only mono and stereo sources are played.
    UnsupportedChannels,
}

/// A track of preloaded audio, mixed into the monitor bus while playing.
#[derive(Debug, Clone)]
pub struct PlaybackTrack {
    /// Samples in fixed-point millionths, interleaved when stereo.
    pub samples: Vec<i64>,
    /// 1 (mono) or 2 (stereo).
    pub channels: u16,
    /// Sample rate the audio was decoded at; equals the engine rate.
    pub sample_rate: u32,
    /// Current play position, as a frame index.
    pub position: usize,
    /// Mixed into the monitor bus.
    pub monitoring: bool,
    /// When any track is soloed, only soloed tracks are monitored.
    pub solo: bool,
    /// Gain in `[0, UNIT]`.
    pub level: i64,
    /// Pan in `[-UNIT, UNIT]`; negative is left.
    pub pan: i64,
    /// Meter peak in `[0, UNIT]`.
    pub peak_level: i64,
}

impl PlaybackTrack {
    /// Frames available: samples divided by the channel count.
    pub open spec fn num_frames_spec(&self) -> int {
        self.samples@.len() as int / self.channels as int
    }

    /// The control values and samples lie in their documented ranges, and
    /// the position points at a frame (or rests at zero when there are
    /// none).
    pub open spec fn wf(&self) -> bool {
        &&& (self.channels == 1 || self.channels == 2)
        &&& forall|i: int|
            0 <= i < self.samples@.len() ==> -SAMPLE_LIMIT <= #[trigger] self.samples@[i]
                <= SAMPLE_LIMIT
        &&& 0 <= self.level <= UNIT
        &&& -UNIT <= self.pan <= UNIT
        &&& 0 <= self.peak_level <= UNIT
        &&& if self.num_frames_spec() > 0 {
            self.position < self.num_frames_spec()
        } else {
            self.position == 0
        }
    }

    /// Build a playback track from decoded samples. The source must match
    /// the engine sample rate and be mono or stereo; each sample is held to
    /// the pipeline's amplitude limit. Fresh tracks monitor by default, at
    /// unity level and centre pan, positioned at the start.
    pub fn from_samples(samples: Vec<i64>, channels: u16, sample_rate: u32, target_rate: u32)
        -> (r: Result<PlaybackTrack, PlaybackLoadError>)
        ensures
            match r {
                Ok(t) => {
                    &&& sample_rate == target_rate
                    &&& (channels == 1 || channels == 2)
                    &&& t.channels == channels
                    &&& t.sample_rate == sample_rate
                    &&& t.position == 0
                    &&& t.monitoring
                    &&& !t.solo
                    &&& t.level == UNIT
                    &&& t.pan == 0
                    &&& t.peak_level == 0
                    &&& t.samples@.len() == samples@.len()
                    &&& forall|i: int|
                        0 <= i < samples@.len() ==> t.samples@[i] == clamped(
                            samples@[i] as int,
                            -SAMPLE_LIMIT as int,
                            SAMPLE_LIMIT as int,
                        )
                    &&& t.wf()
                },
                Err(PlaybackLoadError::SampleRateMismatch) => sample_rate != target_rate,
                Err(PlaybackLoadError::UnsupportedChannels) => sample_rate == target_rate
                    && channels != 1 && channels != 2,
            },
    {
        if sample_rate != target_rate {
            return Err(PlaybackLoadError::SampleRateMismatch);
        }
        if channels != 1 && channels != 2 {
            return Err(PlaybackLoadError::UnsupportedChannels);
        }

        let mut held: Vec<i64> = Vec::new();
        let mut i: usize = 0;
        while i < samples.len()
            invariant
                i <= samples@.len(),
                held@.len() == i,
                forall|k: int|
                    0 <= k < i ==> held@[k] == clamped(
                        samples@[k] as int,
                        -SAMPLE_LIMIT as int,
                        SAMPLE_LIMIT as int,
                    ),
            decreases samples@.len() - i,
        {
            let s = samples[i];
            let held_sample: i64 = if s < -SAMPLE_LIMIT {
                -SAMPLE_LIMIT
            } else if s > SAMPLE_LIMIT {
                SAMPLE_LIMIT
            } else {
                s
            };
            held.push(held_sample);
            i = i + 1;
        }

        let t = PlaybackTrack {
            samples: held,
            channels,
            sample_rate,
            position: 0,
            monitoring: true,
            solo: false,
            level: UNIT,
            pan: 0,
            peak_level: 0,
        };
        proof {
            if t.num_frames_spec() > 0 {
                assert(t.position < t.num_frames_spec());
            }
        }
        Ok(t)
    }

    /// Frames available.
    pub fn num_frames(&self) -> (n: usize)
        requires
            self.channels == 1 || self.channels == 2,
        ensures
            n == self.num_frames_spec(),
    {
        self.samples.len() / (self.channels as usize)
    }

    /// Current play position (frame index).
    pub fn get_position(&self) -> (p: usize)
        ensures
            p == self.position,
    {
        self.position
    }

    /// Move the play position.
    pub fn set_position(&mut self, pos: usize)
        ensures
            *final(self) == (PlaybackTrack { position: pos, ..*old(self) }),
    {
        self.position = pos;
    }

    /// Rewind to the start.
    pub fn reset(&mut self)
        ensures
            *final(self) == (PlaybackTrack { position: 0, ..*old(self) }),
    {
        self.position = 0;
    }

    /// Advance the position by `frames`, looping over the track length.
    /// A track without frames stays at zero.
    pub fn advance_position(&mut self, frames: usize)
        requires
            old(self).wf(),
        ensures
            *final(self) == (PlaybackTrack {
                position: if old(self).num_frames_spec() > 0 {
                    (((old(self).position + frames) as int) % old(self).num_frames_spec()) as usize
                } else {
                    0
                },
                ..*old(self)
            }),
            final(self).wf(),
    {
        let nf = self.num_frames();
        if nf > 0 {
            let next: u128 = (self.position as u128 + frames as u128) % (nf as u128);
            self.position = next as usize;
        }
    }

    /// Monitoring status.
    pub fn is_monitoring(&self) -> (r: bool)
        ensures
            r == self.monitoring,
    {
        self.monitoring
    }

    /// Turn monitoring on or off.
    pub fn set_monitoring(&mut self, monitoring: bool)
        ensures
            *final(self) == (PlaybackTrack { monitoring, ..*old(self) }),
    {
        self.monitoring = monitoring;
    }

    /// Solo status.
    pub fn is_solo(&self) -> (r: bool)
        ensures
            r == self.solo,
    {
        self.solo
    }

    /// Turn solo on or off.
    pub fn set_solo(&mut self, solo: bool)
        ensures
            *final(self) == (PlaybackTrack { solo, ..*old(self) }),
    {
        self.solo = solo;
    }

    /// Current level.
    pub fn get_level(&self) -> (r: i64)
        ensures
            r == self.level,
    {
        self.level
    }

    /// Store a level, clamped to `[0, UNIT]`.
    pub fn set_level(&mut self, level: i64)
        ensures
            *final(self) == (PlaybackTrack {
                level: clamped(level as int, 0, UNIT as int) as i64,
                ..*old(self)
            }),
            0 <= final(self).level <= UNIT,
    {
        self.level = clamp_level(level);
    }

    /// Current pan.
    pub fn get_pan(&self) -> (r: i64)
        ensures
            r == self.pan,
    {
        self.pan
    }

    /// Store a pan, clamped to `[-UNIT, UNIT]`.
    pub fn set_pan(&mut self, pan: i64)
        ensures
            *final(self) == (PlaybackTrack {
                pan: clamped(pan as int, -(UNIT as int), UNIT as int) as i64,
                ..*old(self)
            }),
            -UNIT <= final(self).pan <= UNIT,
    {
        self.pan = clamp_pan(pan);
    }

    /// Current meter peak.
    pub fn get_peak_level(&self) -> (r: i64)
        ensures
            r == self.peak_level,
    {
        self.peak_level
    }

    /// Store a meter peak, clamped to `[0, UNIT]`.
    pub fn update_peak_level(&mut self, new_peak: i64)
        ensures
            *final(self) == (PlaybackTrack {
                peak_level: clamped(new_peak as int, 0, UNIT as int) as i64,
                ..*old(self)
            }),
    {
        self.peak_level = clamp_level(new_peak);
    }

    /// Let the meter fall by `decay_rate`, stopping at zero.
    pub fn decay_peak_level(&mut self, decay_rate: i64)
        requires
            0 <= decay_rate,
            0 <= old(self).peak_level,
        ensures
            *final(self) == (PlaybackTrack {
                peak_level: if old(self).peak_level >= decay_rate {
                    (old(self).peak_level - decay_rate) as i64
                } else {
                    0
                },
                ..*old(self)
            }),
            final(self).peak_level >= 0,
    {
        if self.peak_level >= decay_rate {
            self.peak_level = self.peak_level - decay_rate;
        } else {
            self.peak_level = 0;
        }
    }

    /// Stereo gains from the pan position under the equal-power law.
    pub fn calculate_pan_gains(&self) -> (gains: (i64, i64))
        requires
            self.wf(),
        ensures
            gains.0 == pan_curve(UNIT - self.pan),
            gains.1 == pan_curve(UNIT + self.pan),
            0 <= gains.0 <= UNIT,
            0 <= gains.1 <= UNIT,
    {
        pan_gains(self.pan)
    }
}

} // verus!
