//! Configuration values and their validation rules. Reading and decoding
//! the configuration file belongs to the surrounding application; every
//! acceptance rule is here.

use vstd::prelude::*;
use crate::units::UNIT;
use crate::text::{parse_u64_spec, parse_u64_bounded};

verus! {

use vstd::string::StrSliceExecFns;

/// Why a configuration is rejected.
#[derive(Debug, Clone, Copy, PartialEq, Eq, Structural)]
pub enum ConfigError {
    /// The monitor channel field is not of the form `START-END`.
    InvalidMonitorFormat,
    /// The start channel is not a number in range.
    InvalidMonitorStart,
    /// The end channel is not a number in range.
    InvalidMonitorEnd,
    /// Channels are 1-indexed; zero is not a channel.
    MonitorStartTooSmall,
    /// The end channel precedes the start channel.
    MonitorEndBeforeStart,
    /// The monitor pair must span exactly two channels.
    MonitorNotStereo,
    /// Track numbers are 1-indexed; zero is not a track.
    TrackNumberTooSmall,
    /// A track level lies outside `[0, UNIT]`.
    TrackLevelOutOfRange,
    /// A track pan lies outside `[-UNIT, UNIT]`.
    TrackPanOutOfRange,
    /// A playback file level lies outside `[0, UNIT]`.
    AudioLevelOutOfRange,
    /// A playback file pan lies outside `[-UNIT, UNIT]`.
    AudioPanOutOfRange,
}

/// Device selection, as read from the configuration file.
#[derive(Debug, Clone, PartialEq, Eq)]
pub struct DeviceConfig {
    /// Input device selector (index or name fragment).
    pub audio: Option<String>,
    /// Monitor output channel pair, as `START-END`.
    pub monitorch: Option<String>,
    /// External clock source selector.
    pub midiin: Option<String>,
}

/// Initial control state for one input track. Levels and pans are fixed
/// point (millionths).
#[derive(Debug, Clone, PartialEq, Eq)]
pub struct TrackConfig {
    pub arm: Option<bool>,
    pub monitor: Option<bool>,
    pub solo: Option<bool>,
    pub level: Option<i64>,
    pub pan: Option<i64>,
}

/// A playback file with its initial control state.
#[derive(Debug, Clone, PartialEq, Eq)]
pub struct AudioFileConfig {
    pub file: String,
    pub monitor: Option<bool>,
    pub solo: Option<bool>,
    pub level: Option<i64>,
    pub pan: Option<i64>,
}

/// The whole configuration: device selection, per-track initial state
/// keyed by 1-indexed track number, and the playback file list.
#[derive(Debug, Clone, PartialEq, Eq)]
pub struct Config {
    pub devices: DeviceConfig,
    pub tracks: Vec<(usize, TrackConfig)>,
    pub audio: Vec<AudioFileConfig>,
}

/// Dashes among the first `i` characters.
pub open spec fn dash_count(s: Seq<char>, i: int) -> int
    decreases i,
{
    if i <= 0 {
        0
    } else {
        dash_count(s, i - 1) + if s[i - 1] == '-' {
            1int
        } else {
            0int
        }
    }
}

/// The position of the first dash at or after `i`, or the length when
/// there is none.
pub open spec fn first_dash_from(s: Seq<char>, i: int) -> int
    decreases s.len() - i,
{
    if i < 0 || i >= s.len() {
        s.len() as int
    } else if s[i] == '-' {
        i
    } else {
        first_dash_from(s, i + 1)
    }
}

/// What validating a monitor channel string yields: with exactly one dash
/// splitting two channel numbers, the 1-indexed stereo pair `(start,
/// start + 1)`; otherwise the first rule the string breaks.
pub open spec fn monitor_channels_spec(s: Seq<char>) -> Result<(u16, u16), ConfigError> {
    if dash_count(s, s.len() as int) != 1 {
        Err(ConfigError::InvalidMonitorFormat)
    } else {
        let p = first_dash_from(s, 0);
        match parse_u64_spec(s.take(p), u16::MAX as u64) {
            None => Err(ConfigError::InvalidMonitorStart),
            Some(start) => match parse_u64_spec(s.skip(p + 1), u16::MAX as u64) {
                None => Err(ConfigError::InvalidMonitorEnd),
                Some(end) => if start < 1 {
                    Err(ConfigError::MonitorStartTooSmall)
                } else if end < start {
                    Err(ConfigError::MonitorEndBeforeStart)
                } else if end - start + 1 != 2 {
                    Err(ConfigError::MonitorNotStereo)
                } else {
                    Ok((start as u16, end as u16))
                },
            },
        }
    }
}

proof fn lemma_first_dash_at(s: Seq<char>, p: int)
    requires
        0 <= p < s.len(),
        s[p] == '-',
        forall|k: int| 0 <= k < p ==> s[k] != '-',
    ensures
        first_dash_from(s, 0) == p,
{
    lemma_first_dash_step(s, 0, p);
}

proof fn lemma_first_dash_step(s: Seq<char>, i: int, p: int)
    requires
        0 <= i <= p < s.len(),
        s[p] == '-',
        forall|k: int| 0 <= k < p ==> s[k] != '-',
    ensures
        first_dash_from(s, i) == p,
    decreases p - i,
{
    if i < p {
        lemma_first_dash_step(s, i + 1, p);
    }
}

/// Validate a monitor channel pair of the form `START-END` (for example
/// `17-18`): both 1-indexed numbers present, in order, and spanning
/// exactly two channels.
pub fn validate_monitor_channels(channels_str: &str) -> (r: Result<(u16, u16), ConfigError>)
    ensures
        r == monitor_channels_spec(channels_str@),
        r matches Ok(pair) ==> 1 <= pair.0 && pair.1 == pair.0 + 1,
{
    let len = channels_str.unicode_len();
    let mut dashes: usize = 0;
    let mut first_dash: usize = 0;
    let mut i: usize = 0;
    while i < len
        invariant
            i <= len,
            len == channels_str@.len(),
            dashes == dash_count(channels_str@, i as int),
            dashes <= i,
            dashes > 0 ==> first_dash < i && channels_str@[first_dash as int] == '-' && (forall|
                k: int,
            |
                0 <= k < first_dash ==> channels_str@[k] != '-'),
            dashes == 0 ==> forall|k: int| 0 <= k < i ==> channels_str@[k] != '-',
        decreases len - i,
    {
        let c = channels_str.get_char(i);
        if c as u32 == 45 {
            proof {
                assert(channels_str@[i as int] == '-') by {
                    assert(channels_str@[i as int] as u32 == 45);
                    assert('-' as u32 == 45);
                }
            }
            if dashes == 0 {
                first_dash = i;
            }
            dashes = dashes + 1;
        } else {
            proof {
                assert(channels_str@[i as int] != '-') by {
                    assert(channels_str@[i as int] as u32 != 45);
                    assert('-' as u32 == 45);
                }
            }
        }
        i = i + 1;
    }

    if dashes != 1 {
        return Err(ConfigError::InvalidMonitorFormat);
    }
    proof {
        lemma_first_dash_at(channels_str@, first_dash as int);
    }

    let left = channels_str.substring_char(0, first_dash);
    let right = channels_str.substring_char(first_dash + 1, len);
    proof {
        assert(left@ =~= channels_str@.take(first_dash as int));
        assert(right@ =~= channels_str@.skip(first_dash + 1));
    }

    let start: u64 = match parse_u64_bounded(left, 65535) {
        Some(v) => v,
        None => {
            return Err(ConfigError::InvalidMonitorStart);
        },
    };
    let end: u64 = match parse_u64_bounded(right, 65535) {
        Some(v) => v,
        None => {
            return Err(ConfigError::InvalidMonitorEnd);
        },
    };

    if start < 1 {
        Err(ConfigError::MonitorStartTooSmall)
    } else if end < start {
        Err(ConfigError::MonitorEndBeforeStart)
    } else if end - start + 1 != 2 {
        Err(ConfigError::MonitorNotStereo)
    } else {
        proof {
            assert(end == start + 1);
            assert(1 <= start <= 65534);
        }
        Ok((start as u16, end as u16))
    }
}

/// One track entry keeps the rules: a 1-indexed number and in-range
/// optional level and pan.
pub open spec fn track_entry_valid(entry: (usize, TrackConfig)) -> bool {
    &&& entry.0 >= 1
    &&& match entry.1.level {
        Some(l) => 0 <= l <= UNIT,
        None => true,
    }
    &&& match entry.1.pan {
        Some(p) => -UNIT <= p <= UNIT,
        None => true,
    }
}

/// One playback file entry keeps the level and pan rules. (That the file
/// exists is checked where files are reachable.)
pub open spec fn audio_entry_valid(entry: AudioFileConfig) -> bool {
    &&& match entry.level {
        Some(l) => 0 <= l <= UNIT,
        None => true,
    }
    &&& match entry.pan {
        Some(p) => -UNIT <= p <= UNIT,
        None => true,
    }
}

/// The monitor channel selection, when present, is well formed.
pub open spec fn monitor_selection_valid(c: Config) -> bool {
    match c.devices.monitorch {
        Some(s) => monitor_channels_spec(s@) is Ok,
        None => true,
    }
}

/// The whole configuration keeps every rule.
pub open spec fn config_valid(c: Config) -> bool {
    &&& monitor_selection_valid(c)
    &&& forall|i: int| 0 <= i < c.tracks@.len() ==> track_entry_valid(#[trigger] c.tracks@[i])
    &&& forall|i: int| 0 <= i < c.audio@.len() ==> audio_entry_valid(#[trigger] c.audio@[i])
}

impl Config {
    /// Check every rule: the monitor channel format, each track's number
    /// and ranges, each playback file's ranges. Accepts exactly the valid
    /// configurations.
    pub fn validate(&self) -> (r: Result<(), ConfigError>)
        ensures
            r is Ok <==> config_valid(*self),
    {
        match &self.devices.monitorch {
            Some(monitorch) => {
                match validate_monitor_channels(monitorch.as_str()) {
                    Ok(_) => {},
                    Err(e) => {
                        return Err(e);
                    },
                }
            },
            None => {},
        }

        let mut i: usize = 0;
        while i < self.tracks.len()
            invariant
                i <= self.tracks@.len(),
                monitor_selection_valid(*self),
                forall|k: int| 0 <= k < i ==> track_entry_valid(#[trigger] self.tracks@[k]),
            decreases self.tracks@.len() - i,
        {
            let track_num = self.tracks[i].0;
            if track_num < 1 {
                proof {
                    assert(!track_entry_valid(self.tracks@[i as int]));
                }
                return Err(ConfigError::TrackNumberTooSmall);
            }
            match self.tracks[i].1.level {
                Some(level) => {
                    if level < 0 || level > UNIT {
                        proof {
                            assert(!track_entry_valid(self.tracks@[i as int]));
                        }
                        return Err(ConfigError::TrackLevelOutOfRange);
                    }
                },
                None => {},
            }
            match self.tracks[i].1.pan {
                Some(pan) => {
                    if pan < -UNIT || pan > UNIT {
                        proof {
                            assert(!track_entry_valid(self.tracks@[i as int]));
                        }
                        return Err(ConfigError::TrackPanOutOfRange);
                    }
                },
                None => {},
            }
            i = i + 1;
        }

        let mut j: usize = 0;
        while j < self.audio.len()
            invariant
                j <= self.audio@.len(),
                monitor_selection_valid(*self),
                forall|k: int| 0 <= k < self.tracks@.len() ==> track_entry_valid(
                    #[trigger] self.tracks@[k],
                ),
                forall|k: int| 0 <= k < j ==> audio_entry_valid(#[trigger] self.audio@[k]),
            decreases self.audio@.len() - j,
        {
            match self.audio[j].level {
                Some(level) => {
                    if level < 0 || level > UNIT {
                        proof {
                            assert(!audio_entry_valid(self.audio@[j as int]));
                        }
                        return Err(ConfigError::AudioLevelOutOfRange);
                    }
                },
                None => {},
            }
            match self.audio[j].pan {
                Some(pan) => {
                    if pan < -UNIT || pan > UNIT {
                        proof {
                            assert(!audio_entry_valid(self.audio@[j as int]));
                        }
                        return Err(ConfigError::AudioPanOutOfRange);
                    }
                },
                None => {},
            }
            j = j + 1;
        }
        Ok(())
    }
}

} // verus!
