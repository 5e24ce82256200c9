//! Device selection: resolved device descriptions and the rules that pick
//! one from an operator's selector string. Enumerating the platform's
//! devices belongs to the surrounding application; it hands the resolved
//! lists in.

use vstd::prelude::*;
use crate::text::{lower_of, contains_spec, to_lowercase, str_contains, parse_u64_spec,
    parse_u64_bounded};
use crate::listener::{MidiPortInfo, first_matching_port};

verus! {

use vstd::string::StringExecFns;

/// A resolved audio input device.
#[derive(Debug, Clone)]
pub struct AudioDeviceInfo {
    pub name: String,
    pub is_default: bool,
    pub max_input_channels: usize,
    pub sample_rate: u32,
}

/// Why a device selector resolved to nothing.
#[derive(Debug, Clone, Copy, PartialEq, Eq, Structural)]
pub enum DeviceLookupError {
    /// No device name contains the selector.
    NotFound,
}

/// The index of the first device whose lowercased name contains the
/// lowercased query, if any.
pub open spec fn first_matching_device(devices: Seq<AudioDeviceInfo>, needle: Seq<char>, i: int)
    -> Option<int>
    decreases devices.len() - i,
{
    if i < 0 || i >= devices.len() {
        None
    } else if contains_spec(lower_of(devices[i].name@), needle) {
        Some(i)
    } else {
        first_matching_device(devices, needle, i + 1)
    }
}

/// Find a native playback device id for a device name. This build binds
/// no native playback engine, so no id is ever found.
pub fn find_device_by_name(device_name: &str) -> (r: u32)
    ensures
        r == 0,
{
    0
}

/// What a device selector resolves to: a plain number names that position
/// in the list; otherwise the first device whose name contains the
/// selector, case-insensitively.
pub open spec fn resolve_device_spec(devices: Seq<AudioDeviceInfo>, selector: Seq<char>)
    -> Result<usize, DeviceLookupError> {
    match parse_u64_spec(selector, usize::MAX as u64) {
        Some(i) => Ok(i as usize),
        None => match first_matching_device(devices, lower_of(selector), 0) {
            Some(i) => Ok(i as usize),
            None => Err(DeviceLookupError::NotFound),
        },
    }
}

/// Resolve an audio device selector (index or name fragment) to a device
/// index.
pub fn resolve_audio_device(devices: &Vec<AudioDeviceInfo>, device_str: &str) -> (r: Result<
    usize,
    DeviceLookupError,
>)
    ensures
        r == resolve_device_spec(devices@, device_str@),
{
    match parse_u64_bounded(device_str, usize::MAX as u64) {
        Some(index) => {
            return Ok(index as usize);
        },
        None => {},
    }

    let query = to_lowercase(device_str);
    let mut i: usize = 0;
    while i < devices.len()
        invariant
            i <= devices@.len(),
            parse_u64_spec(device_str@, usize::MAX as u64) is None,
            query@ == lower_of(device_str@),
            first_matching_device(devices@, lower_of(device_str@), 0) == first_matching_device(
                devices@,
                lower_of(device_str@),
                i as int,
            ),
        decreases devices@.len() - i,
    {
        let device_lower = to_lowercase(devices[i].name.as_str());
        if str_contains(device_lower.as_str(), query.as_str()) {
            proof {
                assert(contains_spec(lower_of(devices@[i as int].name@), lower_of(device_str@)));
                assert(first_matching_device(devices@, lower_of(device_str@), i as int) == Some(
                    i as int,
                ));
            }
            return Ok(i);
        }
        i = i + 1;
    }
    Err(DeviceLookupError::NotFound)
}

/// Resolve an external clock source selector (index or name fragment) to
/// a port index.
pub fn resolve_midi_device(ports: &Vec<MidiPortInfo>, device_str: &str) -> (r: Result<
    usize,
    DeviceLookupError,
>)
    ensures
        r == match parse_u64_spec(device_str@, usize::MAX as u64) {
            Some(i) => Ok::<usize, DeviceLookupError>(i as usize),
            None => match first_matching_port(ports@, lower_of(device_str@)) {
                Some(p) => Ok(p.index),
                None => Err(DeviceLookupError::NotFound),
            },
        },
{
    match parse_u64_bounded(device_str, usize::MAX as u64) {
        Some(index) => {
            return Ok(index as usize);
        },
        None => {},
    }
    match crate::listener::get_port_by_name(ports, device_str) {
        Ok(index) => Ok(index),
        Err(_) => Err(DeviceLookupError::NotFound),
    }
}

} // verus!
