//! The real-time audio callback core.
//!
//! [`render_buffer`] is the pure per-buffer computation: from an interleaved
//! input buffer and the track state it produces the exact sample batches of
//! the four streams (per-track recording, playback, monitor, stereo mix)
//! and the new meter peaks and play positions. [`process_audio_input`] is
//! the callback body: it renders and then pushes each batch into its ring,
//! dropping whatever exceeds the free room rather than ever blocking.
//!
//! Every quantity is fixed point (see [`crate::units`]); the spec functions
//! here are the single definition of what one buffer pass means.

use vstd::prelude::*;
use crate::units::{UNIT, SAMPLE_LIMIT, MAX_TRACKS, clamped, abs_spec, scale_spec, pan_curve};
use crate::units::{scale_by_gain, abs_i64, max_i64, pan_gains};
use crate::track::Track;
use crate::playback::PlaybackTrack;
use crate::ring::{rec_queue, sample_queue, sample_popped, subsequence_of};

verus! {

/// Whether a track's input channel exists in this buffer layout.
pub open spec fn in_channel_ok(t: Track, channels: int) -> bool {
    t.input_channel < channels
}

/// Whether any input or playback track is soloed.
pub open spec fn any_solo_spec(tracks: Seq<Track>, playback: Seq<PlaybackTrack>) -> bool {
    (exists|i: int| 0 <= i < tracks.len() && tracks[i].solo) || (exists|i: int|
        0 <= i < playback.len() && playback[i].solo)
}

/// Whether a track is heard: its solo flag while anything is soloed, its
/// monitoring flag otherwise.
pub open spec fn heard(monitoring: bool, solo: bool, any_solo: bool) -> bool {
    if any_solo {
        solo
    } else {
        monitoring
    }
}

/// The level-scaled sample a track reads from frame `f`.
pub open spec fn processed_sample(input: Seq<i64>, channels: int, f: int, t: Track) -> int {
    scale_spec(input[f * channels + t.input_channel] as int, t.level as int)
}

/// The recording entries of frame `f` contributed by the first `j` tracks:
/// one `(id, sample)` pair per armed track with a valid channel, in track
/// order, only while recording.
pub open spec fn rec_frame(
    input: Seq<i64>,
    channels: int,
    tracks: Seq<Track>,
    recording: bool,
    f: int,
    j: int,
) -> Seq<(usize, i64)>
    decreases j,
{
    if j <= 0 {
        Seq::empty()
    } else {
        let pre = rec_frame(input, channels, tracks, recording, f, j - 1);
        let t = tracks[j - 1];
        if recording && t.armed && in_channel_ok(t, channels) {
            pre.push((t.id, processed_sample(input, channels, f, t) as i64))
        } else {
            pre
        }
    }
}

/// The recording entries of the first `f` frames, frame-major.
pub open spec fn rec_batch(
    input: Seq<i64>,
    channels: int,
    tracks: Seq<Track>,
    recording: bool,
    f: int,
) -> Seq<(usize, i64)>
    decreases f,
{
    if f <= 0 {
        Seq::empty()
    } else {
        rec_batch(input, channels, tracks, recording, f - 1) + rec_frame(
            input,
            channels,
            tracks,
            recording,
            f - 1,
            tracks.len() as int,
        )
    }
}

/// The equal-power gain of a track's pan for one side: the descending side
/// of the curve on the left, the ascending side on the right.
pub open spec fn side_gain(pan: int, right: bool) -> int {
    if right {
        pan_curve(UNIT + pan)
    } else {
        pan_curve(UNIT - pan)
    }
}

/// An input track's contribution to one side of the monitor bus at frame
/// `f`: its processed sample through its pan gain while it is heard.
pub open spec fn in_contrib(
    input: Seq<i64>,
    channels: int,
    t: Track,
    any_solo: bool,
    f: int,
    right: bool,
) -> int {
    if in_channel_ok(t, channels) && heard(t.monitoring, t.solo, any_solo) {
        scale_spec(processed_sample(input, channels, f, t), side_gain(t.pan as int, right))
    } else {
        0
    }
}

/// The monitor-bus sum over the first `j` input tracks for one side of
/// frame `f`.
pub open spec fn in_sum(
    input: Seq<i64>,
    channels: int,
    tracks: Seq<Track>,
    any_solo: bool,
    f: int,
    j: int,
    right: bool,
) -> int
    decreases j,
{
    if j <= 0 {
        0
    } else {
        in_sum(input, channels, tracks, any_solo, f, j - 1, right) + in_contrib(
            input,
            channels,
            tracks[j - 1],
            any_solo,
            f,
            right,
        )
    }
}

/// Whether a playback track produces sound: the transport is playing and
/// it has frames to play.
pub open spec fn pb_active(p: PlaybackTrack, playing: bool) -> bool {
    playing && p.num_frames_spec() > 0
}

/// The frame of `p` heard at buffer frame `f`: its position advanced by
/// `f`, looping.
pub open spec fn pb_pos(p: PlaybackTrack, f: int) -> int {
    (p.position + f) % p.num_frames_spec()
}

/// The raw sample a playback track contributes to one side at frame `f`:
/// mono tracks feed both sides, stereo tracks interleave.
pub open spec fn pb_raw(p: PlaybackTrack, f: int, right: bool) -> int {
    if p.channels == 1 {
        p.samples@[pb_pos(p, f)] as int
    } else {
        p.samples@[2 * pb_pos(p, f) + if right { 1int } else { 0int }] as int
    }
}

/// A playback track's level-scaled sample for one side at frame `f`.
pub open spec fn pb_leveled(p: PlaybackTrack, f: int, right: bool) -> int {
    scale_spec(pb_raw(p, f, right), p.level as int)
}

/// A playback track's contribution to one side of the playback bus at
/// frame `f`: its leveled sample through its pan gain, while active and
/// heard.
pub open spec fn pb_contrib(
    p: PlaybackTrack,
    playing: bool,
    any_solo: bool,
    f: int,
    right: bool,
) -> int {
    if pb_active(p, playing) && heard(p.monitoring, p.solo, any_solo) {
        scale_spec(pb_leveled(p, f, right), side_gain(p.pan as int, right))
    } else {
        0
    }
}

/// The playback-bus sum over the first `j` playback tracks for one side of
/// frame `f`.
pub open spec fn pb_sum(
    playback: Seq<PlaybackTrack>,
    playing: bool,
    any_solo: bool,
    f: int,
    j: int,
    right: bool,
) -> int
    decreases j,
{
    if j <= 0 {
        0
    } else {
        pb_sum(playback, playing, any_solo, f, j - 1, right) + pb_contrib(
            playback[j - 1],
            playing,
            any_solo,
            f,
            right,
        )
    }
}

/// Every track's control values and samples lie in their documented
/// ranges.
pub open spec fn tracks_wf(tracks: Seq<Track>) -> bool {
    forall|i: int| 0 <= i < tracks.len() ==> (#[trigger] tracks[i]).wf()
}

/// Every playback track is well formed.
pub open spec fn playback_wf(playback: Seq<PlaybackTrack>) -> bool {
    forall|i: int| 0 <= i < playback.len() ==> (#[trigger] playback[i]).wf()
}

/// Every sample of the input buffer is within the amplitude limit.
pub open spec fn input_wf(input: Seq<i64>) -> bool {
    forall|i: int| 0 <= i < input.len() ==> -SAMPLE_LIMIT <= #[trigger] input[i] <= SAMPLE_LIMIT
}

/// A meter peak after seeing one amplitude: written only when the
/// amplitude exceeds the held peak, and held to `[0, UNIT]` then.
pub open spec fn peak_step(prev: int, a: int) -> int {
    if a > prev {
        clamped(a, 0, UNIT as int)
    } else {
        prev
    }
}

/// An input track's meter peak after the first `f` frames of the buffer.
pub open spec fn in_peak_after(input: Seq<i64>, channels: int, t: Track, f: int) -> int
    decreases f,
{
    if f <= 0 {
        t.peak_level as int
    } else {
        let prev = in_peak_after(input, channels, t, f - 1);
        if in_channel_ok(t, channels) {
            peak_step(prev, abs_spec(processed_sample(input, channels, f - 1, t)))
        } else {
            prev
        }
    }
}

/// A playback track's meter peak after the first `f` frames: fed by the
/// larger magnitude of its two leveled sides.
pub open spec fn pb_peak_after(p: PlaybackTrack, playing: bool, f: int) -> int
    decreases f,
{
    if f <= 0 {
        p.peak_level as int
    } else {
        let prev = pb_peak_after(p, playing, f - 1);
        if pb_active(p, playing) {
            let a_l = abs_spec(pb_leveled(p, f - 1, false));
            let a_r = abs_spec(pb_leveled(p, f - 1, true));
            peak_step(prev, if a_l >= a_r { a_l } else { a_r })
        } else {
            prev
        }
    }
}

/// Whether any of the first `j` input tracks is soloed.
fn any_track_solo(tracks: &Vec<Track>) -> (r: bool)
    ensures
        r == exists|i: int| 0 <= i < tracks@.len() && tracks@[i].solo,
{
    let mut j: usize = 0;
    while j < tracks.len()
        invariant
            j <= tracks@.len(),
            forall|i: int| 0 <= i < j ==> !tracks@[i].solo,
        decreases tracks@.len() - j,
    {
        if tracks[j].solo {
            return true;
        }
        j = j + 1;
    }
    false
}

/// Whether any playback track is soloed.
fn any_playback_solo(playback: &Vec<PlaybackTrack>) -> (r: bool)
    ensures
        r == exists|i: int| 0 <= i < playback@.len() && playback@[i].solo,
{
    let mut j: usize = 0;
    while j < playback.len()
        invariant
            j <= playback@.len(),
            forall|i: int| 0 <= i < j ==> !playback@[i].solo,
        decreases playback@.len() - j,
    {
        if playback[j].solo {
            return true;
        }
        j = j + 1;
    }
    false
}

/// Whether any track at all is soloed, computed once per buffer.
pub fn compute_any_solo(tracks: &Vec<Track>, playback: &Vec<PlaybackTrack>) -> (r: bool)
    ensures
        r == any_solo_spec(tracks@, playback@),
{
    let a = any_track_solo(tracks);
    let b = any_playback_solo(playback);
    a || b
}

/// One frame of the input-track pass: appends the recording entries of
/// armed tracks and returns the frame's monitor-bus pair.
fn mix_input_frame(
    input: &Vec<i64>,
    tracks: &Vec<Track>,
    recording: bool,
    any_solo: bool,
    f: usize,
    channels: usize,
    recorded: &mut Vec<(usize, i64)>,
) -> (lr: (i64, i64))
    requires
        channels >= 1,
        (f + 1) * channels <= input@.len(),
        input_wf(input@),
        tracks_wf(tracks@),
        tracks@.len() <= MAX_TRACKS,
    ensures
        final(recorded)@ == old(recorded)@ + rec_frame(
            input@,
            channels as int,
            tracks@,
            recording,
            f as int,
            tracks@.len() as int,
        ),
        lr.0 == in_sum(
            input@,
            channels as int,
            tracks@,
            any_solo,
            f as int,
            tracks@.len() as int,
            false,
        ),
        lr.1 == in_sum(
            input@,
            channels as int,
            tracks@,
            any_solo,
            f as int,
            tracks@.len() as int,
            true,
        ),
        abs_spec(lr.0 as int) <= tracks@.len() * SAMPLE_LIMIT,
        abs_spec(lr.1 as int) <= tracks@.len() * SAMPLE_LIMIT,
{
    let input_len: usize = input.len();
    let ghost rec0 = recorded@;
    let mut acc_l: i64 = 0;
    let mut acc_r: i64 = 0;
    let mut j: usize = 0;
    while j < tracks.len()
        invariant
            j <= tracks@.len() <= MAX_TRACKS,
            channels >= 1,
            (f + 1) * channels <= input@.len(),
            input@.len() == input_len,
            input_wf(input@),
            tracks_wf(tracks@),
            recorded@ == rec0 + rec_frame(
                input@,
                channels as int,
                tracks@,
                recording,
                f as int,
                j as int,
            ),
            acc_l == in_sum(input@, channels as int, tracks@, any_solo, f as int, j as int, false),
            acc_r == in_sum(input@, channels as int, tracks@, any_solo, f as int, j as int, true),
            abs_spec(acc_l as int) <= j * SAMPLE_LIMIT,
            abs_spec(acc_r as int) <= j * SAMPLE_LIMIT,
        decreases tracks@.len() - j,
    {
        let ghost t0 = tracks@[j as int];
        let input_channel = tracks[j].input_channel;
        let level = tracks[j].level;
        if input_channel < channels {
            proof {
                assert(f * channels + input_channel < (f + 1) * channels) by (nonlinear_arith)
                    requires input_channel < channels, f >= 0, channels >= 1,
                {}
            }
            let sample_idx: usize = f * channels + input_channel;
            let input_sample = input[sample_idx];
            let processed = scale_by_gain(input_sample, level);
            proof {
                assert(processed as int == processed_sample(
                    input@,
                    channels as int,
                    f as int,
                    t0,
                ));
            }

            // Recording entries for armed tracks.
            if recording && tracks[j].armed {
                let id = tracks[j].id;
                recorded.push((id, processed));
            }

            // Monitor bus.
            let is_heard = if any_solo {
                tracks[j].solo
            } else {
                tracks[j].monitoring
            };
            if is_heard {
                let gains = pan_gains(tracks[j].pan);
                let contrib_l = scale_by_gain(processed, gains.0);
                let contrib_r = scale_by_gain(processed, gains.1);
                proof {
                    assert(abs_spec(acc_l + contrib_l) <= (j + 1) * SAMPLE_LIMIT
                        && abs_spec(acc_l + contrib_l) < 2_000_000_000_000) by (nonlinear_arith)
                        requires
                            abs_spec(acc_l as int) <= j * SAMPLE_LIMIT,
                            abs_spec(contrib_l as int) <= SAMPLE_LIMIT,
                            0 <= j <= 65536,
                            SAMPLE_LIMIT == 16_000_000,
                    {}
                    assert(abs_spec(acc_r + contrib_r) <= (j + 1) * SAMPLE_LIMIT
                        && abs_spec(acc_r + contrib_r) < 2_000_000_000_000) by (nonlinear_arith)
                        requires
                            abs_spec(acc_r as int) <= j * SAMPLE_LIMIT,
                            abs_spec(contrib_r as int) <= SAMPLE_LIMIT,
                            0 <= j <= 65536,
                            SAMPLE_LIMIT == 16_000_000,
                    {}
                }
                acc_l = acc_l + contrib_l;
                acc_r = acc_r + contrib_r;
            } else {
                proof {
                    assert(abs_spec(acc_l as int) <= (j + 1) * SAMPLE_LIMIT) by (nonlinear_arith)
                        requires abs_spec(acc_l as int) <= j * SAMPLE_LIMIT, j >= 0,
                    {}
                    assert(abs_spec(acc_r as int) <= (j + 1) * SAMPLE_LIMIT) by (nonlinear_arith)
                        requires abs_spec(acc_r as int) <= j * SAMPLE_LIMIT, j >= 0,
                    {}
                }
            }
        } else {
            proof {
                assert(abs_spec(acc_l as int) <= (j + 1) * SAMPLE_LIMIT) by (nonlinear_arith)
                    requires abs_spec(acc_l as int) <= j * SAMPLE_LIMIT, j >= 0,
                {}
                assert(abs_spec(acc_r as int) <= (j + 1) * SAMPLE_LIMIT) by (nonlinear_arith)
                    requires abs_spec(acc_r as int) <= j * SAMPLE_LIMIT, j >= 0,
                {}
            }
        }
        j = j + 1;
    }
    (acc_l, acc_r)
}

/// The looping sample index of playback track `p` at buffer frame `f`,
/// with the fact that it addresses a valid frame.
fn playback_frame_index(p: &PlaybackTrack, f: usize) -> (idx: usize)
    requires
        p.wf(),
        p.num_frames_spec() > 0,
    ensures
        idx == pb_pos(*p, f as int),
        idx < p.num_frames_spec(),
{
    let nf = p.num_frames();
    let idx_wide: u128 = (p.position as u128 + f as u128) % (nf as u128);
    idx_wide as usize
}

/// One frame of the playback pass: returns the playback-bus pair.
fn mix_playback_frame(
    playback: &Vec<PlaybackTrack>,
    playing: bool,
    any_solo: bool,
    f: usize,
) -> (lr: (i64, i64))
    requires
        playback_wf(playback@),
        playback@.len() <= MAX_TRACKS,
    ensures
        lr.0 == pb_sum(playback@, playing, any_solo, f as int, playback@.len() as int, false),
        lr.1 == pb_sum(playback@, playing, any_solo, f as int, playback@.len() as int, true),
        abs_spec(lr.0 as int) <= playback@.len() * SAMPLE_LIMIT,
        abs_spec(lr.1 as int) <= playback@.len() * SAMPLE_LIMIT,
{
    let mut acc_l: i64 = 0;
    let mut acc_r: i64 = 0;
    let mut j: usize = 0;
    while j < playback.len()
        invariant
            j <= playback@.len() <= MAX_TRACKS,
            playback_wf(playback@),
            acc_l == pb_sum(playback@, playing, any_solo, f as int, j as int, false),
            acc_r == pb_sum(playback@, playing, any_solo, f as int, j as int, true),
            abs_spec(acc_l as int) <= j * SAMPLE_LIMIT,
            abs_spec(acc_r as int) <= j * SAMPLE_LIMIT,
        decreases playback@.len() - j,
    {
        let ghost p0 = playback@[j as int];
        let nf = playback[j].num_frames();
        let is_heard = if any_solo {
            playback[j].solo
        } else {
            playback[j].monitoring
        };
        if playing && nf > 0 && is_heard {
            let idx = playback_frame_index(&playback[j], f);
            let samples_len: usize = playback[j].samples.len();
            let raw_l: i64;
            let raw_r: i64;
            if playback[j].channels == 1 {
                proof {
                    assert(samples_len as int / 1int == samples_len as int);
                }
                let sample = playback[j].samples[idx];
                raw_l = sample;
                raw_r = sample;
            } else {
                proof {
                    vstd::arithmetic::div_mod::lemma_fundamental_div_mod(samples_len as int, 2);
                    assert(2 * idx + 1 < samples_len);
                }
                raw_l = playback[j].samples[2 * idx];
                raw_r = playback[j].samples[2 * idx + 1];
            }
            proof {
                assert(raw_l as int == pb_raw(p0, f as int, false));
                assert(raw_r as int == pb_raw(p0, f as int, true));
            }
            let lvl_l = scale_by_gain(raw_l, playback[j].level);
            let lvl_r = scale_by_gain(raw_r, playback[j].level);
            let gains = pan_gains(playback[j].pan);
            let contrib_l = scale_by_gain(lvl_l, gains.0);
            let contrib_r = scale_by_gain(lvl_r, gains.1);
            proof {
                assert(abs_spec(acc_l + contrib_l) <= (j + 1) * SAMPLE_LIMIT
                    && abs_spec(acc_l + contrib_l) < 2_000_000_000_000) by (nonlinear_arith)
                    requires
                        abs_spec(acc_l as int) <= j * SAMPLE_LIMIT,
                        abs_spec(contrib_l as int) <= SAMPLE_LIMIT,
                        0 <= j <= 65536,
                        SAMPLE_LIMIT == 16_000_000,
                {}
                assert(abs_spec(acc_r + contrib_r) <= (j + 1) * SAMPLE_LIMIT
                    && abs_spec(acc_r + contrib_r) < 2_000_000_000_000) by (nonlinear_arith)
                    requires
                        abs_spec(acc_r as int) <= j * SAMPLE_LIMIT,
                        abs_spec(contrib_r as int) <= SAMPLE_LIMIT,
                        0 <= j <= 65536,
                        SAMPLE_LIMIT == 16_000_000,
                {}
            }
            acc_l = acc_l + contrib_l;
            acc_r = acc_r + contrib_r;
        } else {
            proof {
                assert(pb_contrib(p0, playing, any_solo, f as int, false) == 0);
                assert(pb_contrib(p0, playing, any_solo, f as int, true) == 0);
                assert(abs_spec(acc_l as int) <= (j + 1) * SAMPLE_LIMIT) by (nonlinear_arith)
                    requires abs_spec(acc_l as int) <= j * SAMPLE_LIMIT, j >= 0,
                {}
                assert(abs_spec(acc_r as int) <= (j + 1) * SAMPLE_LIMIT) by (nonlinear_arith)
                    requires abs_spec(acc_r as int) <= j * SAMPLE_LIMIT, j >= 0,
                {}
            }
        }
        j = j + 1;
    }
    (acc_l, acc_r)
}


/// A playback track's position after a buffer of `frames`: advanced with
/// looping while sound was produced, untouched otherwise.
pub open spec fn advanced_position(p: PlaybackTrack, playing: bool, frames: int) -> int {
    if playing && p.num_frames_spec() > 0 {
        (p.position + frames) % p.num_frames_spec()
    } else {
        p.position as int
    }
}

/// The meter peak never leaves `[0, UNIT]` and never falls below its
/// starting point while a buffer is processed.
pub proof fn lemma_in_peak_bounds(input: Seq<i64>, channels: int, t: Track, f: int)
    requires
        0 <= t.peak_level <= UNIT,
        f >= 0,
    ensures
        0 <= in_peak_after(input, channels, t, f) <= UNIT,
        in_peak_after(input, channels, t, f) >= t.peak_level,
    decreases f,
{
    if f > 0 {
        lemma_in_peak_bounds(input, channels, t, f - 1);
    }
}

/// Write-max is monotonic within a buffer: processing more frames never
/// lowers an input track's meter peak.
pub proof fn lemma_peak_monotone_in_buffer(
    input: Seq<i64>,
    channels: int,
    t: Track,
    f1: int,
    f2: int,
)
    requires
        0 <= t.peak_level <= UNIT,
        0 <= f1 <= f2,
    ensures
        in_peak_after(input, channels, t, f1) <= in_peak_after(input, channels, t, f2),
    decreases f2 - f1,
{
    if f1 < f2 {
        lemma_peak_monotone_in_buffer(input, channels, t, f1, f2 - 1);
        lemma_in_peak_bounds(input, channels, t, f2 - 1);
    }
}

/// A track without a valid channel keeps its meter peak through a buffer.
proof fn lemma_in_peak_no_channel(input: Seq<i64>, channels: int, t: Track, f: int)
    requires
        !in_channel_ok(t, channels),
        f >= 0,
    ensures
        in_peak_after(input, channels, t, f) == t.peak_level,
    decreases f,
{
    if f > 0 {
        lemma_in_peak_no_channel(input, channels, t, f - 1);
    }
}

/// A playback track's meter peak stays in `[0, UNIT]`.
pub proof fn lemma_pb_peak_bounds(p: PlaybackTrack, playing: bool, f: int)
    requires
        0 <= p.peak_level <= UNIT,
        f >= 0,
    ensures
        0 <= pb_peak_after(p, playing, f) <= UNIT,
        pb_peak_after(p, playing, f) >= p.peak_level,
    decreases f,
{
    if f > 0 {
        lemma_pb_peak_bounds(p, playing, f - 1);
    }
}

/// An inactive playback track keeps its meter peak through a buffer.
proof fn lemma_pb_peak_inactive(p: PlaybackTrack, playing: bool, f: int)
    requires
        !pb_active(p, playing),
        f >= 0,
    ensures
        pb_peak_after(p, playing, f) == p.peak_level,
    decreases f,
{
    if f > 0 {
        lemma_pb_peak_inactive(p, playing, f - 1);
    }
}

/// Fold every input track's meter peak over the buffer by write-max.
fn update_input_peaks(input: &Vec<i64>, tracks: &mut Vec<Track>, channels: usize, frames: usize)
    requires
        channels >= 1,
        frames * channels <= input@.len(),
        input_wf(input@),
        tracks_wf(old(tracks)@),
    ensures
        final(tracks)@.len() == old(tracks)@.len(),
        forall|j: int|
            0 <= j < old(tracks)@.len() ==> final(tracks)@[j] == (Track {
                peak_level: in_peak_after(
                    input@,
                    channels as int,
                    #[trigger] old(tracks)@[j],
                    frames as int,
                ) as i64,
                ..old(tracks)@[j]
            }),
        tracks_wf(final(tracks)@),
{
    let input_len: usize = input.len();
    let ghost tracks0 = tracks@;
    let mut j: usize = 0;
    while j < tracks.len()
        invariant
            j <= tracks0.len() == tracks@.len(),
            channels >= 1,
            frames * channels <= input@.len(),
            input@.len() == input_len,
            input_wf(input@),
            tracks_wf(tracks0),
            tracks_wf(tracks@),
            forall|i: int|
                0 <= i < j ==> tracks@[i] == (Track {
                    peak_level: in_peak_after(
                        input@,
                        channels as int,
                        #[trigger] tracks0[i],
                        frames as int,
                    ) as i64,
                    ..tracks0[i]
                }),
            forall|i: int| j <= i < tracks0.len() ==> tracks@[i] == #[trigger] tracks0[i],
        decreases tracks0.len() - j,
    {
        let ghost t0 = tracks0[j as int];
        let input_channel = tracks[j].input_channel;
        let level = tracks[j].level;
        if input_channel < channels {
            let mut peak = tracks[j].get_peak_level();
            let mut k: usize = 0;
            while k < frames
                invariant
                    k <= frames,
                    channels >= 1,
                    frames * channels <= input@.len(),
                    input@.len() == input_len,
                    input_wf(input@),
                    input_channel == t0.input_channel,
                    level == t0.level,
                    0 <= level <= UNIT,
                    input_channel < channels,
                    peak == in_peak_after(input@, channels as int, t0, k as int),
                    0 <= peak <= UNIT,
                decreases frames - k,
            {
                proof {
                    assert(k * channels + input_channel < frames * channels) by (nonlinear_arith)
                        requires input_channel < channels, 0 <= k < frames, channels >= 1,
                    {}
                }
                let sample_idx: usize = k * channels + input_channel;
                let input_sample = input[sample_idx];
                let processed = scale_by_gain(input_sample, level);
                proof {
                    assert(processed as int == processed_sample(
                        input@,
                        channels as int,
                        k as int,
                        t0,
                    ));
                }
                let a = abs_i64(processed);
                if a > peak {
                    peak = crate::units::clamp_level(a);
                }
                k = k + 1;
            }
            let t = &mut tracks[j];
            t.update_peak_level(peak);
            proof {
                assert(tracks@[j as int] == (Track {
                    peak_level: in_peak_after(
                        input@,
                        channels as int,
                        t0,
                        frames as int,
                    ) as i64,
                    ..t0
                }));
            }
        } else {
            proof {
                lemma_in_peak_no_channel(input@, channels as int, t0, frames as int);
                assert(tracks@[j as int] == (Track {
                    peak_level: in_peak_after(
                        input@,
                        channels as int,
                        t0,
                        frames as int,
                    ) as i64,
                    ..t0
                }));
            }
        }
        j = j + 1;
    }
}

/// Fold every playback track's meter peak over the buffer by write-max,
/// fed by the larger magnitude of its two leveled sides.
fn update_playback_peaks(playback: &mut Vec<PlaybackTrack>, playing: bool, frames: usize)
    requires
        playback_wf(old(playback)@),
    ensures
        final(playback)@.len() == old(playback)@.len(),
        forall|j: int|
            0 <= j < old(playback)@.len() ==> final(playback)@[j] == (PlaybackTrack {
                peak_level: pb_peak_after(
                    #[trigger] old(playback)@[j],
                    playing,
                    frames as int,
                ) as i64,
                ..old(playback)@[j]
            }),
        playback_wf(final(playback)@),
{
    let ghost playback0 = playback@;
    let mut j: usize = 0;
    while j < playback.len()
        invariant
            j <= playback0.len() == playback@.len(),
            playback_wf(playback0),
            playback_wf(playback@),
            forall|i: int|
                0 <= i < j ==> playback@[i] == (PlaybackTrack {
                    peak_level: pb_peak_after(
                        #[trigger] playback0[i],
                        playing,
                        frames as int,
                    ) as i64,
                    ..playback0[i]
                }),
            forall|i: int| j <= i < playback0.len() ==> playback@[i] == #[trigger] playback0[i],
        decreases playback0.len() - j,
    {
        let ghost p0 = playback0[j as int];
        let nf = playback[j].num_frames();
        if playing && nf > 0 {
            let mut peak = playback[j].get_peak_level();
            let mut k: usize = 0;
            while k < frames
                invariant
                    k <= frames,
                    j < playback0.len() == playback@.len(),
                    playback@[j as int] == p0,
                    playback_wf(playback@),
                    p0.wf(),
                    playing,
                    p0.num_frames_spec() > 0,
                    peak == pb_peak_after(p0, playing, k as int),
                    0 <= peak <= UNIT,
                decreases frames - k,
            {
                let idx = playback_frame_index(&playback[j], k);
                let samples_len: usize = playback[j].samples.len();
                let raw_l: i64;
                let raw_r: i64;
                if playback[j].channels == 1 {
                    proof {
                        assert(samples_len as int / 1int == samples_len as int);
                    }
                    let sample = playback[j].samples[idx];
                    raw_l = sample;
                    raw_r = sample;
                } else {
                    proof {
                        vstd::arithmetic::div_mod::lemma_fundamental_div_mod(
                            samples_len as int,
                            2,
                        );
                        assert(2 * idx + 1 < samples_len);
                    }
                    raw_l = playback[j].samples[2 * idx];
                    raw_r = playback[j].samples[2 * idx + 1];
                }
                proof {
                    assert(raw_l as int == pb_raw(p0, k as int, false));
                    assert(raw_r as int == pb_raw(p0, k as int, true));
                }
                let lvl_l = scale_by_gain(raw_l, playback[j].level);
                let lvl_r = scale_by_gain(raw_r, playback[j].level);
                let a = max_i64(abs_i64(lvl_l), abs_i64(lvl_r));
                if a > peak {
                    peak = crate::units::clamp_level(a);
                }
                k = k + 1;
            }
            let p = &mut playback[j];
            p.update_peak_level(peak);
            proof {
                assert(playback@[j as int] == (PlaybackTrack {
                    peak_level: pb_peak_after(p0, playing, frames as int) as i64,
                    ..p0
                }));
            }
        } else {
            proof {
                lemma_pb_peak_inactive(p0, playing, frames as int);
                assert(playback@[j as int] == (PlaybackTrack {
                    peak_level: pb_peak_after(p0, playing, frames as int) as i64,
                    ..p0
                }));
            }
        }
        j = j + 1;
    }
}

/// Advance every playback track's position by the buffer length, looping,
/// while the transport is playing.
fn advance_playback_positions(playback: &mut Vec<PlaybackTrack>, playing: bool, frames: usize)
    requires
        playback_wf(old(playback)@),
    ensures
        final(playback)@.len() == old(playback)@.len(),
        forall|j: int|
            0 <= j < old(playback)@.len() ==> final(playback)@[j] == (PlaybackTrack {
                position: advanced_position(
                    #[trigger] old(playback)@[j],
                    playing,
                    frames as int,
                ) as usize,
                ..old(playback)@[j]
            }),
        playback_wf(final(playback)@),
{
    let ghost playback0 = playback@;
    let mut j: usize = 0;
    while j < playback.len()
        invariant
            j <= playback0.len() == playback@.len(),
            playback_wf(playback0),
            playback_wf(playback@),
            forall|i: int|
                0 <= i < j ==> playback@[i] == (PlaybackTrack {
                    position: advanced_position(
                        #[trigger] playback0[i],
                        playing,
                        frames as int,
                    ) as usize,
                    ..playback0[i]
                }),
            forall|i: int| j <= i < playback0.len() ==> playback@[i] == #[trigger] playback0[i],
        decreases playback0.len() - j,
    {
        let ghost p0 = playback0[j as int];
        if playing {
            let p = &mut playback[j];
            p.advance_position(frames);
        }
        proof {
            assert(playback@[j as int] == (PlaybackTrack {
                position: advanced_position(p0, playing, frames as int) as usize,
                ..p0
            }));
        }
        j = j + 1;
    }
}


/// The playback stream of the first `f` frames: one interleaved stereo
/// pair per frame.
pub open spec fn pb_stream(
    playback: Seq<PlaybackTrack>,
    playing: bool,
    any_solo: bool,
    f: int,
) -> Seq<i64>
    decreases f,
{
    if f <= 0 {
        Seq::empty()
    } else {
        pb_stream(playback, playing, any_solo, f - 1).push(
            pb_sum(playback, playing, any_solo, f - 1, playback.len() as int, false) as i64,
        ).push(pb_sum(playback, playing, any_solo, f - 1, playback.len() as int, true) as i64)
    }
}

/// One side of the monitor pair at frame `f`: the input-track bus plus the
/// playback bus.
pub open spec fn monitor_pair_side(
    input: Seq<i64>,
    channels: int,
    tracks: Seq<Track>,
    playback: Seq<PlaybackTrack>,
    playing: bool,
    any_solo: bool,
    f: int,
    right: bool,
) -> int {
    in_sum(input, channels, tracks, any_solo, f, tracks.len() as int, right) + pb_sum(
        playback,
        playing,
        any_solo,
        f,
        playback.len() as int,
        right,
    )
}

/// The monitor stream of the first `f` frames: one interleaved stereo pair
/// per frame, each the sum of the input and playback busses.
pub open spec fn monitor_stream(
    input: Seq<i64>,
    channels: int,
    tracks: Seq<Track>,
    playback: Seq<PlaybackTrack>,
    playing: bool,
    any_solo: bool,
    f: int,
) -> Seq<i64>
    decreases f,
{
    if f <= 0 {
        Seq::empty()
    } else {
        monitor_stream(input, channels, tracks, playback, playing, any_solo, f - 1).push(
            monitor_pair_side(
                input,
                channels,
                tracks,
                playback,
                playing,
                any_solo,
                f - 1,
                false,
            ) as i64,
        ).push(
            monitor_pair_side(input, channels, tracks, playback, playing, any_solo, f - 1, true)
                as i64,
        )
    }
}

/// Frames in an interleaved buffer; a trailing partial frame is ignored.
pub open spec fn buffer_frames(input_len: int, channels: int) -> int {
    input_len / channels
}

/// What one buffer pass produces for the four streams.
pub struct RenderedBuffer {
    /// Tagged samples bound for the per-track writer, frame-major.
    pub recorded: Vec<(usize, i64)>,
    /// The playback bus, interleaved stereo.
    pub playback_out: Vec<i64>,
    /// The monitor bus (input plus playback), interleaved stereo.
    pub monitor_out: Vec<i64>,
    /// The stereo mix copy of the monitor bus, present only while
    /// recording with the mix armed.
    pub mix_out: Vec<i64>,
}

/// Render one interleaved input buffer: compute the four stream batches
/// exactly, fold every meter peak by write-max, and advance the playback
/// positions with looping.
pub fn render_buffer(
    input: &Vec<i64>,
    tracks: &mut Vec<Track>,
    playback: &mut Vec<PlaybackTrack>,
    recording: bool,
    playing: bool,
    mix_recording_armed: bool,
    channels: usize,
) -> (out: RenderedBuffer)
    requires
        channels >= 1,
        input_wf(input@),
        tracks_wf(old(tracks)@),
        playback_wf(old(playback)@),
        old(tracks)@.len() <= MAX_TRACKS,
        old(playback)@.len() <= MAX_TRACKS,
    ensures
        out.recorded@ == rec_batch(
            input@,
            channels as int,
            old(tracks)@,
            recording,
            buffer_frames(input@.len() as int, channels as int),
        ),
        out.playback_out@ == pb_stream(
            old(playback)@,
            playing,
            any_solo_spec(old(tracks)@, old(playback)@),
            buffer_frames(input@.len() as int, channels as int),
        ),
        out.monitor_out@ == monitor_stream(
            input@,
            channels as int,
            old(tracks)@,
            old(playback)@,
            playing,
            any_solo_spec(old(tracks)@, old(playback)@),
            buffer_frames(input@.len() as int, channels as int),
        ),
        out.mix_out@ == if recording && mix_recording_armed {
            monitor_stream(
                input@,
                channels as int,
                old(tracks)@,
                old(playback)@,
                playing,
                any_solo_spec(old(tracks)@, old(playback)@),
                buffer_frames(input@.len() as int, channels as int),
            )
        } else {
            Seq::<i64>::empty()
        },
        final(tracks)@.len() == old(tracks)@.len(),
        forall|j: int|
            0 <= j < old(tracks)@.len() ==> final(tracks)@[j] == (Track {
                peak_level: in_peak_after(
                    input@,
                    channels as int,
                    #[trigger] old(tracks)@[j],
                    buffer_frames(input@.len() as int, channels as int),
                ) as i64,
                ..old(tracks)@[j]
            }),
        final(playback)@.len() == old(playback)@.len(),
        forall|j: int|
            0 <= j < old(playback)@.len() ==> final(playback)@[j] == (PlaybackTrack {
                position: advanced_position(
                    #[trigger] old(playback)@[j],
                    playing,
                    buffer_frames(input@.len() as int, channels as int),
                ) as usize,
                peak_level: pb_peak_after(
                    old(playback)@[j],
                    playing,
                    buffer_frames(input@.len() as int, channels as int),
                ) as i64,
                ..old(playback)@[j]
            }),
        tracks_wf(final(tracks)@),
        playback_wf(final(playback)@),
{
    let ghost tracks0 = tracks@;
    let ghost playback0 = playback@;
    let num_frames: usize = input.len() / channels;
    proof {
        vstd::arithmetic::div_mod::lemma_fundamental_div_mod(input@.len() as int, channels as int);
        assert(num_frames * channels <= input@.len()) by (nonlinear_arith)
            requires
                input@.len() as int == channels as int * (input@.len() as int / channels as int)
                    + (input@.len() as int % channels as int),
                num_frames == input@.len() as int / channels as int,
                0 <= input@.len() as int % channels as int,
                channels >= 1,
        {}
    }
    let any_solo = compute_any_solo(tracks, playback);
    let ghost solo = any_solo_spec(tracks0, playback0);

    let mut recorded: Vec<(usize, i64)> = Vec::new();
    let mut playback_out: Vec<i64> = Vec::new();
    let mut monitor_out: Vec<i64> = Vec::new();
    let mut mix_out: Vec<i64> = Vec::new();

    let mut f: usize = 0;
    while f < num_frames
        invariant
            f <= num_frames,
            channels >= 1,
            num_frames * channels <= input@.len(),
            num_frames == buffer_frames(input@.len() as int, channels as int),
            input_wf(input@),
            tracks@ == tracks0,
            playback@ == playback0,
            tracks_wf(tracks0),
            playback_wf(playback0),
            tracks0.len() <= MAX_TRACKS,
            playback0.len() <= MAX_TRACKS,
            any_solo == solo,
            recorded@ == rec_batch(input@, channels as int, tracks0, recording, f as int),
            playback_out@ == pb_stream(playback0, playing, solo, f as int),
            monitor_out@ == monitor_stream(
                input@,
                channels as int,
                tracks0,
                playback0,
                playing,
                solo,
                f as int,
            ),
            mix_out@ == if recording && mix_recording_armed {
                monitor_stream(input@, channels as int, tracks0, playback0, playing, solo, f as int)
            } else {
                Seq::<i64>::empty()
            },
        decreases num_frames - f,
    {
        proof {
            assert((f + 1) * channels <= num_frames * channels) by (nonlinear_arith)
                requires 0 <= f < num_frames, channels >= 1,
            {}
        }
        let in_lr = mix_input_frame(input, tracks, recording, any_solo, f, channels, &mut recorded);
        let pb_lr = mix_playback_frame(playback, playing, any_solo, f);

        proof {
            assert(abs_spec(in_lr.0 + pb_lr.0) < 4_000_000_000_000 && abs_spec(
                in_lr.1 + pb_lr.1,
            ) < 4_000_000_000_000) by (nonlinear_arith)
                requires
                    abs_spec(in_lr.0 as int) <= tracks0.len() * SAMPLE_LIMIT,
                    abs_spec(in_lr.1 as int) <= tracks0.len() * SAMPLE_LIMIT,
                    abs_spec(pb_lr.0 as int) <= playback0.len() * SAMPLE_LIMIT,
                    abs_spec(pb_lr.1 as int) <= playback0.len() * SAMPLE_LIMIT,
                    tracks0.len() <= 65536,
                    playback0.len() <= 65536,
                    SAMPLE_LIMIT == 16_000_000,
            {}
        }
        let mon_l: i64 = in_lr.0 + pb_lr.0;
        let mon_r: i64 = in_lr.1 + pb_lr.1;

        playback_out.push(pb_lr.0);
        playback_out.push(pb_lr.1);
        monitor_out.push(mon_l);
        monitor_out.push(mon_r);
        if recording && mix_recording_armed {
            mix_out.push(mon_l);
            mix_out.push(mon_r);
        }
        f = f + 1;
    }

    update_input_peaks(input, tracks, channels, num_frames);
    update_playback_peaks(playback, playing, num_frames);
    advance_playback_positions(playback, playing, num_frames);
    proof {
        assert forall|j: int| 0 <= j < playback0.len() implies playback@[j] == (PlaybackTrack {
            position: advanced_position(#[trigger] playback0[j], playing, num_frames as int)
                as usize,
            peak_level: pb_peak_after(playback0[j], playing, num_frames as int) as i64,
            ..playback0[j]
        }) by {
            let mid = PlaybackTrack {
                peak_level: pb_peak_after(playback0[j], playing, num_frames as int) as i64,
                ..playback0[j]
            };
            assert(advanced_position(mid, playing, num_frames as int) == advanced_position(
                playback0[j],
                playing,
                num_frames as int,
            ));
        }
    }

    RenderedBuffer { recorded, playback_out, monitor_out, mix_out }
}

/// The real-time input callback body: render the buffer and push each
/// stream into its ring. A full ring drops the overflow and the callback
/// carries on; nothing here blocks or waits.
pub fn process_audio_input(
    input: &Vec<i64>,
    tracks: &mut Vec<Track>,
    playback: &mut Vec<PlaybackTrack>,
    recording: bool,
    playing: bool,
    mix_recording_armed: bool,
    channels: usize,
    rec_producer: &mut rtrb::Producer<(usize, i64)>,
    monitor_producer: &mut rtrb::Producer<i64>,
    mix_producer: &mut rtrb::Producer<i64>,
    playback_producer: &mut rtrb::Producer<i64>,
)
    requires
        channels >= 1,
        input_wf(input@),
        tracks_wf(old(tracks)@),
        playback_wf(old(playback)@),
        old(tracks)@.len() <= MAX_TRACKS,
        old(playback)@.len() <= MAX_TRACKS,
    ensures
        exists|s: Seq<(usize, i64)>|
            rec_queue(*final(rec_producer)) == rec_queue(*old(rec_producer)) + s
                && #[trigger] subsequence_of(
                s,
                rec_batch(
                    input@,
                    channels as int,
                    old(tracks)@,
                    recording,
                    buffer_frames(input@.len() as int, channels as int),
                ),
            ),
        exists|s: Seq<i64>|
            sample_queue(*final(monitor_producer)) == sample_queue(*old(monitor_producer)) + s
                && #[trigger] subsequence_of(
                s,
                monitor_stream(
                    input@,
                    channels as int,
                    old(tracks)@,
                    old(playback)@,
                    playing,
                    any_solo_spec(old(tracks)@, old(playback)@),
                    buffer_frames(input@.len() as int, channels as int),
                ),
            ),
        exists|s: Seq<i64>|
            sample_queue(*final(playback_producer)) == sample_queue(*old(playback_producer)) + s
                && #[trigger] subsequence_of(
                s,
                pb_stream(
                    old(playback)@,
                    playing,
                    any_solo_spec(old(tracks)@, old(playback)@),
                    buffer_frames(input@.len() as int, channels as int),
                ),
            ),
        !(recording && mix_recording_armed) ==> sample_queue(*final(mix_producer)) == sample_queue(
            *old(mix_producer),
        ),
        recording && mix_recording_armed ==> exists|s: Seq<i64>|
            sample_queue(*final(mix_producer)) == sample_queue(*old(mix_producer)) + s
                && #[trigger] subsequence_of(
                s,
                monitor_stream(
                    input@,
                    channels as int,
                    old(tracks)@,
                    old(playback)@,
                    playing,
                    any_solo_spec(old(tracks)@, old(playback)@),
                    buffer_frames(input@.len() as int, channels as int),
                ),
            ),
        final(tracks)@.len() == old(tracks)@.len(),
        forall|j: int|
            0 <= j < old(tracks)@.len() ==> final(tracks)@[j] == (Track {
                peak_level: in_peak_after(
                    input@,
                    channels as int,
                    #[trigger] old(tracks)@[j],
                    buffer_frames(input@.len() as int, channels as int),
                ) as i64,
                ..old(tracks)@[j]
            }),
        final(playback)@.len() == old(playback)@.len(),
        forall|j: int|
            0 <= j < old(playback)@.len() ==> final(playback)@[j] == (PlaybackTrack {
                position: advanced_position(
                    #[trigger] old(playback)@[j],
                    playing,
                    buffer_frames(input@.len() as int, channels as int),
                ) as usize,
                peak_level: pb_peak_after(
                    old(playback)@[j],
                    playing,
                    buffer_frames(input@.len() as int, channels as int),
                ) as i64,
                ..old(playback)@[j]
            }),
        tracks_wf(final(tracks)@),
        playback_wf(final(playback)@),
{
    let out = render_buffer(
        input,
        tracks,
        playback,
        recording,
        playing,
        mix_recording_armed,
        channels,
    );
    crate::ring::push_tagged(rec_producer, &out.recorded);
    crate::ring::push_samples(playback_producer, &out.playback_out);
    crate::ring::push_samples(monitor_producer, &out.monitor_out);
    if recording && mix_recording_armed {
        crate::ring::push_samples(mix_producer, &out.mix_out);
    } else {
        proof {
            assert(sample_queue(*mix_producer) == sample_queue(*old(mix_producer)));
        }
    }
}

/// While `recording` is off, no buffer pass yields a single recording
/// entry, whatever is armed.
pub proof fn lemma_not_recording_captures_nothing(
    input: Seq<i64>,
    channels: int,
    tracks: Seq<Track>,
    f: int,
)
    ensures
        rec_batch(input, channels, tracks, false, f).len() == 0,
    decreases f,
{
    if f > 0 {
        lemma_not_recording_captures_nothing(input, channels, tracks, f - 1);
        lemma_rec_frame_not_recording(input, channels, tracks, f - 1, tracks.len() as int);
    }
}

proof fn lemma_rec_frame_not_recording(
    input: Seq<i64>,
    channels: int,
    tracks: Seq<Track>,
    f: int,
    j: int,
)
    ensures
        rec_frame(input, channels, tracks, false, f, j).len() == 0,
    decreases j,
{
    if j > 0 {
        lemma_rec_frame_not_recording(input, channels, tracks, f, j - 1);
    }
}

/// How many tracks produce a recording entry each frame: those armed with
/// a valid input channel.
pub open spec fn armed_capture_count(tracks: Seq<Track>, channels: int, j: int) -> int
    decreases j,
{
    if j <= 0 {
        0
    } else {
        armed_capture_count(tracks, channels, j - 1) + if tracks[j - 1].armed && in_channel_ok(
            tracks[j - 1],
            channels,
        ) {
            1int
        } else {
            0int
        }
    }
}

proof fn lemma_rec_frame_len(input: Seq<i64>, channels: int, tracks: Seq<Track>, f: int, j: int)
    ensures
        rec_frame(input, channels, tracks, true, f, j).len() == armed_capture_count(
            tracks,
            channels,
            j,
        ),
    decreases j,
{
    if j > 0 {
        lemma_rec_frame_len(input, channels, tracks, f, j - 1);
    }
}

/// While recording, every frame contributes exactly one entry per armed
/// track with a valid channel: the whole batch has one entry per frame per
/// such track, before any ring-buffer drop.
pub proof fn lemma_one_entry_per_frame_per_armed_track(
    input: Seq<i64>,
    channels: int,
    tracks: Seq<Track>,
    f: int,
)
    requires
        f >= 0,
    ensures
        rec_batch(input, channels, tracks, true, f).len() == f * armed_capture_count(
            tracks,
            channels,
            tracks.len() as int,
        ),
    decreases f,
{
    let c = armed_capture_count(tracks, channels, tracks.len() as int);
    if f > 0 {
        lemma_one_entry_per_frame_per_armed_track(input, channels, tracks, f - 1);
        lemma_rec_frame_len(input, channels, tracks, f - 1, tracks.len() as int);
        assert((f - 1) * c + c == f * c) by (nonlinear_arith);
    } else {
        assert(f * c == 0) by (nonlinear_arith)
            requires f == 0,
        {}
    }
}

proof fn lemma_in_sum_silent(
    input: Seq<i64>,
    channels: int,
    tracks: Seq<Track>,
    any_solo: bool,
    f: int,
    j: int,
)
    requires
        forall|k: int| 0 <= k < tracks.len() ==> !(#[trigger] tracks[k]).monitoring && !tracks[k].solo,
        j <= tracks.len(),
    ensures
        in_sum(input, channels, tracks, any_solo, f, j, false) == 0,
        in_sum(input, channels, tracks, any_solo, f, j, true) == 0,
    decreases j,
{
    if j > 0 {
        lemma_in_sum_silent(input, channels, tracks, any_solo, f, j - 1);
    }
}

proof fn lemma_pb_sum_silent(
    playback: Seq<PlaybackTrack>,
    playing: bool,
    any_solo: bool,
    f: int,
    j: int,
)
    requires
        !playing,
        j <= playback.len(),
    ensures
        pb_sum(playback, playing, any_solo, f, j, false) == 0,
        pb_sum(playback, playing, any_solo, f, j, true) == 0,
    decreases j,
{
    if j > 0 {
        lemma_pb_sum_silent(playback, playing, any_solo, f, j - 1);
    }
}

/// With no input track monitored or soloed and the transport not playing,
/// the monitor stream still carries one stereo pair per frame, and every
/// sample of it is silence.
pub proof fn lemma_monitor_silence(
    input: Seq<i64>,
    channels: int,
    tracks: Seq<Track>,
    playback: Seq<PlaybackTrack>,
    any_solo: bool,
    f: int,
)
    requires
        forall|k: int| 0 <= k < tracks.len() ==> !(#[trigger] tracks[k]).monitoring && !tracks[k].solo,
        f >= 0,
    ensures
        monitor_stream(input, channels, tracks, playback, false, any_solo, f).len() == 2 * f,
        forall|i: int|
            0 <= i < 2 * f ==> monitor_stream(input, channels, tracks, playback, false, any_solo, f)[i]
                == 0,
    decreases f,
{
    if f > 0 {
        lemma_monitor_silence(input, channels, tracks, playback, any_solo, f - 1);
        lemma_in_sum_silent(input, channels, tracks, any_solo, f - 1, tracks.len() as int);
        lemma_pb_sum_silent(playback, false, any_solo, f - 1, playback.len() as int);
    }
}


/// One slot of the per-pop record: the popped sample at that position, or
/// silence where the pop found the ring empty.
pub open spec fn taken_or_zero(taken: Seq<Option<i64>>, i: int) -> int {
    if 0 <= i < taken.len() {
        match taken[i] {
            Some(v) => v as int,
            None => 0,
        }
    } else {
        0
    }
}

/// The successfully popped values of a per-pop record, in order.
pub open spec fn flatten_somes(taken: Seq<Option<i64>>) -> Seq<i64>
    decreases taken.len(),
{
    if taken.len() == 0 {
        Seq::empty()
    } else {
        let pre = flatten_somes(taken.drop_last());
        match taken.last() {
            Some(v) => pre.push(v),
            None => pre,
        }
    }
}

/// What one slot of the monitor output buffer holds, given the record of
/// the frame-by-frame pops: the frame's left sample on the configured
/// left channel, its right sample on the configured right channel (which
/// wins if the two coincide), silence on every other channel and wherever
/// a pop underflowed.
pub open spec fn monitor_slot(
    taken: Seq<Option<i64>>,
    output_channels: int,
    monitor_start: int,
    monitor_end: int,
    i: int,
) -> int {
    let f = i / output_channels;
    let k = i % output_channels;
    if k == monitor_end - 1 {
        taken_or_zero(taken, 2 * f + 1)
    } else if k == monitor_start - 1 {
        taken_or_zero(taken, 2 * f)
    } else {
        0
    }
}

/// The monitor output callback body: produce `frames` output frames,
/// popping one stereo pair per frame from the monitor stream (silence
/// wherever a pop underflows), routed to the configured pair of 1-indexed
/// channels; every other channel stays silent. The per-pop record `taken`
/// ties the output slots to exactly the values this call popped.
pub fn fill_monitor_output(
    consumer: &mut rtrb::Consumer<i64>,
    frames: usize,
    output_channels: usize,
    monitor_start: usize,
    monitor_end: usize,
) -> (out: Vec<i64>)
    requires
        1 <= monitor_start <= output_channels,
        1 <= monitor_end <= output_channels,
        frames * output_channels <= usize::MAX,
    ensures
        out@.len() == frames * output_channels,
        forall|i: int|
            0 <= i < out@.len() && i % (output_channels as int) != monitor_start - 1 && i % (
            output_channels as int) != monitor_end - 1 ==> out@[i] == 0,
        exists|taken: Seq<Option<i64>>|
            {
                &&& #[trigger] flatten_somes(taken).len() <= taken.len()
                &&& taken.len() == 2 * frames
                &&& sample_popped(*final(consumer)) == sample_popped(*old(consumer))
                    + flatten_somes(taken)
                &&& forall|i: int|
                    0 <= i < out@.len() ==> out@[i] == monitor_slot(
                        taken,
                        output_channels as int,
                        monitor_start as int,
                        monitor_end as int,
                        i,
                    )
            },
{
    let ghost popped0 = sample_popped(*consumer);
    let ghost mut taken = Seq::<Option<i64>>::empty();
    let mut out: Vec<i64> = Vec::new();
    proof {
        assert(popped0 + flatten_somes(taken) =~= popped0);
    }
    let mut f: usize = 0;
    while f < frames
        invariant
            f <= frames,
            1 <= monitor_start <= output_channels,
            1 <= monitor_end <= output_channels,
            frames * output_channels <= usize::MAX,
            out@.len() == f * output_channels,
            taken.len() == 2 * f,
            sample_popped(*consumer) == popped0 + flatten_somes(taken),
            forall|i: int|
                0 <= i < out@.len() ==> out@[i] == monitor_slot(
                    taken,
                    output_channels as int,
                    monitor_start as int,
                    monitor_end as int,
                    i,
                ),
        decreases frames - f,
    {
        proof {
            assert((f + 1) * output_channels <= frames * output_channels) by (nonlinear_arith)
                requires 0 <= f < frames, output_channels >= 1,
            {}
            assert(f * output_channels + output_channels == (f + 1) * output_channels)
                by (nonlinear_arith);
        }
        let ghost taken_before = taken;
        let left: i64 = match crate::ring::sample_pop(consumer) {
            Some(x) => {
                proof {
                    assert((popped0 + flatten_somes(taken)).push(x) =~= popped0 + flatten_somes(
                        taken,
                    ).push(x));
                    taken = taken.push(Some(x));
                    assert(taken.drop_last() =~= taken_before);
                }
                x
            },
            None => {
                proof {
                    taken = taken.push(None);
                    assert(taken.drop_last() =~= taken_before);
                }
                0
            },
        };
        proof {
            assert(sample_popped(*consumer) == popped0 + flatten_somes(taken));
        }
        let ghost taken_mid = taken;
        let right: i64 = match crate::ring::sample_pop(consumer) {
            Some(x) => {
                proof {
                    assert((popped0 + flatten_somes(taken)).push(x) =~= popped0 + flatten_somes(
                        taken,
                    ).push(x));
                    taken = taken.push(Some(x));
                    assert(taken.drop_last() =~= taken_mid);
                }
                x
            },
            None => {
                proof {
                    taken = taken.push(None);
                    assert(taken.drop_last() =~= taken_mid);
                }
                0
            },
        };
        proof {
            assert(sample_popped(*consumer) == popped0 + flatten_somes(taken));
            assert(taken[2 * f as int] == taken_mid[2 * f as int]);
            assert(left == taken_or_zero(taken, 2 * (f as int)));
            assert(right == taken_or_zero(taken, 2 * (f as int) + 1));
            assert forall|i: int| 0 <= i < out@.len() implies out@[i] == monitor_slot(
                taken,
                output_channels as int,
                monitor_start as int,
                monitor_end as int,
                i,
            ) by {
                assert(out@[i] == monitor_slot(
                    taken_before,
                    output_channels as int,
                    monitor_start as int,
                    monitor_end as int,
                    i,
                ));
                assert(0 <= i / (output_channels as int) < f) by (nonlinear_arith)
                    requires
                        0 <= i < f * output_channels,
                        output_channels >= 1,
                {}
            }
        }

        let mut k: usize = 0;
        while k < output_channels
            invariant
                k <= output_channels,
                1 <= monitor_start <= output_channels,
                1 <= monitor_end <= output_channels,
                f < frames,
                frames * output_channels <= usize::MAX,
                (f + 1) * output_channels <= frames * output_channels,
                f * output_channels + output_channels == (f + 1) * output_channels,
                out@.len() == f * output_channels + k,
                taken.len() == 2 * f + 2,
                left == taken_or_zero(taken, 2 * (f as int)),
                right == taken_or_zero(taken, 2 * (f as int) + 1),
                forall|i: int|
                    0 <= i < out@.len() ==> out@[i] == monitor_slot(
                        taken,
                        output_channels as int,
                        monitor_start as int,
                        monitor_end as int,
                        i,
                    ),
            decreases output_channels - k,
        {
            let value: i64 = if k == monitor_end - 1 {
                right
            } else if k == monitor_start - 1 {
                left
            } else {
                0
            };
            proof {
                vstd::arithmetic::div_mod::lemma_fundamental_div_mod_converse(
                    f * output_channels + k,
                    output_channels as int,
                    f as int,
                    k as int,
                );
                assert(value == monitor_slot(
                    taken,
                    output_channels as int,
                    monitor_start as int,
                    monitor_end as int,
                    f * output_channels + k,
                ));
            }
            out.push(value);
            k = k + 1;
        }
        proof {
            assert(taken.len() == 2 * (f + 1));
        }
        f = f + 1;
    }
    proof {
        assert forall|i: int|
            0 <= i < out@.len() && i % (output_channels as int) != monitor_start - 1 && i % (
            output_channels as int) != monitor_end - 1 implies out@[i] == 0 by {
            assert(out@[i] == monitor_slot(
                taken,
                output_channels as int,
                monitor_start as int,
                monitor_end as int,
                i,
            ));
        }
        lemma_flatten_somes_len(taken);
        assert(flatten_somes(taken).len() <= taken.len() && taken.len() == 2 * frames
            && sample_popped(*consumer) == sample_popped(*old(consumer)) + flatten_somes(taken));
    }
    out
}

/// A per-pop record yields at most one value per pop.
proof fn lemma_flatten_somes_len(taken: Seq<Option<i64>>)
    ensures
        flatten_somes(taken).len() <= taken.len(),
    decreases taken.len(),
{
    if taken.len() > 0 {
        lemma_flatten_somes_len(taken.drop_last());
    }
}

/// Every frame contributes exactly one stereo pair to the playback and
/// monitor streams, whatever is armed, heard or playing.
pub proof fn lemma_one_pair_per_frame(
    input: Seq<i64>,
    channels: int,
    tracks: Seq<Track>,
    playback: Seq<PlaybackTrack>,
    playing: bool,
    any_solo: bool,
    f: int,
)
    requires
        f >= 0,
    ensures
        monitor_stream(input, channels, tracks, playback, playing, any_solo, f).len() == 2 * f,
        pb_stream(playback, playing, any_solo, f).len() == 2 * f,
    decreases f,
{
    if f > 0 {
        lemma_one_pair_per_frame(input, channels, tracks, playback, playing, any_solo, f - 1);
    }
}

} // verus!
