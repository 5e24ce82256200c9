//! External transport clock: a state machine over {Start, Stop, Continue,
//! Tick} with tempo estimation.
//!
//! Time enters as a caller-supplied monotonic timestamp in microseconds, so
//! every transition is a pure function of the clock value and the timestamp.
//! Each handler's contract equates it with the spec-level step function
//! beside it; the laws at the bottom are proved over those steps.

use vstd::prelude::*;

verus! {

/// Clock pulses per quarter note.
pub const MIDI_CLOCKS_PER_BEAT: u32 = 24;

/// Microseconds of silence after which the clock is reported lost.
pub const CLOCK_TIMEOUT_MICROS: u64 = 2_000_000;

/// Milli-BPM numerator: `60_000_000 micros/min / 24 ticks/beat`, in
/// milli-units (`60e6 * 1000 / 24`).
pub const MILLI_BPM_PER_TICK_MICROS: u64 = 2_500_000_000;

/// State machine for external clock synchronization.
#[derive(Debug, Clone, Copy, PartialEq, Eq, Structural)]
pub enum ClockState {
    /// No clock activity.
    Stopped,
    /// Received Start (or Continue), waiting for the first tick.
    WaitingForClock,
    /// Actively receiving ticks.
    Running,
}

/// External clock synchronization manager.
#[derive(Debug, Clone)]
pub struct MidiClock {
    /// Current state.
    pub state: ClockState,
    /// Ticks since the clock was last armed by Start (kept across Continue).
    pub clock_count: u32,
    /// Timestamp of the last tick, if any tick arrived since Start.
    pub last_clock_time: Option<u64>,
    /// Recent tick intervals (micros), oldest first, for tempo estimation.
    pub clock_intervals: Vec<u64>,
    /// Most intervals kept: one beat's worth.
    pub max_intervals: usize,
    /// Timestamp of the last message of any kind.
    pub last_activity: u64,
    /// Silence beyond this duration (micros) counts as a lost clock.
    pub timeout_micros: u64,
}

/// Sum of a sequence of tick intervals.
pub open spec fn sum_intervals(s: Seq<u64>) -> int
    decreases s.len(),
{
    if s.len() == 0 {
        0
    } else {
        sum_intervals(s.drop_last()) + s.last()
    }
}

/// The tempo estimate, in milli-BPM: `60s / (mean interval * 24)`, or
/// nothing while no interval has been observed (or all are zero).
pub open spec fn tempo_milli_spec(s: Seq<u64>) -> Option<u64> {
    if s.len() == 0 || sum_intervals(s) <= 0 {
        None
    } else {
        Some(((MILLI_BPM_PER_TICK_MICROS * s.len()) / sum_intervals(s)) as u64)
    }
}

/// A window of intervals with `v` appended and the oldest entry dropped
/// once the window exceeds `max`.
pub open spec fn window_push(s: Seq<u64>, max: int, v: u64) -> Seq<u64> {
    let w = s.push(v);
    if w.len() > max {
        w.subrange(1, w.len() as int)
    } else {
        w
    }
}

impl MidiClock {
    /// Structural invariant: the interval window never exceeds its bound.
    pub open spec fn wf(&self) -> bool {
        &&& self.max_intervals == MIDI_CLOCKS_PER_BEAT
        &&& self.timeout_micros == CLOCK_TIMEOUT_MICROS
        &&& self.clock_intervals@.len() <= self.max_intervals
    }

    /// State and tick count after a Start message.
    pub open spec fn start_transition(state: ClockState, count: u32) -> (ClockState, u32) {
        (ClockState::WaitingForClock, 0u32)
    }

    /// State and tick count after a Stop message.
    pub open spec fn stop_transition(state: ClockState, count: u32) -> (ClockState, u32) {
        (ClockState::Stopped, 0u32)
    }

    /// State and tick count after a Continue message: re-armed, count kept.
    pub open spec fn continue_transition(state: ClockState, count: u32) -> (ClockState, u32) {
        (ClockState::WaitingForClock, count)
    }

    /// State, tick count and the is-first flag after a tick.
    pub open spec fn tick_transition(state: ClockState, count: u32) -> (ClockState, u32, bool) {
        (
            ClockState::Running,
            if count < u32::MAX { (count + 1) as u32 } else { u32::MAX },
            state == ClockState::WaitingForClock,
        )
    }

    /// The interval window after a tick at `now`.
    pub open spec fn tick_window(c: MidiClock, now: u64) -> Seq<u64> {
        match c.last_clock_time {
            Some(t) => window_push(c.clock_intervals@, c.max_intervals as int, (now - t) as u64),
            None => c.clock_intervals@,
        }
    }

    /// A fresh clock: stopped, with an empty interval window.
    pub fn new(now: u64) -> (c: MidiClock)
        ensures
            c.state == ClockState::Stopped,
            c.clock_count == 0,
            c.last_clock_time is None,
            c.clock_intervals@.len() == 0,
            c.last_activity == now,
            c.wf(),
    {
        MidiClock {
            state: ClockState::Stopped,
            clock_count: 0,
            last_clock_time: None,
            clock_intervals: Vec::new(),
            max_intervals: MIDI_CLOCKS_PER_BEAT as usize,
            last_activity: now,
            timeout_micros: CLOCK_TIMEOUT_MICROS,
        }
    }

    /// Start: arm the clock and clear the tick count, the interval window
    /// and the last tick time.
    pub fn handle_start(&mut self, now: u64)
        ensures
            (final(self).state, final(self).clock_count)
                == MidiClock::start_transition(old(self).state, old(self).clock_count),
            final(self).last_clock_time is None,
            final(self).clock_intervals@.len() == 0,
            final(self).last_activity == now,
            final(self).max_intervals == old(self).max_intervals,
            final(self).timeout_micros == old(self).timeout_micros,
            old(self).wf() ==> final(self).wf(),
    {
        self.state = ClockState::WaitingForClock;
        self.clock_count = 0;
        self.clock_intervals.clear();
        self.last_clock_time = None;
        self.last_activity = now;
    }

    /// Stop: disarm and clear the tick count.
    pub fn handle_stop(&mut self, now: u64)
        ensures
            (final(self).state, final(self).clock_count)
                == MidiClock::stop_transition(old(self).state, old(self).clock_count),
            *final(self) == (MidiClock {
                state: ClockState::Stopped,
                clock_count: 0,
                last_activity: now,
                ..*old(self)
            }),
            old(self).wf() ==> final(self).wf(),
    {
        self.state = ClockState::Stopped;
        self.clock_count = 0;
        self.last_activity = now;
    }

    /// Continue: re-arm without clearing the tick count.
    pub fn handle_continue(&mut self, now: u64)
        ensures
            (final(self).state, final(self).clock_count)
                == MidiClock::continue_transition(old(self).state, old(self).clock_count),
            *final(self) == (MidiClock {
                state: ClockState::WaitingForClock,
                last_activity: now,
                ..*old(self)
            }),
            old(self).wf() ==> final(self).wf(),
    {
        self.state = ClockState::WaitingForClock;
        self.last_activity = now;
    }

    /// Tick: run, count, and extend the interval window. Returns whether
    /// this was the first tick after arming.
    pub fn handle_clock(&mut self, now: u64) -> (is_first: bool)
        requires
            old(self).wf(),
            old(self).last_clock_time matches Some(t) ==> t <= now,
        ensures
            (final(self).state, final(self).clock_count, is_first)
                == MidiClock::tick_transition(old(self).state, old(self).clock_count),
            final(self).last_clock_time == Some(now),
            final(self).last_activity == now,
            final(self).clock_intervals@ == MidiClock::tick_window(*old(self), now),
            final(self).max_intervals == old(self).max_intervals,
            final(self).timeout_micros == old(self).timeout_micros,
            final(self).wf(),
    {
        let is_first = match self.state {
            ClockState::WaitingForClock => true,
            _ => false,
        };

        self.state = ClockState::Running;
        if self.clock_count < u32::MAX {
            self.clock_count = self.clock_count + 1;
        }
        self.last_activity = now;

        if let Some(last_time) = self.last_clock_time {
            let interval: u64 = now - last_time;
            self.clock_intervals.push(interval);
            if self.clock_intervals.len() > self.max_intervals {
                self.clock_intervals.remove(0);
                proof {
                    assert(self.clock_intervals@ =~= MidiClock::tick_window(*old(self), now));
                }
            }
        }
        self.last_clock_time = Some(now);

        is_first
    }

    /// Current state.
    pub fn state(&self) -> (s: ClockState)
        ensures
            s == self.state,
    {
        self.state
    }

    /// Current tick count.
    pub fn clock_count(&self) -> (n: u32)
        ensures
            n == self.clock_count,
    {
        self.clock_count
    }

    /// Tempo estimate over the interval window, in milli-BPM.
    pub fn calculate_tempo(&self) -> (tempo: Option<u64>)
        requires
            self.wf(),
        ensures
            tempo == tempo_milli_spec(self.clock_intervals@),
    {
        if self.clock_intervals.len() == 0 {
            return None;
        }

        let mut total: u128 = 0;
        let mut i: usize = 0;
        while i < self.clock_intervals.len()
            invariant
                i <= self.clock_intervals@.len() <= MIDI_CLOCKS_PER_BEAT,
                total == sum_intervals(self.clock_intervals@.subrange(0, i as int)),
                total <= i * (u64::MAX as int),
            decreases self.clock_intervals@.len() - i,
        {
            proof {
                assert(self.clock_intervals@.subrange(0, i + 1int).drop_last()
                    =~= self.clock_intervals@.subrange(0, i as int));
            }
            total = total + self.clock_intervals[i] as u128;
            i = i + 1;
        }
        proof {
            assert(self.clock_intervals@.subrange(0, self.clock_intervals@.len() as int)
                =~= self.clock_intervals@);
        }

        if total == 0 {
            return None;
        }

        let milli_bpm: u128 = (MILLI_BPM_PER_TICK_MICROS as u128
            * self.clock_intervals.len() as u128) / total;
        Some(milli_bpm as u64)
    }

    /// Whether the clock has been silent beyond the timeout while armed or
    /// running. Stopped clocks never time out.
    pub fn is_timed_out(&self, now: u64) -> (r: bool)
        requires
            self.last_activity <= now,
        ensures
            r == (self.state != ClockState::Stopped
                && now - self.last_activity > self.timeout_micros),
    {
        match self.state {
            ClockState::Stopped => false,
            _ => now - self.last_activity > self.timeout_micros,
        }
    }

    /// Microseconds since the last message.
    pub fn time_since_last_activity(&self, now: u64) -> (r: u64)
        requires
            self.last_activity <= now,
        ensures
            r == now - self.last_activity,
    {
        now - self.last_activity
    }

    /// Back to the initial state: stopped, with an empty window.
    pub fn reset(&mut self, now: u64)
        ensures
            final(self).state == ClockState::Stopped,
            final(self).clock_count == 0,
            final(self).last_clock_time is None,
            final(self).clock_intervals@.len() == 0,
            final(self).last_activity == now,
            final(self).max_intervals == old(self).max_intervals,
            final(self).timeout_micros == old(self).timeout_micros,
            old(self).wf() ==> final(self).wf(),
    {
        self.state = ClockState::Stopped;
        self.clock_count = 0;
        self.clock_intervals.clear();
        self.last_clock_time = None;
        self.last_activity = now;
    }
}

/// After Start, the first tick reports itself as first exactly once: the
/// tick taken in the armed state is flagged; every tick lands in the
/// running state, and no tick taken in the running state is flagged, so
/// no later tick of the same run ever is.
pub proof fn lemma_first_tick_once(state: ClockState, count: u32)
    ensures
        MidiClock::tick_transition(
            MidiClock::start_transition(state, count).0,
            MidiClock::start_transition(state, count).1,
        ).2,
        forall|s: ClockState, c: u32|
            (#[trigger] MidiClock::tick_transition(s, c)).0 == ClockState::Running,
        forall|c: u32| !(#[trigger] MidiClock::tick_transition(ClockState::Running, c)).2,
{
}

/// The clock after Start and then `k` ticks, stepping the tick transition
/// from the armed state.
pub open spec fn state_after_ticks(k: int) -> (ClockState, u32)
    decreases k,
{
    if k <= 0 {
        (ClockState::WaitingForClock, 0u32)
    } else {
        let prev = state_after_ticks(k - 1);
        let next = MidiClock::tick_transition(prev.0, prev.1);
        (next.0, next.1)
    }
}

/// After Start, the `k`-th tick leaves the clock running with the tick
/// count equal to `k` (up to the counter's limit).
pub proof fn lemma_tick_count_replay(k: int)
    requires
        0 <= k <= u32::MAX,
    ensures
        state_after_ticks(k).1 == k,
        k >= 1 ==> state_after_ticks(k).0 == ClockState::Running,
        k == 0 ==> state_after_ticks(k).0 == ClockState::WaitingForClock,
    decreases k,
{
    if k > 0 {
        lemma_tick_count_replay(k - 1);
    }
}

/// Stop clears the tick count; Continue keeps it.
pub proof fn lemma_stop_resets_continue_preserves(state: ClockState, count: u32)
    ensures
        MidiClock::stop_transition(state, count).1 == 0,
        MidiClock::continue_transition(state, count).1 == count,
{
}


proof fn lemma_sum_uniform(t: u64, k: int)
    requires
        k >= 0,
    ensures
        sum_intervals(Seq::new(k as nat, |i: int| t)) == k * t,
    decreases k,
{
    let s = Seq::new(k as nat, |i: int| t);
    if k == 0 {
        assert(k * t == 0) by (nonlinear_arith)
            requires k == 0,
        {}
    } else {
        lemma_sum_uniform(t, k - 1);
        assert(s.drop_last() =~= Seq::new((k - 1) as nat, |i: int| t));
        assert(s.last() == t);
        assert((k - 1) * t + t == k * t) by (nonlinear_arith);
    }
}

/// With uniformly spaced ticks the tempo estimate is exact: for any
/// window of `k` intervals of `t` micros each, the estimate is the
/// milli-BPM floor of `60e9 / (24 * t)`. Its only error against the true
/// tempo is that floor — under one milli-BPM, far inside five percent
/// after a beat of ticks.
pub proof fn lemma_uniform_ticks_tempo(t: u64, k: int)
    requires
        t >= 1,
        k >= 1,
    ensures
        tempo_milli_spec(Seq::new(k as nat, |i: int| t)) == Some(
            ((MILLI_BPM_PER_TICK_MICROS as int) / (t as int)) as u64,
        ),
{
    let s = Seq::new(k as nat, |i: int| t);
    lemma_sum_uniform(t, k);
    let m = MILLI_BPM_PER_TICK_MICROS as int;
    assert(k * t >= 1) by (nonlinear_arith)
        requires k >= 1, t >= 1,
    {}
    vstd::arithmetic::div_mod::lemma_div_denominator(m * k, k, t as int);
    vstd::arithmetic::div_mod::lemma_div_by_multiple(m, k);
    assert((m * k) / (k * t) == m / (t as int));
    assert(m * s.len() == m * k);
}

} // verus!
