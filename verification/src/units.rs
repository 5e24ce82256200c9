//! Fixed-point amplitude arithmetic.
//!
//! Levels, pans, peaks and samples are integers in millionths of full scale:
//! a level of `UNIT` is unity gain, a pan of `-UNIT` is hard left. Keeping
//! every quantity an integer lets each mixing step carry an exact contract.

use vstd::prelude::*;

verus! {

/// Full scale, in millionths: the fixed-point value standing for 1.0.
pub const UNIT: i64 = 1_000_000;

/// Largest sample magnitude accepted by the pipeline (16 units of headroom).
pub const SAMPLE_LIMIT: i64 = 16_000_000;

/// Most tracks (input and playback together) one buffer pass may mix.
pub const MAX_TRACKS: usize = 65536;

/// `x` held to the interval `[lo, hi]`.
pub open spec fn clamped(x: int, lo: int, hi: int) -> int {
    if x < lo {
        lo
    } else if x > hi {
        hi
    } else {
        x
    }
}

/// Magnitude of `x`.
pub open spec fn abs_spec(x: int) -> int {
    if x >= 0 {
        x
    } else {
        -x
    }
}

/// A sample scaled by a gain in `[0, UNIT]`: `s * g / UNIT`, with the
/// magnitude rounded toward zero.
pub open spec fn scale_spec(s: int, g: int) -> int {
    if s >= 0 {
        (s * g) / (UNIT as int)
    } else {
        -(((-s) * g) / (UNIT as int))
    }
}

/// Clamp a level to `[0, UNIT]`.
pub fn clamp_level(x: i64) -> (r: i64)
    ensures
        r == clamped(x as int, 0, UNIT as int),
{
    if x < 0 {
        0
    } else if x > UNIT {
        UNIT
    } else {
        x
    }
}

/// Clamp a pan to `[-UNIT, UNIT]`.
pub fn clamp_pan(x: i64) -> (r: i64)
    ensures
        r == clamped(x as int, -(UNIT as int), UNIT as int),
{
    if x < -UNIT {
        -UNIT
    } else if x > UNIT {
        UNIT
    } else {
        x
    }
}

/// Larger of two samples.
pub fn max_i64(a: i64, b: i64) -> (r: i64)
    ensures
        r == if a >= b { a as int } else { b as int },
{
    if a >= b {
        a
    } else {
        b
    }
}

/// Magnitude of a sample.
pub fn abs_i64(x: i64) -> (r: i64)
    requires
        x > i64::MIN,
    ensures
        r == abs_spec(x as int),
{
    if x >= 0 {
        x
    } else {
        -x
    }
}

/// The scaled sample keeps the sign of the input and never grows in
/// magnitude when the gain is at most `UNIT`.
pub proof fn lemma_scale_bounds(s: int, g: int)
    requires
        0 <= g <= UNIT as int,
        abs_spec(s) <= SAMPLE_LIMIT as int,
    ensures
        abs_spec(scale_spec(s, g)) <= abs_spec(s),
        abs_spec(scale_spec(s, g)) <= SAMPLE_LIMIT as int,
        s >= 0 ==> scale_spec(s, g) >= 0,
        s < 0 ==> scale_spec(s, g) <= 0,
{
    let u = UNIT as int;
    let m = abs_spec(s);
    assert(m * g <= m * u) by (nonlinear_arith)
        requires 0 <= g <= u, 0 <= m,
    {}
    assert(m * u / u == m) by (nonlinear_arith)
        requires m >= 0, u == UNIT as int,
    {}
    assert(m * g / u <= m * u / u) by (nonlinear_arith)
        requires m * g <= m * u, 0 <= m * g, u > 0,
    {}
    assert(m * g / u >= 0) by (nonlinear_arith)
        requires m * g >= 0, u > 0,
    {}
}

/// Apply a gain in `[0, UNIT]` to a bounded sample.
pub fn scale_by_gain(s: i64, g: i64) -> (r: i64)
    requires
        0 <= g <= UNIT,
        -SAMPLE_LIMIT <= s <= SAMPLE_LIMIT,
    ensures
        r == scale_spec(s as int, g as int),
        abs_spec(r as int) <= abs_spec(s as int),
        -SAMPLE_LIMIT <= r <= SAMPLE_LIMIT,
{
    proof {
        lemma_scale_bounds(s as int, g as int);
    }
    if s >= 0 {
        let prod: u64 = (s as u64) * (g as u64);
        let q: u64 = prod / (UNIT as u64);
        q as i64
    } else {
        let m: u64 = (-s) as u64;
        let prod: u64 = m * (g as u64);
        let q: u64 = prod / (UNIT as u64);
        -(q as i64)
    }
}

/// The equal-power panning curve, fixed point. For an angle parameter
/// `u` in `[0, 2*UNIT]` (standing for `u/UNIT` quarter turns of `pi/4`),
/// the gain is the rational approximation `4m / (20*UNIT^2 - m)` of
/// `sin(u * pi/4 / UNIT)`, where `m = u * (4*UNIT - u)`, scaled by `UNIT`.
/// It is exact at the ends (`0` at `u = 0`, `UNIT` at `u = 2*UNIT`) and
/// within 0.002 of the sine elsewhere.
pub open spec fn pan_curve(u: int) -> int {
    let unit = UNIT as int;
    let m = u * (4 * unit - u);
    (4 * m * unit) / (20 * unit * unit - m)
}

proof fn lemma_pan_curve_bounds(u: int)
    requires
        0 <= u <= 2 * UNIT as int,
    ensures
        0 <= pan_curve(u) <= UNIT as int,
        u * (4 * UNIT as int - u) <= 4 * (UNIT as int) * (UNIT as int),
        0 <= u * (4 * UNIT as int - u),
{
    let unit = UNIT as int;
    let m = u * (4 * unit - u);
    assert(0 <= m && m <= 4 * unit * unit) by (nonlinear_arith)
        requires 0 <= u <= 2 * unit, unit == UNIT as int, m == u * (4 * unit - u),
    {}
    let den = 20 * unit * unit - m;
    let num = 4 * m * unit;
    assert(den >= 16 * unit * unit) by (nonlinear_arith)
        requires m <= 4 * unit * unit, den == 20 * unit * unit - m, unit == UNIT as int,
    {}
    assert(num >= 0) by (nonlinear_arith)
        requires m >= 0, unit > 0, num == 4 * m * unit,
    {}
    assert(num / den >= 0) by (nonlinear_arith)
        requires num >= 0, den > 0,
    {}
    assert(num <= unit * den) by (nonlinear_arith)
        requires m <= 4 * unit * unit, num == 4 * m * unit, den == 20 * unit * unit - m, unit > 0,
    {}
    assert(num / den <= unit) by (nonlinear_arith)
        requires num <= unit * den, den > 0, num >= 0, unit >= 0,
    {}
}

/// One side of the equal-power pan law.
pub fn pan_gain(u: i64) -> (g: i64)
    requires
        0 <= u <= 2 * UNIT,
    ensures
        g == pan_curve(u as int),
        0 <= g <= UNIT,
{
    proof {
        lemma_pan_curve_bounds(u as int);
    }
    let uu: u128 = u as u128;
    let unit: u128 = UNIT as u128;
    let m: u128 = uu * (4 * unit - uu);
    let den: u128 = 20 * unit * unit - m;
    let num: u128 = 4 * m * unit;
    let q: u128 = num / den;
    q as i64
}

/// Stereo gains for a pan in `[-UNIT, UNIT]`: the left gain follows the
/// descending side of the curve, the right gain the ascending side, so that
/// hard left gives `(UNIT, 0)`, hard right `(0, UNIT)`, and the centre gives
/// both sides the fixed-point image of `sqrt(2)/2`.
pub fn pan_gains(pan: i64) -> (gains: (i64, i64))
    requires
        -UNIT <= pan <= UNIT,
    ensures
        gains.0 == pan_curve(UNIT - pan),
        gains.1 == pan_curve(UNIT + pan),
        0 <= gains.0 <= UNIT,
        0 <= gains.1 <= UNIT,
{
    let l: i64 = pan_gain(UNIT - pan);
    let r: i64 = pan_gain(UNIT + pan);
    (l, r)
}

/// The pan law at its three reference points: hard left passes the signal
/// to the left side alone, hard right to the right side alone, and the
/// centre feeds both sides 0.705882 of full scale, within a hundredth of
/// `sqrt(2)/2`.
pub proof fn lemma_pan_law_reference_points()
    ensures
        pan_curve(0) == 0,
        pan_curve(2 * UNIT as int) == UNIT as int,
        pan_curve(UNIT as int) == 705882,
{
    let unit = UNIT as int;
    assert(0 * (4 * unit - 0) == 0) by (nonlinear_arith)
        requires unit == 1_000_000int,
    {}
    assert(pan_curve(0) == 0);
    let m2 = (2 * unit) * (4 * unit - 2 * unit);
    assert(m2 == 4_000_000_000_000int && 4 * m2 * unit == 16_000_000_000_000_000_000int
        && 20 * unit * unit - m2 == 16_000_000_000_000int) by (nonlinear_arith)
        requires unit == 1_000_000int, m2 == (2 * unit) * (4 * unit - 2 * unit),
    {}
    assert(16_000_000_000_000_000_000int / 16_000_000_000_000int == 1_000_000int) by (nonlinear_arith);
    assert(pan_curve(2 * unit) == unit);
    let m1 = unit * (4 * unit - unit);
    assert(m1 == 3_000_000_000_000int && 4 * m1 * unit == 12_000_000_000_000_000_000int
        && 20 * unit * unit - m1 == 17_000_000_000_000int) by (nonlinear_arith)
        requires unit == 1_000_000int, m1 == unit * (4 * unit - unit),
    {}
    assert(12_000_000_000_000_000_000int / 17_000_000_000_000int == 705882) by (nonlinear_arith);
    assert(pan_curve(unit) == 705882);
}

} // verus!
