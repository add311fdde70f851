//! Duty-cycle scheduling: from a control output to on/off windows.
//!
//! Each tick the controller's output is normalized to an on-fraction of
//! the loop's cycle period, held in thousandths (permille).  The actuator
//! is one-directional — it can only add heat or humidity — so negative
//! output maps to a fraction of zero.  Near saturation the actuator is
//! left on through the whole cycle instead of being toggled off for a
//! sliver of time.

use vstd::prelude::*;

use crate::pid::MAX_LIMIT;

verus! {

/// Fractions at or above this threshold, in permille, leave the actuator
/// on through the full cycle to avoid needless pin chatter.
pub const SATURATION_PERMILLE: u32 = 995;

/// The control output clamped to `[0, limit]`: the one-directional
/// actuator cannot act on negative output.
pub open spec fn spec_clamp_nonneg(output: int, limit: int) -> int {
    if output < 0 {
        0
    } else if output > limit {
        limit
    } else {
        output
    }
}

/// The on-fraction, in permille, that a control output commands:
/// `clamp(output, 0, limit) * 1000 / limit`.
pub open spec fn spec_on_fraction_permille(output: int, limit: int) -> int {
    spec_clamp_nonneg(output, limit) * 1000 / limit
}

/// A nonnegative quotient of a scaled bounded value stays within the
/// scale.
proof fn lemma_scaled_quotient_bound(c: int, bound: int, scale: int)
    by (nonlinear_arith)
    requires
        0 <= c <= bound,
        0 < bound,
        0 < scale,
    ensures
        0 <= c * scale / bound <= scale,
{
}

/// Normalizes a control output to the on-fraction of the cycle, in
/// permille.  The fraction is always in [0, 1000], and a non-positive
/// output maps to zero.
pub fn on_fraction_permille(output: i64, limit: i64) -> (f: u32)
    requires
        0 < limit <= MAX_LIMIT,
    ensures
        f as int == spec_on_fraction_permille(output as int, limit as int),
        f <= 1000,
        output <= 0 ==> f == 0,
{
    let c: i64 = if output < 0 {
        0
    } else if output > limit {
        limit
    } else {
        output
    };
    proof {
        lemma_scaled_quotient_bound(c as int, limit as int, 1000);
    }
    let scaled: u64 = (c as u64) * 1000;
    let f: u64 = scaled / (limit as u64);
    f as u32
}

/// The on and off windows of one cycle, as a mathematical function: the
/// on-time is the fraction of the period, rounded down to a millisecond,
/// and the off-time is exactly the rest of the period.
pub open spec fn spec_duty_times(on_permille: int, cycle_ms: int) -> (int, int) {
    let on = cycle_ms * on_permille / 1000;
    (on, cycle_ms - on)
}

/// Bound on a cycle period, in milliseconds, so that the fixed-point
/// products stay inside `u64`.
pub const MAX_CYCLE_MS: u64 = 1000000000000;

/// Splits one cycle period into the on and off windows a fraction
/// commands.  The two windows always recombine exactly to the period.
pub fn duty_times(on_permille: u32, cycle_ms: u64) -> (r: (u64, u64))
    requires
        on_permille <= 1000,
        cycle_ms <= MAX_CYCLE_MS,
    ensures
        (r.0 as int, r.1 as int) == spec_duty_times(on_permille as int, cycle_ms as int),
        r.0 + r.1 == cycle_ms,
        r.0 <= cycle_ms,
{
    proof {
        if cycle_ms > 0 {
            lemma_scaled_quotient_bound(on_permille as int, 1000, cycle_ms as int);
            lemma_quotient_commute(on_permille as int, cycle_ms as int);
        }
    }
    if cycle_ms == 0 {
        return (0, 0);
    }
    let on: u64 = cycle_ms * (on_permille as u64) / 1000;
    (on, cycle_ms - on)
}

/// `cycle * f / 1000 == f * cycle / 1000` and both stay within the
/// cycle when `f <= 1000`.
proof fn lemma_quotient_commute(f: int, cycle: int)
    by (nonlinear_arith)
    requires
        0 <= f <= 1000,
        0 < cycle,
    ensures
        cycle * f == f * cycle,
        0 <= cycle * f / 1000 <= cycle,
{
}

} // verus!
