//! A proportional-integral-derivative controller in integer fixed point.
//!
//! Measured values and the setpoint are in tenths of a physical unit;
//! gains are in thousandths of a control unit per tenth of a physical
//! unit; the accumulator, the limit and the output are in thousandths of
//! a control unit.  The controller works on the error `setpoint -
//! measured`, accumulates the integral term over ticks, and clamps both
//! the accumulator (anti-windup) and the final output symmetrically to
//! `output_limit`.

use vstd::prelude::*;

verus! {

/// Bound on the magnitude of a gain, in thousandths of a control unit
/// per tenth of a unit.  Keeps every product inside `i64`.
pub const MAX_GAIN: i64 = 1000000000;

/// Bound on the magnitude of a measured value or setpoint, in tenths of
/// a unit.  Keeps every product inside `i64`.
pub const MAX_VALUE_TENTHS: i64 = 10000000;

/// Bound on the output limit, in thousandths of a control unit.
pub const MAX_LIMIT: i64 = 1000000000;

/// `v` clamped symmetrically to `[-limit, limit]`.
pub open spec fn spec_clamp(v: int, limit: int) -> int {
    if v > limit {
        limit
    } else if v < -limit {
        -limit
    } else {
        v
    }
}

/// The state of one PID controller: created at control-loop startup,
/// mutated every tick, never persisted.
#[derive(Clone, Copy, Debug, PartialEq, Eq, Structural)]
pub struct PidState {
    /// Target value, in tenths of a unit.
    pub setpoint_tenths: i64,
    /// Proportional gain, in thousandths of a control unit per tenth.
    pub gain_p: i64,
    /// Integral gain, in thousandths of a control unit per tenth.
    pub gain_i: i64,
    /// Derivative gain, in thousandths of a control unit per tenth.
    pub gain_d: i64,
    /// Accumulated integral term, in thousandths of a control unit.
    pub integral_accumulator: i64,
    /// The error seen on the previous tick, in tenths of a unit.
    pub previous_error: i64,
    /// Symmetric clamp on the accumulator and the output, in thousandths
    /// of a control unit.
    pub output_limit: i64,
}

impl PidState {
    /// Well-formedness: the configuration is inside the fixed-point
    /// bounds and the accumulator respects the anti-windup clamp.
    pub open spec fn valid(self) -> bool {
        &&& 0 < self.output_limit <= MAX_LIMIT
        &&& -MAX_GAIN <= self.gain_p <= MAX_GAIN
        &&& -MAX_GAIN <= self.gain_i <= MAX_GAIN
        &&& -MAX_GAIN <= self.gain_d <= MAX_GAIN
        &&& -MAX_VALUE_TENTHS <= self.setpoint_tenths <= MAX_VALUE_TENTHS
        &&& -2 * MAX_VALUE_TENTHS <= self.previous_error <= 2 * MAX_VALUE_TENTHS
        &&& -self.output_limit <= self.integral_accumulator <= self.output_limit
    }

    /// A controller seeded with a setpoint, gains and an output clamp;
    /// the integrator and the remembered error start at zero.
    pub fn new(setpoint_tenths: i64, gain_p: i64, gain_i: i64, gain_d: i64, output_limit: i64)
        -> (s: PidState)
        requires
            0 < output_limit <= MAX_LIMIT,
            -MAX_GAIN <= gain_p <= MAX_GAIN,
            -MAX_GAIN <= gain_i <= MAX_GAIN,
            -MAX_GAIN <= gain_d <= MAX_GAIN,
            -MAX_VALUE_TENTHS <= setpoint_tenths <= MAX_VALUE_TENTHS,
        ensures
            s == (PidState {
                setpoint_tenths,
                gain_p,
                gain_i,
                gain_d,
                integral_accumulator: 0,
                previous_error: 0,
                output_limit,
            }),
            s.valid(),
    {
        PidState {
            setpoint_tenths,
            gain_p,
            gain_i,
            gain_d,
            integral_accumulator: 0,
            previous_error: 0,
            output_limit,
        }
    }

    /// One control update on a measured value, as a mathematical
    /// function: the next state and the output.
    pub open spec fn spec_step(self, measured_tenths: int) -> (PidState, int) {
        let error = self.setpoint_tenths - measured_tenths;
        let p_term = self.gain_p * error;
        let integral = spec_clamp(
            self.integral_accumulator + self.gain_i * error,
            self.output_limit as int,
        );
        let d_term = self.gain_d * (error - self.previous_error);
        let output = spec_clamp(p_term + integral + d_term, self.output_limit as int);
        let next = PidState {
            integral_accumulator: integral as i64,
            previous_error: error as i64,
            ..self
        };
        (next, output)
    }

    /// Feeds one measured value to the controller and returns the
    /// clamped control output, in thousandths of a control unit.
    pub fn next_control_output(&mut self, measured_tenths: i64) -> (output: i64)
        requires
            old(self).valid(),
            -MAX_VALUE_TENTHS <= measured_tenths <= MAX_VALUE_TENTHS,
        ensures
            (*final(self), output as int) == old(self).spec_step(measured_tenths as int),
            final(self).valid(),
            -old(self).output_limit <= output <= old(self).output_limit,
    {
        let error: i64 = self.setpoint_tenths - measured_tenths;
        proof {
            lemma_mul_bound(
                self.gain_p as int,
                error as int,
                MAX_GAIN as int,
                2 * MAX_VALUE_TENTHS as int,
            );
            lemma_mul_bound(
                self.gain_i as int,
                error as int,
                MAX_GAIN as int,
                2 * MAX_VALUE_TENTHS as int,
            );
            lemma_mul_bound(
                self.gain_d as int,
                error as int - self.previous_error as int,
                MAX_GAIN as int,
                4 * MAX_VALUE_TENTHS as int,
            );
        }
        let p_term: i64 = self.gain_p * error;
        let unclamped_integral: i64 = self.integral_accumulator + self.gain_i * error;
        let integral: i64 = clamp_i64(unclamped_integral, self.output_limit);
        let d_term: i64 = self.gain_d * (error - self.previous_error);
        let output: i64 = clamp_i64(p_term + integral + d_term, self.output_limit);
        self.integral_accumulator = integral;
        self.previous_error = error;
        output
    }
}

/// A product of two bounded factors is bounded by the product of the
/// bounds.
proof fn lemma_mul_bound(a: int, b: int, a_bound: int, b_bound: int)
    by (nonlinear_arith)
    requires
        -a_bound <= a <= a_bound,
        -b_bound <= b <= b_bound,
    ensures
        -(a_bound * b_bound) <= a * b <= a_bound * b_bound,
{
}

/// `v` clamped symmetrically to `[-limit, limit]`.
pub fn clamp_i64(v: i64, limit: i64) -> (r: i64)
    requires
        limit >= 0,
    ensures
        r as int == spec_clamp(v as int, limit as int),
{
    if v > limit {
        limit
    } else if v < -limit {
        -limit
    } else {
        v
    }
}

/// The output of every control update is clamped: whatever the gain
/// configuration and the accumulated state, its magnitude never exceeds
/// the configured output limit.
pub proof fn lemma_output_clamped(s: PidState, measured_tenths: int)
    requires
        s.valid(),
    ensures
        -s.output_limit <= s.spec_step(measured_tenths).1 <= s.output_limit,
{
}

} // verus!
