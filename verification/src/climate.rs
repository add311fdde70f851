//! The climate-control loop's per-tick decisions.
//!
//! One independent loop instance runs per control dimension (temperature,
//! humidity).  Each tick the loop polls the sensor, feeds the measured
//! value to its PID controller, normalizes the output to an on-fraction
//! and derives the actuation plan for the coming cycle.  The waiting, the
//! actuator driving and the concurrent dispatch happen outside the
//! library; every decision — including degrading gracefully on a failed
//! acquisition by retaining the previous plan — is made here.

use vstd::prelude::*;

use crate::duty::MAX_CYCLE_MS;
use crate::duty::spec_duty_times;
use crate::duty::spec_on_fraction_permille;
use crate::duty::duty_times;
use crate::duty::on_fraction_permille;
use crate::pid::MAX_VALUE_TENTHS;
use crate::pid::PidState;

verus! {

/// Cycle period of the temperature loop, in milliseconds: resistive
/// heating responds fast, so the loop runs on a short cycle.
pub const TEMP_CYCLE_MS: u64 = 1000;

/// Cycle period of the humidity loop, in milliseconds: humidity responds
/// slowly, so the loop runs on a long cycle.
pub const HUM_CYCLE_MS: u64 = 10000;

/// Symmetric output clamp of both controllers, in thousandths of a
/// control unit: one hundred control units.
pub const PID_LIMIT_MILLI: i64 = 100000;

/// Proportional gain of both controllers: 3.5 thousandths of a control
/// unit per tenth of a unit (35 control units per unit).
pub const GAIN_P_MILLI: i64 = 3500;

/// Integral gain of both controllers: 0.009 control units per tenth of a
/// unit per tick (0.09 control units per unit).
pub const GAIN_I_MILLI: i64 = 9;

/// Derivative gain of both controllers: one thousandth of a control unit
/// per tenth of a unit (10 control units per unit).
pub const GAIN_D_MILLI: i64 = 1000;

/// What one cycle does with the actuator: whether to switch it on, how
/// long to hold it, whether to switch it off afterwards (near saturation
/// it stays on through the whole cycle), and how long the cycle then
/// rests.
#[derive(Clone, Copy, Debug, PartialEq, Eq, Structural)]
pub struct ActuationPlan {
    pub turn_on: bool,
    pub on_ms: u64,
    pub turn_off_after: bool,
    pub off_ms: u64,
}

/// The plan an on-fraction commands for one cycle.
pub open spec fn spec_plan(on_permille: int, cycle_ms: int, saturation_permille: int)
    -> ActuationPlan {
    let t = spec_duty_times(on_permille, cycle_ms);
    ActuationPlan {
        turn_on: on_permille > 0,
        on_ms: t.0 as u64,
        turn_off_after: on_permille < saturation_permille,
        off_ms: t.1 as u64,
    }
}

/// Derives the actuation plan of one cycle from the commanded
/// on-fraction: the actuator is switched on exactly when the fraction is
/// positive, switched off after the on-window unless the fraction has
/// reached the saturation threshold, and the two windows recombine to
/// the full cycle.
pub fn actuation_plan(on_permille: u32, cycle_ms: u64, saturation_permille: u32) -> (p:
    ActuationPlan)
    requires
        on_permille <= 1000,
        cycle_ms <= MAX_CYCLE_MS,
    ensures
        p == spec_plan(on_permille as int, cycle_ms as int, saturation_permille as int),
        p.on_ms + p.off_ms == cycle_ms,
{
    let t = duty_times(on_permille, cycle_ms);
    ActuationPlan {
        turn_on: on_permille > 0,
        on_ms: t.0,
        turn_off_after: on_permille < saturation_permille,
        off_ms: t.1,
    }
}

/// The fixed configuration of one loop instance.
#[derive(Clone, Copy, Debug, PartialEq, Eq, Structural)]
pub struct LoopConfig {
    /// The cycle period, in milliseconds.
    pub cycle_ms: u64,
    /// The on-fraction, in permille, from which the actuator is left on
    /// through the whole cycle.
    pub saturation_permille: u32,
}

impl LoopConfig {
    /// Well-formedness: the period is inside the fixed-point bound.
    pub open spec fn valid(self) -> bool {
        self.cycle_ms <= MAX_CYCLE_MS
    }
}

/// The mutable state of one loop instance: its controller and the plan
/// of the last cycle, retained so a failed acquisition degrades
/// gracefully instead of halting the loop.
#[derive(Clone, Copy, Debug, PartialEq, Eq, Structural)]
pub struct LoopState {
    pub pid: PidState,
    pub last_plan: ActuationPlan,
}

/// One tick of the loop as a mathematical function: a failed acquisition
/// leaves the state unchanged and repeats the previous plan; a reading
/// updates the controller and derives a fresh plan.
pub open spec fn spec_tick(s: LoopState, cfg: LoopConfig, reading: Option<i64>) -> (
    LoopState,
    ActuationPlan,
) {
    match reading {
        Option::None => (s, s.last_plan),
        Option::Some(m) => {
            let r = s.pid.spec_step(m as int);
            let f = spec_on_fraction_permille(r.1, s.pid.output_limit as int);
            let plan = spec_plan(f, cfg.cycle_ms as int, cfg.saturation_permille as int);
            (LoopState { pid: r.0, last_plan: plan }, plan)
        },
    }
}

impl LoopState {
    /// A fresh loop instance around a seeded controller; until the first
    /// reading arrives the retained plan commands nothing.
    pub fn new(pid: PidState, cfg: &LoopConfig) -> (s: LoopState)
        requires
            pid.valid(),
            cfg.valid(),
        ensures
            s.pid == pid,
            s.last_plan == spec_plan(0, cfg.cycle_ms as int, cfg.saturation_permille as int),
    {
        LoopState { pid, last_plan: actuation_plan(0, cfg.cycle_ms, cfg.saturation_permille) }
    }

    /// One tick: polls nothing itself, but takes the acquisition's
    /// outcome — a measured value in tenths, or nothing if the
    /// acquisition was exhausted — and returns the plan to actuate for
    /// the coming cycle.
    pub fn tick(&mut self, cfg: &LoopConfig, reading: Option<i64>) -> (plan: ActuationPlan)
        requires
            old(self).pid.valid(),
            cfg.valid(),
            reading matches Some(m) ==> -MAX_VALUE_TENTHS <= m <= MAX_VALUE_TENTHS,
        ensures
            (*final(self), plan) == spec_tick(*old(self), *cfg, reading),
            final(self).pid.valid(),
    {
        match reading {
            Option::None => self.last_plan,
            Option::Some(m) => {
                let output = self.pid.next_control_output(m);
                let f = on_fraction_permille(output, self.pid.output_limit);
                let plan = actuation_plan(f, cfg.cycle_ms, cfg.saturation_permille);
                self.last_plan = plan;
                plan
            },
        }
    }
}

} // verus!
