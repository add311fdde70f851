//! Bounded-retry acquisition of a trustworthy reading.
//!
//! The physical protocol is noisy, so a single transaction often fails.
//! This layer masks transient failures: it allows up to `MAX_RETRIES`
//! attempts, screens every successful transaction against a plausibility
//! range, and turns the whole into either a validated reading or the
//! terminal `AcquisitionExhausted`.  The loop that performs the attempts
//! runs outside the library; each attempt's outcome is fed to
//! `on_attempt`, which owns every decision.

use vstd::prelude::*;

use crate::errors::AcquisitionError;
use crate::errors::AttemptFailure;
use crate::errors::SensorError;
use crate::reading::SensorData;

verus! {

/// Upper bound on protocol attempts per acquisition.
pub const MAX_RETRIES: u8 = 5;

/// Highest plausible temperature, in tenths of a degree Celsius.
pub const MAX_TEMP_TENTHS: i32 = 500;

/// Lowest plausible temperature, in tenths of a degree Celsius.
pub const MIN_TEMP_TENTHS: i32 = 0;

/// Highest plausible humidity, in tenths of a percent relative humidity.
pub const MAX_HUM_TENTHS: i32 = 1000;

/// Lowest plausible humidity, in tenths of a percent relative humidity.
pub const MIN_HUM_TENTHS: i32 = 0;

/// Whether a reading lies in the physically plausible range: temperature
/// in [0, 50] degrees Celsius and humidity in [0, 100] percent.
pub open spec fn spec_plausible(d: SensorData) -> bool {
    &&& MIN_TEMP_TENTHS <= d.temp_tenths <= MAX_TEMP_TENTHS
    &&& MIN_HUM_TENTHS <= d.hum_tenths <= MAX_HUM_TENTHS
}

/// The plausibility screen: accepts exactly the readings inside the
/// plausible range, and rejects every other reading as `Implausible`.
pub fn sanity_check_sensor_data(d: &SensorData) -> (r: Result<(), AttemptFailure>)
    ensures
        r is Ok <==> spec_plausible(*d),
        !spec_plausible(*d) ==> r == Err::<(), AttemptFailure>(AttemptFailure::Implausible),
{
    if d.temp_tenths > MAX_TEMP_TENTHS || d.temp_tenths < MIN_TEMP_TENTHS {
        return Err(AttemptFailure::Implausible);
    }
    if d.hum_tenths > MAX_HUM_TENTHS || d.hum_tenths < MIN_HUM_TENTHS {
        return Err(AttemptFailure::Implausible);
    }
    Ok(())
}

/// The retry budget of one acquisition: how many attempts have failed so
/// far.  Fresh for every acquisition.
#[derive(Clone, Copy, Debug, PartialEq, Eq, Structural)]
pub struct AcquisitionState {
    pub retries: u8,
}

/// What the acquisition does after one attempt: hand out the validated
/// reading, try again, or give up.
#[derive(Clone, Copy, Debug, PartialEq, Eq, Structural)]
pub enum AcquisitionStep {
    Done(SensorData),
    Retry,
    Failed(AcquisitionError),
}

/// Whether an attempt's outcome counts as a failure: a protocol error
/// does, and so does a successful transaction whose reading is outside
/// the plausible range.
pub open spec fn spec_is_failure(outcome: Result<SensorData, SensorError>) -> bool {
    match outcome {
        Ok(d) => !spec_plausible(d),
        Err(_) => true,
    }
}

/// The cause recorded for a failed outcome.
pub open spec fn spec_failure_cause(outcome: Result<SensorData, SensorError>) -> AttemptFailure {
    match outcome {
        Ok(_) => AttemptFailure::Implausible,
        Err(e) => AttemptFailure::Protocol(e),
    }
}

/// The acquisition's transition on one attempt's outcome: a plausible
/// reading ends the acquisition; a failure consumes one unit of the
/// retry budget, and spending the last unit ends it with
/// `AcquisitionExhausted` carrying the last cause.
pub open spec fn spec_on_attempt(s: AcquisitionState, outcome: Result<SensorData, SensorError>) -> (
    AcquisitionState,
    AcquisitionStep,
) {
    match outcome {
        Ok(d) => {
            if spec_plausible(d) {
                (s, AcquisitionStep::Done(d))
            } else {
                spec_count_failure(s, AttemptFailure::Implausible)
            }
        },
        Err(e) => spec_count_failure(s, AttemptFailure::Protocol(e)),
    }
}

/// Books one failed attempt against the budget.
pub open spec fn spec_count_failure(s: AcquisitionState, cause: AttemptFailure) -> (
    AcquisitionState,
    AcquisitionStep,
) {
    let s2 = AcquisitionState { retries: (s.retries + 1) as u8 };
    if s.retries + 1 >= MAX_RETRIES {
        (s2, AcquisitionStep::Failed(AcquisitionError::AcquisitionExhausted(cause)))
    } else {
        (s2, AcquisitionStep::Retry)
    }
}

impl AcquisitionState {
    /// A fresh budget: no attempt has failed yet.
    pub fn new() -> (s: AcquisitionState)
        ensures
            s == (AcquisitionState { retries: 0 }),
    {
        AcquisitionState { retries: 0 }
    }

    /// The budget is not spent: another attempt may still be made.
    pub open spec fn valid(self) -> bool {
        self.retries < MAX_RETRIES
    }

    /// Feeds one attempt's outcome to the acquisition and returns its
    /// decision: the validated reading, a retry, or the terminal failure.
    pub fn on_attempt(&mut self, outcome: Result<SensorData, SensorError>) -> (step:
        AcquisitionStep)
        requires
            old(self).valid(),
        ensures
            (*final(self), step) == spec_on_attempt(*old(self), outcome),
            step is Retry ==> final(self).valid(),
    {
        match outcome {
            Ok(d) => {
                match sanity_check_sensor_data(&d) {
                    Ok(_) => AcquisitionStep::Done(d),
                    Err(cause) => self.count_failure(cause),
                }
            },
            Err(e) => self.count_failure(AttemptFailure::Protocol(e)),
        }
    }

    /// Books one failed attempt; fails the acquisition when the budget
    /// is spent.
    fn count_failure(&mut self, cause: AttemptFailure) -> (step: AcquisitionStep)
        requires
            old(self).valid(),
        ensures
            (*final(self), step) == spec_count_failure(*old(self), cause),
            step is Retry ==> final(self).valid(),
    {
        self.retries = self.retries + 1;
        if self.retries >= MAX_RETRIES {
            AcquisitionStep::Failed(AcquisitionError::AcquisitionExhausted(cause))
        } else {
            AcquisitionStep::Retry
        }
    }
}

/// The whole acquisition as a function of the attempt outcomes it would
/// see: feeds them to the machine in order until it decides.  An empty or
/// exhausted-without-decision sequence leaves it still retrying.
pub open spec fn spec_run(s: AcquisitionState, outcomes: Seq<Result<SensorData, SensorError>>)
    -> AcquisitionStep
    decreases outcomes.len(),
{
    if outcomes.len() == 0 {
        AcquisitionStep::Retry
    } else {
        let r = spec_on_attempt(s, outcomes[0]);
        if r.1 is Retry {
            spec_run(r.0, outcomes.drop_first())
        } else {
            r.1
        }
    }
}

/// The acquisition never makes more than `MAX_RETRIES` attempts: from a
/// fresh budget, a run of failing outcomes is still retrying strictly
/// before the bound, and ends with `AcquisitionExhausted` carrying the
/// last cause exactly at the bound.
pub proof fn lemma_retry_bound(outcomes: Seq<Result<SensorData, SensorError>>)
    requires
        forall|i: int| 0 <= i < outcomes.len() ==> spec_is_failure(#[trigger] outcomes[i]),
        outcomes.len() <= MAX_RETRIES,
    ensures
        outcomes.len() < MAX_RETRIES ==> spec_run(AcquisitionState { retries: 0 }, outcomes)
            == AcquisitionStep::Retry,
        outcomes.len() == MAX_RETRIES ==> spec_run(AcquisitionState { retries: 0 }, outcomes)
            == AcquisitionStep::Failed(
            AcquisitionError::AcquisitionExhausted(spec_failure_cause(outcomes.last())),
        ),
{
    lemma_retry_bound_from(AcquisitionState { retries: 0 }, outcomes);
}

proof fn lemma_retry_bound_from(s: AcquisitionState, outcomes: Seq<Result<SensorData, SensorError>>)
    requires
        s.valid(),
        forall|i: int| 0 <= i < outcomes.len() ==> spec_is_failure(#[trigger] outcomes[i]),
        s.retries + outcomes.len() <= MAX_RETRIES,
    ensures
        s.retries + outcomes.len() < MAX_RETRIES ==> spec_run(s, outcomes)
            == AcquisitionStep::Retry,
        s.retries + outcomes.len() == MAX_RETRIES && outcomes.len() > 0 ==> spec_run(s, outcomes)
            == AcquisitionStep::Failed(
            AcquisitionError::AcquisitionExhausted(spec_failure_cause(outcomes.last())),
        ),
    decreases outcomes.len(),
{
    if outcomes.len() > 0 {
        let r = spec_on_attempt(s, outcomes[0]);
        if r.1 is Retry {
            lemma_retry_bound_from(r.0, outcomes.drop_first());
            if outcomes.len() > 1 {
                assert(outcomes.drop_first().last() == outcomes.last());
            }
        }
    }
}

} // verus!
