//! Error taxonomy of the controller core.

use vstd::prelude::*;

verus! {

/// A failure of one sensor-protocol transaction.  All variants are
/// non-fatal to the caller: they mean "this transaction failed", not
/// process termination.
#[derive(Clone, Copy, Debug, PartialEq, Eq, Structural)]
pub enum SensorError {
    /// A handshake or bit wait exceeded the protocol's timeout bound.
    Timeout,
    /// Byte 4 of the frame did not match the mod-256 sum of bytes 0..3.
    ChecksumMismatch,
    /// The underlying GPIO subsystem could not hand out the pin.
    PinUnavailable,
}

/// Why one acquisition attempt failed: either the protocol transaction
/// itself failed, or it produced a reading outside the plausible range.
#[derive(Clone, Copy, Debug, PartialEq, Eq, Structural)]
pub enum AttemptFailure {
    Protocol(SensorError),
    Implausible,
}

/// A terminal failure of the acquisition layer: the retry budget was
/// spent without obtaining a plausible reading.  Carries the cause of
/// the last failed attempt.
#[derive(Clone, Copy, Debug, PartialEq, Eq, Structural)]
pub enum AcquisitionError {
    AcquisitionExhausted(AttemptFailure),
}

/// A failure of an operation on the project store.
#[derive(Clone, Copy, Debug, PartialEq, Eq, Structural)]
pub enum StoreError {
    /// No project with the requested id exists (or no project is active).
    ProjectNotFound,
    /// A different project is already running, so this one cannot start.
    AnotherProjectRunning,
}

} // verus!
