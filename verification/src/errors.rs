//! The error taxonomy of the tally store. Every error is surfaced to the
//! caller; none is retried and none mutates state.

use vstd::prelude::*;

verus! {

/// The caller supplied illegal input. Checked before anything else, in this
/// order: weight too low, weight too high, unrecognised choice.
#[derive(Clone, Copy, Debug, PartialEq, Eq, Structural)]
pub enum ValidationError {
    WeightTooLow,
    WeightTooHigh,
    InvalidChoice,
}

/// Why a submission was rejected: illegal input, or the principal already
/// has a record (a terminal business condition, not a transient fault).
#[derive(Clone, Copy, Debug, PartialEq, Eq, Structural)]
pub enum SubmissionError {
    Invalid(ValidationError),
    AlreadySubmitted,
}

/// Why a maintenance call failed: the principal it names has no record.
#[derive(Clone, Copy, Debug, PartialEq, Eq, Structural)]
pub enum MaintenanceError {
    NotFound,
}

} // verus!
