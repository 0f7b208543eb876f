//! Data model: samples, per-task results, and batch outcomes.

use vstd::prelude::*;

verus! {

/// The outcome of one timed exchange: either an elapsed round-trip time in
/// nanoseconds, or an absence marker meaning the exchange failed and must be
/// excluded from aggregate statistics while still being recorded as a row.
#[derive(Clone, Copy, Debug, PartialEq, Eq, Structural)]
pub enum Sample {
    Measurement { nanos: u64 },
    Absence,
}

impl Sample {
    /// True of a sample that carries a measurement rather than the marker.
    pub open spec fn is_measurement(self) -> bool {
        self is Measurement
    }

    /// The measured value of a successful sample, as a mathematical integer.
    pub open spec fn value(self) -> int {
        self->Measurement_nanos as int
    }
}

/// The pair of samples produced by one measurement task: first the
/// structured-data exchange, then the markup exchange.  The two are
/// independent; the failure of one does not affect the other.
#[derive(Clone, Copy, Debug, PartialEq, Eq, Structural)]
pub struct TaskResult {
    pub structured: Sample,
    pub markup: Sample,
}

/// Everything one batch produced for a single size class: all task results in
/// completion order, plus the batch's total wall-clock time in milliseconds.
pub struct BatchOutcome {
    pub results: Vec<TaskResult>,
    pub total_ms: u64,
}

} // verus!
