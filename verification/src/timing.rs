//! The timing primitive of one measurement task.
//!
//! A task performs two exchanges in strict sequence: the structured-data
//! exchange first, the markup exchange only after it has completed or
//! failed.  The surrounding asynchronous code owns the clock and the
//! transport; it reports each phase boundary here with a monotonic timestamp
//! in nanoseconds, and the machine turns the reports into the task's two
//! samples: a send failure, a body-drain failure or an error status becomes
//! the absence marker, a completed exchange becomes the elapsed time of its
//! timed window.

use vstd::prelude::*;

use crate::sample::Sample;
use crate::sample::TaskResult;

verus! {

/// What went wrong in a failed exchange: the request could not be sent, the
/// response body could not be drained, or the server answered with an error
/// status — in particular its 400 on a body-read failure.  Any of the three
/// yields the absence marker rather than a measurement.
#[derive(Clone, Copy, Debug, PartialEq, Eq, Structural)]
pub enum ExchangeError {
    SendFailed,
    DrainFailed,
    ErrorStatus,
}

/// Classifies a response by its HTTP status: a success-class status keeps
/// the exchange a measurement, any other status fails it.  A server-side
/// body-read failure thus counts like a failed send or drain, exactly as a
/// transport error would.
pub fn classify_status(status: u16) -> (r: Option<ExchangeError>)
    ensures
        r is None <==> 200 <= status < 300,
        !(200 <= status < 300) ==> r == Some(ExchangeError::ErrorStatus),
{
    if 200 <= status && status < 300 {
        Option::None
    } else {
        Option::Some(ExchangeError::ErrorStatus)
    }
}

/// Where a task stands between its phase boundaries.
#[derive(Clone, Copy, Debug, PartialEq, Eq, Structural)]
pub enum TaskPhase {
    Ready,
    StructuredAwaiting,
    StructuredDone,
    MarkupAwaiting,
    Finished,
}

/// One task's run: its phase, the recorded boundary instants, and the
/// samples of the exchanges that have ended.
pub struct TaskRun {
    pub phase: TaskPhase,
    pub structured_start: u64,
    pub structured_end: u64,
    pub markup_start: u64,
    pub markup_end: u64,
    pub structured_sample: Sample,
    pub markup_sample: Sample,
}

impl TaskRun {
    /// Well-formedness: the instants recorded so far never run backwards,
    /// and in particular the markup exchange starts no earlier than the
    /// structured exchange completed.
    pub open spec fn wf(self) -> bool {
        &&& (self.phase is StructuredDone || self.phase is MarkupAwaiting
            || self.phase is Finished) ==> self.structured_start <= self.structured_end
        &&& (self.phase is MarkupAwaiting || self.phase is Finished)
            ==> self.structured_end <= self.markup_start
        &&& self.phase is Finished ==> self.markup_start <= self.markup_end
    }

    /// A task that has not begun its first exchange.
    pub fn new() -> (t: Self)
        ensures
            t.wf(),
            t.phase is Ready,
    {
        TaskRun {
            phase: TaskPhase::Ready,
            structured_start: 0,
            structured_end: 0,
            markup_start: 0,
            markup_end: 0,
            structured_sample: Sample::Absence,
            markup_sample: Sample::Absence,
        }
    }

    /// Opens the structured exchange's timed window at instant `now`.
    pub fn begin_structured(&mut self, now: u64)
        requires
            old(self).wf(),
            old(self).phase is Ready,
        ensures
            final(self).wf(),
            final(self).phase is StructuredAwaiting,
            final(self).structured_start == now,
    {
        self.structured_start = now;
        self.phase = TaskPhase::StructuredAwaiting;
    }

    /// Closes the structured exchange at instant `now`: a failure becomes
    /// the absence marker, success becomes the window's elapsed nanoseconds.
    pub fn finish_structured(&mut self, now: u64, failure: Option<ExchangeError>)
        requires
            old(self).wf(),
            old(self).phase is StructuredAwaiting,
            old(self).structured_start <= now,
        ensures
            final(self).wf(),
            final(self).phase is StructuredDone,
            final(self).structured_start == old(self).structured_start,
            final(self).structured_end == now,
            final(self).structured_sample == (match failure {
                Option::None => Sample::Measurement {
                    nanos: (now - old(self).structured_start) as u64,
                },
                Option::Some(_) => Sample::Absence,
            }),
    {
        self.structured_end = now;
        self.structured_sample = match failure {
            Option::None => Sample::Measurement { nanos: now - self.structured_start },
            Option::Some(_) => Sample::Absence,
        };
        self.phase = TaskPhase::StructuredDone;
    }

    /// Opens the markup exchange's timed window at instant `now`.  The
    /// precondition `structured_end <= now` is what strict sequencing means:
    /// the second exchange begins only after the first has ended.
    pub fn begin_markup(&mut self, now: u64)
        requires
            old(self).wf(),
            old(self).phase is StructuredDone,
            old(self).structured_end <= now,
        ensures
            final(self).wf(),
            final(self).phase is MarkupAwaiting,
            final(self).structured_start == old(self).structured_start,
            final(self).structured_end == old(self).structured_end,
            final(self).structured_sample == old(self).structured_sample,
            final(self).markup_start == now,
    {
        self.markup_start = now;
        self.phase = TaskPhase::MarkupAwaiting;
    }

    /// Closes the markup exchange at instant `now`, as for the structured
    /// one.
    pub fn finish_markup(&mut self, now: u64, failure: Option<ExchangeError>)
        requires
            old(self).wf(),
            old(self).phase is MarkupAwaiting,
            old(self).markup_start <= now,
        ensures
            final(self).wf(),
            final(self).phase is Finished,
            final(self).structured_start == old(self).structured_start,
            final(self).structured_end == old(self).structured_end,
            final(self).structured_sample == old(self).structured_sample,
            final(self).markup_start == old(self).markup_start,
            final(self).markup_end == now,
            final(self).markup_sample == (match failure {
                Option::None => Sample::Measurement {
                    nanos: (now - old(self).markup_start) as u64,
                },
                Option::Some(_) => Sample::Absence,
            }),
    {
        self.markup_end = now;
        self.markup_sample = match failure {
            Option::None => Sample::Measurement { nanos: now - self.markup_start },
            Option::Some(_) => Sample::Absence,
        };
        self.phase = TaskPhase::Finished;
    }

    /// The finished task's pair of samples.
    pub fn result(&self) -> (r: TaskResult)
        requires
            self.phase is Finished,
        ensures
            r.structured == self.structured_sample,
            r.markup == self.markup_sample,
    {
        TaskResult { structured: self.structured_sample, markup: self.markup_sample }
    }

    /// Law: within any single task, the markup exchange starts no earlier
    /// than the structured exchange completed.
    pub proof fn lemma_strict_sequencing(self)
        requires
            self.wf(),
            self.phase is MarkupAwaiting || self.phase is Finished,
        ensures
            self.structured_end <= self.markup_start,
            self.structured_start <= self.structured_end,
    {
    }
}

} // verus!
