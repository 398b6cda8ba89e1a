//! The shared state: one slot for the latest outcome and a counter of
//! transport errors. The acquisition loop is its only writer; the handlers
//! of the exposition layer read it.

use vstd::prelude::*;
use crate::session::ReadingOutcome;

verus! {

/// The error count after one more cycle has ended in `outcome`. The counter
/// goes up by one for a transport error and stays at its maximum once it
/// has reached it.
pub open spec fn counted(count: u64, outcome: ReadingOutcome) -> u64 {
    if outcome is TransportError && count < u64::MAX {
        (count + 1) as u64
    } else {
        count
    }
}

/// The error count after a run of cycles, the first outcome first.
pub open spec fn counted_all(count: u64, outcomes: Seq<ReadingOutcome>) -> u64
    decreases outcomes.len(),
{
    if outcomes.len() == 0 {
        count
    } else {
        counted(counted_all(count, outcomes.drop_last()), outcomes.last())
    }
}

/// The latest outcome and the number of transport errors so far.
#[derive(Debug)]
pub struct SharedState {
    latest: ReadingOutcome,
    error_count: u64,
}

impl SharedState {
    /// The outcome that was published last.
    pub closed spec fn outcome(&self) -> ReadingOutcome {
        self.latest
    }

    /// The number of transport errors counted so far.
    pub closed spec fn errors(&self) -> u64 {
        self.error_count
    }

    /// The state at startup: no data, no errors.
    pub fn new() -> (state: SharedState)
        ensures
            state.outcome() == ReadingOutcome::NoData,
            state.errors() == 0,
    {
        SharedState { latest: ReadingOutcome::NoData, error_count: 0 }
    }

    /// A state without data whose counter starts at `error_count`, for a
    /// loop that carries on the count of an earlier run.
    pub fn with_error_count(error_count: u64) -> (state: SharedState)
        ensures
            state.outcome() == ReadingOutcome::NoData,
            state.errors() == error_count,
    {
        SharedState { latest: ReadingOutcome::NoData, error_count }
    }

    /// Replaces the latest outcome and leaves the error counter as it is.
    pub fn publish(&mut self, outcome: ReadingOutcome)
        ensures
            final(self).outcome() == outcome,
            final(self).errors() == old(self).errors(),
    {
        self.latest = outcome;
    }

    /// Counts one transport error. The counter saturates: at its maximum it
    /// stays where it is.
    pub fn count_error(&mut self)
        ensures
            final(self).outcome() == old(self).outcome(),
            final(self).errors() == if old(self).errors() < u64::MAX {
                old(self).errors() + 1
            } else {
                u64::MAX as int
            },
    {
        self.error_count = self.error_count.saturating_add(1);
    }

    /// Ends one acquisition cycle: counts the outcome if it is a transport
    /// error, then publishes it.
    pub fn record(&mut self, outcome: ReadingOutcome)
        ensures
            final(self).outcome() == outcome,
            final(self).errors() == counted(old(self).errors(), outcome),
    {
        if let ReadingOutcome::TransportError(_) = &outcome {
            self.count_error();
        }
        self.publish(outcome);
    }

    /// The latest outcome and the error count, as they are now.
    pub fn snapshot(&self) -> (snap: (ReadingOutcome, u64))
        ensures
            snap.0 == self.outcome(),
            snap.1 == self.errors(),
    {
        (self.latest.clone(), self.error_count)
    }
}

/// The error counter never goes down, whatever the cycles bring.
pub proof fn lemma_errors_never_decrease(count: u64, outcomes: Seq<ReadingOutcome>)
    ensures
        counted_all(count, outcomes) >= count,
    decreases outcomes.len(),
{
    if outcomes.len() > 0 {
        lemma_errors_never_decrease(count, outcomes.drop_last());
    }
}

/// A run of cycles that all end in a transport error raises the counter by
/// exactly one per cycle, up to the counter's maximum.
pub proof fn lemma_failed_cycles_counted(count: u64, outcomes: Seq<ReadingOutcome>)
    requires
        forall|i: int| 0 <= i < outcomes.len() ==> outcomes[i] is TransportError,
    ensures
        counted_all(count, outcomes) == if count + outcomes.len() <= u64::MAX {
            count + outcomes.len()
        } else {
            u64::MAX as int
        },
    decreases outcomes.len(),
{
    if outcomes.len() > 0 {
        lemma_failed_cycles_counted(count, outcomes.drop_last());
    }
}

/// Cycles that end without a transport error leave the counter unchanged.
pub proof fn lemma_clean_cycles_not_counted(count: u64, outcomes: Seq<ReadingOutcome>)
    requires
        forall|i: int| 0 <= i < outcomes.len() ==> !(outcomes[i] is TransportError),
    ensures
        counted_all(count, outcomes) == count,
    decreases outcomes.len(),
{
    if outcomes.len() > 0 {
        lemma_clean_cycles_not_counted(count, outcomes.drop_last());
    }
}

} // verus!
