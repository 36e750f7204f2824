//! Delivery-acknowledgement protocol: a batch of events shares one tracker;
//! each interested sink reports exactly one outcome for the batch, outcomes
//! aggregate worst-outcome-wins, and the originating source's receiver
//! observes exactly one terminal status per batch.

use vstd::prelude::*;

verus! {

/// Delivery outcome reported by one sink for one batch of events.
#[derive(Clone, Copy, Debug, PartialEq, Eq, Structural)]
pub enum BatchStatus {
    Delivered,
    Errored,
    Rejected,
}

/// Severity used by worst-outcome-wins aggregation: `Errored` dominates
/// `Rejected`, which dominates `Delivered`.
pub open spec fn severity(s: BatchStatus) -> int {
    match s {
        BatchStatus::Delivered => 0,
        BatchStatus::Rejected => 1,
        BatchStatus::Errored => 2,
    }
}

/// The worse of two outcomes.
pub open spec fn worse(a: BatchStatus, b: BatchStatus) -> BatchStatus {
    if severity(a) >= severity(b) {
        a
    } else {
        b
    }
}

/// Aggregate of a sequence of outcomes under worst-outcome-wins; the empty
/// sequence aggregates to `Delivered` (a batch with no interested reporters
/// counts as delivered).
pub open spec fn worst_of(s: Seq<BatchStatus>) -> BatchStatus
    decreases s.len(),
{
    if s.len() == 0 {
        BatchStatus::Delivered
    } else {
        worse(worst_of(s.drop_last()), s.last())
    }
}

/// The aggregated status depends only on which outcomes occur, never on the
/// order or interleaving in which the reporters delivered them: it is
/// `Errored` exactly when some report was `Errored`, `Rejected` exactly when
/// some report was `Rejected` and none `Errored`, and `Delivered` exactly
/// when every report was `Delivered`.
pub proof fn lemma_worst_characterization(s: Seq<BatchStatus>)
    ensures
        (worst_of(s) == BatchStatus::Errored) <==> s.contains(BatchStatus::Errored),
        (worst_of(s) == BatchStatus::Rejected) <==> (!s.contains(BatchStatus::Errored)
            && s.contains(BatchStatus::Rejected)),
        (worst_of(s) == BatchStatus::Delivered) <==> (!s.contains(BatchStatus::Errored)
            && !s.contains(BatchStatus::Rejected)),
    decreases s.len(),
{
    if s.len() == 0 {
        assert(forall|x: BatchStatus| !s.contains(x));
    } else {
        let t = s.drop_last();
        lemma_worst_characterization(t);
        assert forall|x: BatchStatus| #[trigger] s.contains(x) implies t.contains(x) || s.last()
            == x by {
            let i = choose|i: int| 0 <= i < s.len() && s[i] == x;
            if i < s.len() - 1 {
                assert(t[i] == x);
            }
        }
        assert forall|x: BatchStatus| #[trigger] t.contains(x) implies s.contains(x) by {
            let i = choose|i: int| 0 <= i < t.len() && t[i] == x;
            assert(s[i] == x);
        }
        assert(s.contains(s.last()));
    }
}

/// Abstract state of one batch's acknowledgement channel: how many reporters
/// are expected, which outcomes arrived so far (oldest first), whether the
/// tracker side was abandoned before everyone reported, and whether the
/// receiver has already taken the terminal status.
pub ghost struct TrackerView {
    pub expected: nat,
    pub outcomes: Seq<BatchStatus>,
    pub taken: bool,
    pub abandoned: bool,
}

impl TrackerView {
    /// True once no further report can arrive: either every expected
    /// reporter has reported, or the tracker side was abandoned.
    pub open spec fn resolved(self) -> bool {
        self.outcomes.len() == self.expected || self.abandoned
    }

    /// The terminal status the receiver observes: the worst reported outcome
    /// when everyone reported, and `Errored` when the tracker was abandoned
    /// with reports outstanding (a crashed pipeline must not look like a
    /// clean delivery).
    pub open spec fn terminal_status(self) -> BatchStatus {
        if self.outcomes.len() == self.expected {
            worst_of(self.outcomes)
        } else {
            BatchStatus::Errored
        }
    }
}

/// Shared aggregation state for one batch.
///
/// This is the protocol's decision core; concurrent sharing of one value of
/// this type between a source and its sinks is layered on outside the
/// verified library.
pub struct BatchChannel {
    expected: usize,
    reported: usize,
    worst: BatchStatus,
    taken: bool,
    abandoned: bool,
    outcomes: Ghost<Seq<BatchStatus>>,
}

impl View for BatchChannel {
    type V = TrackerView;

    closed spec fn view(&self) -> TrackerView {
        TrackerView {
            expected: self.expected as nat,
            outcomes: self.outcomes@,
            taken: self.taken,
            abandoned: self.abandoned,
        }
    }
}

impl BatchChannel {
    /// Internal consistency of the aggregation state.
    pub closed spec fn wf(&self) -> bool {
        &&& self.reported == self.outcomes@.len()
        &&& self.reported <= self.expected
        &&& self.worst == worst_of(self.outcomes@)
        &&& (self.taken ==> self@.resolved())
    }

    /// Create the shared state for one batch with `expected` reporters; a
    /// batch with zero expected reporters is resolved immediately, to
    /// `Delivered`.
    pub fn new_with_receiver(expected: usize) -> (r: BatchChannel)
        ensures
            r.wf(),
            r@.expected == expected,
            r@.outcomes == Seq::<BatchStatus>::empty(),
            !r@.taken,
            !r@.abandoned,
            expected == 0 ==> r@.resolved() && r@.terminal_status() == BatchStatus::Delivered,
    {
        BatchChannel {
            expected,
            reported: 0,
            worst: BatchStatus::Delivered,
            taken: false,
            abandoned: false,
            outcomes: Ghost(Seq::empty()),
        }
    }

    /// One reporter delivers its outcome for this batch. Each expected
    /// reporter calls this exactly once, so no more than `expected` reports
    /// ever arrive, and none after the tracker was abandoned.
    pub fn report(&mut self, s: BatchStatus)
        requires
            old(self).wf(),
            old(self)@.outcomes.len() < old(self)@.expected,
            !old(self)@.abandoned,
        ensures
            final(self).wf(),
            final(self)@.outcomes == old(self)@.outcomes.push(s),
            final(self)@.expected == old(self)@.expected,
            final(self)@.taken == old(self)@.taken,
            final(self)@.abandoned == old(self)@.abandoned,
    {
        proof {
            assert(self.outcomes@.push(s).drop_last() =~= self.outcomes@);
        }
        self.reported = self.reported + 1;
        self.worst = worse_exec(self.worst, s);
        self.outcomes = Ghost(self.outcomes@.push(s));
    }

    /// The tracker side (and every clone of it) was dropped: no further
    /// report can arrive. If reports were still outstanding, the batch
    /// resolves to `Errored` rather than leaving the receiver waiting
    /// forever.
    pub fn abandon(&mut self)
        requires
            old(self).wf(),
        ensures
            final(self).wf(),
            final(self)@.abandoned,
            final(self)@.resolved(),
            final(self)@.outcomes == old(self)@.outcomes,
            final(self)@.expected == old(self)@.expected,
            final(self)@.taken == old(self)@.taken,
            final(self)@.terminal_status() == old(self)@.terminal_status(),
    {
        self.abandoned = true;
    }

    /// Non-blocking receive of the terminal status: yields the aggregated
    /// outcome exactly once, the first time it is polled after the batch
    /// resolved; every later poll, and every poll before resolution, yields
    /// nothing.
    pub fn try_recv(&mut self) -> (r: Option<BatchStatus>)
        requires
            old(self).wf(),
        ensures
            final(self).wf(),
            r == (if old(self)@.resolved() && !old(self)@.taken {
                Some(old(self)@.terminal_status())
            } else {
                Option::<BatchStatus>::None
            }),
            final(self)@.taken == (old(self)@.taken || r is Some),
            final(self)@.outcomes == old(self)@.outcomes,
            final(self)@.expected == old(self)@.expected,
            final(self)@.abandoned == old(self)@.abandoned,
            final(self)@.terminal_status() == old(self)@.terminal_status(),
    {
        if (self.reported == self.expected || self.abandoned) && !self.taken {
            self.taken = true;
            if self.reported == self.expected {
                Some(self.worst)
            } else {
                Some(BatchStatus::Errored)
            }
        } else {
            None
        }
    }
}

/// The worse of two outcomes, as a value.
pub fn worse_exec(a: BatchStatus, b: BatchStatus) -> (r: BatchStatus)
    ensures
        r == worse(a, b),
{
    match (a, b) {
        (BatchStatus::Errored, _) => BatchStatus::Errored,
        (_, BatchStatus::Errored) => BatchStatus::Errored,
        (BatchStatus::Rejected, _) => BatchStatus::Rejected,
        (_, BatchStatus::Rejected) => BatchStatus::Rejected,
        _ => BatchStatus::Delivered,
    }
}

} // verus!
