//! Aggregating probe outcomes into the run's verdict.
//!
//! The supervisor knows how many probe tasks were spawned (exactly one per
//! target) and collects exactly one outcome per task, in whatever order the
//! tasks complete. The rule is all-or-nothing: the run succeeds only if
//! every task reported `Ready`. No task is cancelled when a sibling fails —
//! every outcome is collected before the verdict — but each failure's
//! diagnostic is handed out immediately as it arrives.

use vstd::prelude::*;

use crate::probe::{FailReason, ProbeOutcome};

verus! {

/// Every collected outcome is `Ready`.
pub open spec fn all_ready(s: Seq<ProbeOutcome>) -> bool {
    forall|i: int| 0 <= i < s.len() ==> (#[trigger] s[i]) is Ready
}

/// How many collected outcomes are failures.
pub open spec fn failure_count(s: Seq<ProbeOutcome>) -> nat
    decreases s.len(),
{
    if s.len() == 0 {
        0
    } else {
        failure_count(s.drop_last()) + (if s.last() is Failed {
            1nat
        } else {
            0nat
        })
    }
}

proof fn lemma_failure_count_bound(s: Seq<ProbeOutcome>)
    ensures
        failure_count(s) <= s.len(),
    decreases s.len(),
{
    if s.len() > 0 {
        lemma_failure_count_bound(s.drop_last());
    }
}

proof fn lemma_failure_count_zero_iff_all_ready(s: Seq<ProbeOutcome>)
    ensures
        failure_count(s) == 0 <==> all_ready(s),
    decreases s.len(),
{
    if s.len() > 0 {
        lemma_failure_count_zero_iff_all_ready(s.drop_last());
        if all_ready(s) {
            assert forall|i: int| 0 <= i < s.drop_last().len() implies (#[trigger] s.drop_last()[i])
                is Ready by {
                assert(s.drop_last()[i] == s[i]);
            }
        }
        if failure_count(s) == 0 {
            assert forall|i: int| 0 <= i < s.len() implies (#[trigger] s[i]) is Ready by {
                if i < s.len() - 1 {
                    assert(s[i] == s.drop_last()[i]);
                } else {
                    assert(s[i] == s.last());
                }
            }
        }
    }
}

/// The readiness supervisor of one run: it expects one outcome per spawned
/// probe task and aggregates them into the run's verdict.
pub struct Supervisor {
    /// How many probe tasks were spawned (one per target).
    pub expected: usize,
    /// How many outcomes have arrived so far.
    pub received: usize,
    /// How many of them were failures.
    pub failed: usize,
    /// The outcomes collected so far, in completion order.
    pub outcomes: Ghost<Seq<ProbeOutcome>>,
}

impl Supervisor {
    pub open spec fn wf(&self) -> bool {
        &&& self.received == self.outcomes@.len()
        &&& self.received <= self.expected
        &&& self.failed == failure_count(self.outcomes@)
    }

    /// A supervisor for a run that spawned `expected` probe tasks.
    ///
    /// With `expected == 0` (an empty target list) the run is decided at
    /// once, and successfully: nothing was there to wait for, and no probe
    /// task is ever spawned.
    pub fn new(expected: usize) -> (r: Supervisor)
        ensures
            r.wf(),
            r.expected == expected,
            r.received == 0,
            r.outcomes@ == Seq::<ProbeOutcome>::empty(),
    {
        Supervisor { expected, received: 0, failed: 0, outcomes: Ghost(Seq::empty()) }
    }

    /// Collect one completed task's outcome, in completion order.
    ///
    /// Returns the diagnostic to write out immediately when the outcome is
    /// a failure: failures are reported as they arrive, even though the
    /// verdict still waits for every remaining task.
    pub fn record(&mut self, outcome: ProbeOutcome) -> (diag: Option<FailReason>)
        requires
            old(self).wf(),
            old(self).received < old(self).expected,
        ensures
            final(self).wf(),
            final(self).expected == old(self).expected,
            final(self).received == old(self).received + 1,
            final(self).outcomes@ == old(self).outcomes@.push(outcome),
            match outcome {
                ProbeOutcome::Ready => diag is None,
                ProbeOutcome::Failed(rsn) => diag == Some(rsn),
            },
    {
        proof {
            lemma_failure_count_bound(self.outcomes@);
            assert(self.outcomes@.push(outcome).drop_last() =~= self.outcomes@);
        }
        self.received = self.received + 1;
        let ghost o = outcome;
        self.outcomes = Ghost(self.outcomes@.push(o));
        match outcome {
            ProbeOutcome::Ready => None,
            ProbeOutcome::Failed(rsn) => {
                self.failed = self.failed + 1;
                Some(rsn)
            },
        }
    }

    /// Every expected outcome has arrived.
    pub fn decided(&self) -> (r: bool)
        ensures
            r == (self.received == self.expected),
    {
        self.received == self.expected
    }

    /// The run's verdict, once every outcome is in: success only if every
    /// task reported `Ready`.
    pub fn verdict(&self) -> (r: bool)
        requires
            self.wf(),
            self.received == self.expected,
        ensures
            r == all_ready(self.outcomes@),
    {
        proof {
            lemma_failure_count_zero_iff_all_ready(self.outcomes@);
        }
        self.failed == 0
    }

    /// Whether control may pass to the downstream command: only when the
    /// run is decided and every outcome was `Ready`.
    pub fn should_handoff(&self) -> (r: bool)
        requires
            self.wf(),
        ensures
            r == (self.received == self.expected && all_ready(self.outcomes@)),
    {
        proof {
            lemma_failure_count_zero_iff_all_ready(self.outcomes@);
        }
        self.received == self.expected && self.failed == 0
    }
}

/// A run with no targets succeeds immediately: the empty outcome history is
/// all-ready, so a supervisor that expects nothing gives the success
/// verdict without any probe task having been spawned.
pub proof fn lemma_empty_run_succeeds()
    ensures
        all_ready(Seq::<ProbeOutcome>::empty()),
{
}

/// The verdict ignores completion order: two outcome histories that are
/// permutations of one another (the same outcomes, arriving in any order)
/// are either both fully ready or both not.
pub proof fn lemma_verdict_ignores_completion_order(a: Seq<ProbeOutcome>, b: Seq<ProbeOutcome>)
    requires
        a.to_multiset() == b.to_multiset(),
    ensures
        all_ready(a) == all_ready(b),
{
    if all_ready(a) {
        lemma_all_ready_permuted(a, b);
    }
    if all_ready(b) {
        lemma_all_ready_permuted(b, a);
    }
}

proof fn lemma_all_ready_permuted(a: Seq<ProbeOutcome>, b: Seq<ProbeOutcome>)
    requires
        a.to_multiset() == b.to_multiset(),
        all_ready(a),
    ensures
        all_ready(b),
{
    broadcast use vstd::seq_lib::group_to_multiset_ensures;

    assert forall|i: int| 0 <= i < b.len() implies (#[trigger] b[i]) is Ready by {
        assert(b.contains(b[i]));
        assert(b.to_multiset().count(b[i]) > 0);
        assert(a.contains(b[i]));
        let j = choose|j: int| 0 <= j < a.len() && a[j] == b[i];
        assert(a[j] is Ready);
    }
}

/// One failed task anywhere in the history makes the run's verdict
/// failure, so the downstream command is never started: handing off
/// requires a decided, fully-ready run.
pub proof fn lemma_any_failure_blocks_handoff(s: Seq<ProbeOutcome>, i: int)
    requires
        0 <= i < s.len(),
        s[i] is Failed,
    ensures
        !all_ready(s),
{
}

} // verus!
