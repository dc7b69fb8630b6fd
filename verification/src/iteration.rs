//! Iteration budget of the self-consistent Poisson <-> NEGF loop.
//!
//! The loop runs iterations numbered `1, 2, ..., max_iterations`. After each
//! one it learns whether the potential stopped changing (the largest change
//! dropped below the tolerance). It stops with success at the first
//! iteration that converged, and gives up, reporting `max_iterations`
//! iterations, when none of them did. A budget of zero gives up at once.
//!
//! The numerical work of an iteration is done by the caller; this module
//! decides what comes next.

use vstd::prelude::*;

verus! {

/// Where the loop stands.
#[derive(Clone, Copy, Debug, PartialEq, Eq, Structural)]
pub enum LoopStatus {
    /// Iteration `next` (1-based) is to be run.
    Running { next: usize },
    /// Iteration `iterations` converged; the loop is done.
    Converged { iterations: usize },
    /// The budget is spent without convergence; `iterations` is the budget.
    NotConverged { iterations: usize },
}

/// Status before any iteration has run.
pub open spec fn initial_status(max_iterations: usize) -> LoopStatus {
    if max_iterations == 0 {
        LoopStatus::NotConverged { iterations: 0 }
    } else {
        LoopStatus::Running { next: 1 }
    }
}

/// Status after the current iteration reports whether it converged.
/// A finished loop stays as it is.
pub open spec fn next_status(max_iterations: usize, status: LoopStatus, converged: bool) -> LoopStatus {
    match status {
        LoopStatus::Running { next } => {
            if converged {
                LoopStatus::Converged { iterations: next }
            } else if next >= max_iterations {
                LoopStatus::NotConverged { iterations: max_iterations }
            } else {
                LoopStatus::Running { next: (next + 1) as usize }
            }
        },
        _ => status,
    }
}

/// Status after the iterations report, in order, the outcomes `outcomes`.
pub open spec fn status_after(
    max_iterations: usize,
    status: LoopStatus,
    outcomes: Seq<bool>,
) -> LoopStatus
    decreases outcomes.len(),
{
    if outcomes.len() == 0 {
        status
    } else {
        status_after(
            max_iterations,
            next_status(max_iterations, status, outcomes[0]),
            outcomes.drop_first(),
        )
    }
}

/// Whether some of the first `count` outcomes is a convergence.
pub open spec fn converges_within(outcomes: Seq<bool>, count: int) -> bool {
    exists|k: int| 0 <= k < count && k < outcomes.len() && outcomes[k]
}

/// Index of the first convergence among the outcomes (meaningful when there
/// is one).
pub open spec fn first_convergence(outcomes: Seq<bool>) -> int {
    choose|k: int| 0 <= k < outcomes.len() && outcomes[k] && forall|j: int| 0 <= j < k ==> !outcomes[j]
}

/// The statuses the loop can be in for a budget of `max_iterations`.
pub open spec fn status_wf(max_iterations: usize, status: LoopStatus) -> bool {
    match status {
        LoopStatus::Running { next } => 1 <= next <= max_iterations,
        LoopStatus::Converged { iterations } => 1 <= iterations <= max_iterations,
        LoopStatus::NotConverged { iterations } => iterations == max_iterations,
    }
}

/// Abstract state of an [`IterationControl`].
pub struct IterationControlView {
    pub max_iterations: usize,
    pub status: LoopStatus,
}

/// Iteration budget of a self-consistent loop and where the loop stands.
pub struct IterationControl {
    max_iterations: usize,
    status: LoopStatus,
}

impl View for IterationControl {
    type V = IterationControlView;

    closed spec fn view(&self) -> IterationControlView {
        IterationControlView { max_iterations: self.max_iterations, status: self.status }
    }
}

impl IterationControl {
    #[verifier::type_invariant]
    closed spec fn inv(self) -> bool {
        status_wf(self.max_iterations, self.status)
    }

    /// A loop allowed `max_iterations` iterations, none of them run yet.
    pub fn new(max_iterations: usize) -> (c: IterationControl)
        ensures
            c@.max_iterations == max_iterations,
            c@.status == initial_status(max_iterations),
            max_iterations == 0 ==> c@.status == (LoopStatus::NotConverged { iterations: 0 }),
            max_iterations > 0 ==> c@.status == (LoopStatus::Running { next: 1 }),
    {
        let status = if max_iterations == 0 {
            LoopStatus::NotConverged { iterations: 0 }
        } else {
            LoopStatus::Running { next: 1 }
        };
        IterationControl { max_iterations, status }
    }

    /// The iteration budget.
    pub fn max_iterations(&self) -> (m: usize)
        ensures
            m == self@.max_iterations,
    {
        self.max_iterations
    }

    /// Where the loop stands.
    pub fn status(&self) -> (s: LoopStatus)
        ensures
            s == self@.status,
            status_wf(self@.max_iterations, s),
    {
        proof {
            use_type_invariant(self);
        }
        self.status
    }

    /// Record whether the iteration just run converged.
    pub fn record(&mut self, converged: bool)
        ensures
            final(self)@.max_iterations == old(self)@.max_iterations,
            final(self)@.status == next_status(old(self)@.max_iterations, old(self)@.status, converged),
            old(self)@.status matches LoopStatus::Running { next } ==> {
                &&& converged ==> final(self)@.status == (LoopStatus::Converged { iterations: next })
                &&& !converged && next >= old(self)@.max_iterations ==> final(self)@.status
                    == (LoopStatus::NotConverged { iterations: old(self)@.max_iterations })
                &&& !converged && next < old(self)@.max_iterations ==> final(self)@.status
                    == (LoopStatus::Running { next: (next + 1) as usize })
            },
            !(old(self)@.status is Running) ==> final(self)@.status == old(self)@.status,
    {
        proof {
            use_type_invariant(&*self);
        }
        let new_status = match self.status {
            LoopStatus::Running { next } => {
                if converged {
                    LoopStatus::Converged { iterations: next }
                } else if next >= self.max_iterations {
                    LoopStatus::NotConverged { iterations: self.max_iterations }
                } else {
                    LoopStatus::Running { next: next + 1 }
                }
            },
            other => other,
        };
        self.status = new_status;
    }
}

/// Every status the loop reaches is one of its well-formed statuses.
pub proof fn lemma_next_status_wf(max_iterations: usize, status: LoopStatus, converged: bool)
    requires
        status_wf(max_iterations, status),
    ensures
        status_wf(max_iterations, next_status(max_iterations, status, converged)),
{
}

/// From iteration `next` on, with the outcomes of iterations `next, next+1,
/// ...` given in order, the loop converges at the first converging one
/// within the budget, and otherwise gives up after the budget.
proof fn lemma_run_from(max_iterations: usize, next: usize, outcomes: Seq<bool>)
    requires
        1 <= next <= max_iterations,
        outcomes.len() >= max_iterations - next + 1,
    ensures
        status_after(max_iterations, LoopStatus::Running { next }, outcomes) == if converges_within(
            outcomes,
            max_iterations - next + 1,
        ) {
            LoopStatus::Converged { iterations: (next + first_convergence(outcomes)) as usize }
        } else {
            LoopStatus::NotConverged { iterations: max_iterations }
        },
    decreases max_iterations - next,
{
    let budget = max_iterations - next + 1;
    let rest = outcomes.drop_first();
    if outcomes[0] {
        assert(converges_within(outcomes, budget));
        let k = first_convergence(outcomes);
        assert(0 <= k < outcomes.len() && outcomes[k] && forall|j: int| 0 <= j < k ==> !outcomes[j]);
        assert(k == 0) by {
            if k > 0 {
                assert(!outcomes[0]);
            }
        }
        lemma_finished_stays(
            max_iterations,
            LoopStatus::Converged { iterations: next },
            rest,
        );
    } else if next >= max_iterations {
        assert(!converges_within(outcomes, budget)) by {
            if converges_within(outcomes, budget) {
                let k = choose|k: int| 0 <= k < budget && k < outcomes.len() && outcomes[k];
                assert(k == 0);
            }
        }
        lemma_finished_stays(
            max_iterations,
            LoopStatus::NotConverged { iterations: max_iterations },
            rest,
        );
    } else {
        lemma_run_from(max_iterations, (next + 1) as usize, rest);
        assert(converges_within(outcomes, budget) == converges_within(rest, budget - 1)) by {
            if converges_within(outcomes, budget) {
                let k = choose|k: int| 0 <= k < budget && k < outcomes.len() && outcomes[k];
                assert(k != 0);
                assert(rest[k - 1] == outcomes[k]);
            }
            if converges_within(rest, budget - 1) {
                let k = choose|k: int| 0 <= k < budget - 1 && k < rest.len() && rest[k];
                assert(outcomes[k + 1] == rest[k]);
            }
        }
        if converges_within(rest, budget - 1) {
            let kr = first_convergence(rest);
            let kr_exists = choose|k: int| 0 <= k < budget - 1 && k < rest.len() && rest[k];
            lemma_first_convergence_exists(rest, kr_exists);
            assert(0 <= kr < rest.len() && rest[kr] && forall|j: int| 0 <= j < kr ==> !rest[j]);
            assert(outcomes[kr + 1]);
            assert(forall|j: int| 0 <= j < kr + 1 ==> !outcomes[j]) by {
                assert forall|j: int| 0 <= j < kr + 1 implies !outcomes[j] by {
                    if j > 0 {
                        assert(outcomes[j] == rest[j - 1]);
                    }
                }
            }
            lemma_first_convergence_exists(outcomes, kr + 1);
            let ko = first_convergence(outcomes);
            lemma_first_convergence_unique(outcomes, ko, kr + 1);
        }
    }
}

/// A finished loop ignores further outcomes.
proof fn lemma_finished_stays(max_iterations: usize, status: LoopStatus, outcomes: Seq<bool>)
    requires
        !(status is Running),
    ensures
        status_after(max_iterations, status, outcomes) == status,
    decreases outcomes.len(),
{
    if outcomes.len() > 0 {
        lemma_finished_stays(max_iterations, status, outcomes.drop_first());
    }
}

/// If some outcome converges, the first convergence is well defined.
proof fn lemma_first_convergence_exists(outcomes: Seq<bool>, k: int)
    requires
        0 <= k < outcomes.len(),
        outcomes[k],
    ensures
        0 <= first_convergence(outcomes) < outcomes.len(),
        outcomes[first_convergence(outcomes)],
        forall|j: int| 0 <= j < first_convergence(outcomes) ==> !outcomes[j],
    decreases k,
{
    if exists|j: int| 0 <= j < k && outcomes[j] {
        let j = choose|j: int| 0 <= j < k && outcomes[j];
        lemma_first_convergence_exists(outcomes, j);
    } else {
        assert(0 <= k < outcomes.len() && outcomes[k] && forall|j: int| 0 <= j < k ==> !outcomes[j]);
    }
}

/// There is only one first convergence.
proof fn lemma_first_convergence_unique(outcomes: Seq<bool>, k1: int, k2: int)
    requires
        0 <= k1 < outcomes.len() && outcomes[k1] && forall|j: int| 0 <= j < k1 ==> !outcomes[j],
        0 <= k2 < outcomes.len() && outcomes[k2] && forall|j: int| 0 <= j < k2 ==> !outcomes[j],
    ensures
        k1 == k2,
{
    if k1 < k2 {
        assert(!outcomes[k1]);
    } else if k2 < k1 {
        assert(!outcomes[k2]);
    }
}

/// The loop's outcome, for any budget and any outcomes of the iterations
/// (at least as many as the budget): if one of the first `max_iterations`
/// iterations converges, the loop reports success after the first one that
/// does, counted from 1; otherwise it reports that it did not converge
/// after `max_iterations` iterations.
pub proof fn lemma_loop_outcome(max_iterations: usize, outcomes: Seq<bool>)
    requires
        outcomes.len() >= max_iterations,
    ensures
        status_after(max_iterations, initial_status(max_iterations), outcomes) == if converges_within(
            outcomes,
            max_iterations as int,
        ) {
            LoopStatus::Converged { iterations: (first_convergence(outcomes) + 1) as usize }
        } else {
            LoopStatus::NotConverged { iterations: max_iterations }
        },
{
    if max_iterations == 0 {
        lemma_finished_stays(max_iterations, LoopStatus::NotConverged { iterations: 0 }, outcomes);
    } else {
        lemma_run_from(max_iterations, 1, outcomes);
    }
}

} // verus!
