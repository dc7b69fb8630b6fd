use negforge_core::iteration::{IterationControl, LoopStatus};

/// Drive a loop with the given per-iteration outcomes; return the final
/// status and how many iterations were run.
fn drive(max_iterations: usize, outcomes: &[bool]) -> (LoopStatus, usize) {
    let mut control = IterationControl::new(max_iterations);
    let mut run = 0;
    while let LoopStatus::Running { next } = control.status() {
        assert_eq!(next, run + 1);
        let converged = outcomes[run];
        run += 1;
        control.record(converged);
    }
    (control.status(), run)
}

#[test]
fn converges_at_the_first_converging_iteration() {
    let (status, run) = drive(5, &[false, false, true, true, false]);
    assert_eq!(status, LoopStatus::Converged { iterations: 3 });
    assert_eq!(run, 3);
}

#[test]
fn converges_on_the_first_iteration() {
    assert_eq!(drive(1, &[true]), (LoopStatus::Converged { iterations: 1 }, 1));
}

#[test]
fn gives_up_after_the_budget() {
    let (status, run) = drive(4, &[false, false, false, false, true]);
    assert_eq!(status, LoopStatus::NotConverged { iterations: 4 });
    assert_eq!(run, 4);
}

#[test]
fn zero_budget_gives_up_at_once() {
    let control = IterationControl::new(0);
    assert_eq!(control.status(), LoopStatus::NotConverged { iterations: 0 });
    assert_eq!(control.max_iterations(), 0);
}

#[test]
fn a_finished_loop_ignores_further_outcomes() {
    let mut control = IterationControl::new(2);
    control.record(true);
    assert_eq!(control.status(), LoopStatus::Converged { iterations: 1 });
    control.record(false);
    assert_eq!(control.status(), LoopStatus::Converged { iterations: 1 });
}
