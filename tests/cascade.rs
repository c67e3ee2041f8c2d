use postout::cascade::{cascade_next, cascade_start, ActionOutcome, CascadeStep};

fn drive(started: &[bool]) -> (ActionOutcome, usize) {
    let mut tried = 0;
    let mut step = cascade_start(started.len());
    loop {
        match step {
            CascadeStep::Finished(o) => return (o, tried),
            CascadeStep::Attempt(i) => {
                tried += 1;
                step = cascade_next(i, started[i], started.len());
            }
        }
    }
}

#[test]
fn primary_success_stops_the_cascade() {
    assert_eq!(drive(&[true, true]), (ActionOutcome::PrimarySucceeded, 1));
}

#[test]
fn fallback_runs_when_primary_cannot_start() {
    assert_eq!(drive(&[false, true]), (ActionOutcome::FallbackSucceeded, 2));
}

#[test]
fn both_failing_is_reported() {
    assert_eq!(drive(&[false, false]), (ActionOutcome::BothFailed, 2));
}

#[test]
fn single_action_without_fallback() {
    assert_eq!(drive(&[false]), (ActionOutcome::BothFailed, 1));
    assert_eq!(drive(&[true]), (ActionOutcome::PrimarySucceeded, 1));
    assert_eq!(drive(&[]), (ActionOutcome::BothFailed, 0));
}

#[test]
fn next_step_values() {
    assert_eq!(cascade_start(2), CascadeStep::Attempt(0));
    assert_eq!(cascade_next(0, false, 2), CascadeStep::Attempt(1));
    assert_eq!(cascade_next(1, true, 2), CascadeStep::Finished(ActionOutcome::FallbackSucceeded));
    assert_eq!(cascade_next(1, false, 2), CascadeStep::Finished(ActionOutcome::BothFailed));
}
