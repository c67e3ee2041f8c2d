use vstd::prelude::*;

verus! {

/// How an attempt to act on the selected file ended.
#[derive(Debug, Clone, Copy, PartialEq, Eq, Structural)]
pub enum ActionOutcome {
    /// The first action started.
    PrimarySucceeded,
    /// The first action could not start, a later one did.
    FallbackSucceeded,
    /// No action could start (or none was configured).
    BothFailed,
}

/// What the caller of a cascade does next.
#[derive(Debug, Clone, Copy, PartialEq, Eq, Structural)]
pub enum CascadeStep {
    /// Try the action at this position of the ordered list.
    Attempt(usize),
    /// Stop and report this outcome.
    Finished(ActionOutcome),
}

/// The outcome when the action at `index` is the first that started.
pub open spec fn success_at(index: int) -> ActionOutcome {
    if index == 0 {
        ActionOutcome::PrimarySucceeded
    } else {
        ActionOutcome::FallbackSucceeded
    }
}

/// The step after the action at `index` of `n_actions` was tried.
pub open spec fn next_step(index: usize, started: bool, n_actions: nat) -> CascadeStep {
    if started {
        CascadeStep::Finished(success_at(index as int))
    } else if index + 1 < n_actions {
        CascadeStep::Attempt((index + 1) as usize)
    } else {
        CascadeStep::Finished(ActionOutcome::BothFailed)
    }
}

/// The first step of a cascade over `n_actions` ordered actions.
pub fn cascade_start(n_actions: usize) -> (r: CascadeStep)
    ensures
        n_actions == 0 ==> r == CascadeStep::Finished(ActionOutcome::BothFailed),
        n_actions > 0 ==> r == CascadeStep::Attempt(0),
{
    if n_actions == 0 {
        CascadeStep::Finished(ActionOutcome::BothFailed)
    } else {
        CascadeStep::Attempt(0)
    }
}

/// The step after the action at `index` was tried: stop on success, else try
/// the next action, or report that all failed when none is left.
pub fn cascade_next(index: usize, started: bool, n_actions: usize) -> (r: CascadeStep)
    requires
        index < n_actions,
    ensures
        r == next_step(index, started, n_actions as nat),
        started ==> r == CascadeStep::Finished(success_at(index as int)),
        !started && index + 1 < n_actions ==> r == CascadeStep::Attempt((index + 1) as usize),
        !started && index + 1 == n_actions ==> r == CascadeStep::Finished(ActionOutcome::BothFailed),
{
    if started {
        if index == 0 {
            CascadeStep::Finished(ActionOutcome::PrimarySucceeded)
        } else {
            CascadeStep::Finished(ActionOutcome::FallbackSucceeded)
        }
    } else if index + 1 < n_actions {
        CascadeStep::Attempt(index + 1)
    } else {
        CascadeStep::Finished(ActionOutcome::BothFailed)
    }
}

/// The outcome of a cascade in which the action at position `i` starts
/// exactly when `started[i]` holds, the actions being tried from `from` on.
pub open spec fn cascade_result(started: Seq<bool>, from: int) -> ActionOutcome
    decreases started.len() - from,
{
    if from < 0 || from >= started.len() {
        ActionOutcome::BothFailed
    } else if started[from] {
        success_at(from)
    } else {
        cascade_result(started, from + 1)
    }
}

/// How many actions are tried from `from` on: up to and including the first
/// that starts, or all of them.
pub open spec fn tried_count(started: Seq<bool>, from: int) -> nat
    decreases started.len() - from,
{
    if from < 0 || from >= started.len() {
        0
    } else if started[from] {
        1
    } else {
        1 + tried_count(started, from + 1)
    }
}

/// The outcome, and the number of actions tried, when the cascade is driven by
/// `next_step` from `step`, the action at position `i` starting exactly when
/// `started[i]` holds.
pub open spec fn driven(started: Seq<bool>, step: CascadeStep, fuel: nat) -> (ActionOutcome, nat)
    decreases fuel,
{
    match step {
        CascadeStep::Finished(o) => (o, 0),
        CascadeStep::Attempt(i) => {
            if fuel == 0 || i >= started.len() {
                (ActionOutcome::BothFailed, 0)
            } else {
                let next = next_step(i, started[i as int], started.len());
                let (o, n) = driven(started, next, (fuel - 1) as nat);
                (o, n + 1)
            }
        },
    }
}

/// Trying the actions in order stops at the first that starts: the outcome is
/// `PrimarySucceeded` when the first starts, `FallbackSucceeded` when a later
/// one is the first to start, `BothFailed` when none starts; no action after
/// the first that starts is tried.
pub proof fn lemma_cascade_first_start(started: Seq<bool>, i: usize)
    requires
        i < started.len() <= usize::MAX,
    ensures
        driven(started, CascadeStep::Attempt(i), (started.len() - i) as nat).0
            == cascade_result(started, i as int),
        driven(started, CascadeStep::Attempt(i), (started.len() - i) as nat).1
            == tried_count(started, i as int),
    decreases started.len() - i,
{
    let next = (i + 1) as usize;
    if !started[i as int] && i + 1 < started.len() {
        lemma_cascade_first_start(started, next);
        assert(driven(started, CascadeStep::Attempt(i), (started.len() - i) as nat).0
            == driven(started, CascadeStep::Attempt(next), (started.len() - next) as nat).0);
        assert(cascade_result(started, i as int) == cascade_result(started, next as int));
        assert(driven(started, CascadeStep::Attempt(i), (started.len() - i) as nat).1
            == driven(started, CascadeStep::Attempt(next), (started.len() - next) as nat).1 + 1);
    } else if !started[i as int] {
        assert(tried_count(started, next as int) == 0);
        assert(cascade_result(started, next as int) == ActionOutcome::BothFailed);
        assert(cascade_result(started, i as int) == ActionOutcome::BothFailed);
        assert(driven(started, CascadeStep::Finished(ActionOutcome::BothFailed), 0).0
            == ActionOutcome::BothFailed);
    } else {
        assert(driven(started, CascadeStep::Finished(success_at(i as int)), (started.len() - i - 1) as nat).0
            == success_at(i as int));
    }
}

} // verus!
