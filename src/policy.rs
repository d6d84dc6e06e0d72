use vstd::prelude::*;

use crate::constants::LockConstants;
use crate::error::Error;

verus! {

/// Which of the two lock attempts is being made.
#[derive(Clone, Copy, Debug, PartialEq, Eq, Structural)]
pub enum Attempt {
    /// The first attempt, which asks for locking on first fault too.
    WithOnFault,
    /// The second attempt, made only after the first failed, without it.
    WithoutOnFault,
}

/// What the caller does next while locking all memory.
#[derive(Clone, Copy, Debug, PartialEq, Eq)]
pub enum LockStep {
    /// Report `report`, if there is one, as a diagnostic; then make the lock
    /// call with `flags` and hand its result to `after_attempt` with `attempt`.
    Call { attempt: Attempt, flags: i32, report: Option<Error> },
    /// Stop: this is the result of locking all memory.
    Done(Result<(), Error>),
}

/// Flags of the first attempt: current and future pages, locked on fault.
pub open spec fn spec_first_flags(c: LockConstants) -> i32 {
    c.mcl_current | c.mcl_future | c.mcl_onfault
}

/// Flags of the second attempt: current and future pages.
pub open spec fn spec_fallback_flags(c: LockConstants) -> i32 {
    c.mcl_current | c.mcl_future
}

/// The step that starts locking all memory.
pub open spec fn spec_begin(c: LockConstants) -> LockStep {
    LockStep::Call { attempt: Attempt::WithOnFault, flags: spec_first_flags(c), report: None }
}

/// The step that follows an attempt with the given result.
pub open spec fn spec_after_attempt(
    c: LockConstants,
    attempt: Attempt,
    outcome: Result<(), Error>,
) -> LockStep {
    match (attempt, outcome) {
        (Attempt::WithOnFault, Err(e)) => LockStep::Call {
            attempt: Attempt::WithoutOnFault,
            flags: spec_fallback_flags(c),
            report: Some(e),
        },
        _ => LockStep::Done(outcome),
    }
}

/// Starts locking all memory: the first call asks for current and future
/// pages, locked on first fault.
pub fn begin(c: &LockConstants) -> (s: LockStep)
    ensures
        s == spec_begin(*c),
{
    LockStep::Call {
        attempt: Attempt::WithOnFault,
        flags: c.mcl_current | c.mcl_future | c.mcl_onfault,
        report: None,
    }
}

/// Decides what follows an attempt: success of the first attempt ends the
/// work; its failure, whatever the error, is reported and the call is made
/// once more without on-fault locking; the result of the second attempt is
/// the final result as it stands.
pub fn after_attempt(c: &LockConstants, attempt: Attempt, outcome: Result<(), Error>) -> (s:
    LockStep)
    ensures
        s == spec_after_attempt(*c, attempt, outcome),
{
    match attempt {
        Attempt::WithOnFault => match outcome {
            Ok(()) => LockStep::Done(outcome),
            Err(e) => LockStep::Call {
                attempt: Attempt::WithoutOnFault,
                flags: c.mcl_current | c.mcl_future,
                report: Some(e),
            },
        },
        Attempt::WithoutOnFault => LockStep::Done(outcome),
    }
}

/// The steps taken from `s` on, where the calls made return `outcomes` in
/// turn. It stops at a `Done` step, or where no result is left to hand on.
pub open spec fn run_steps(
    c: LockConstants,
    s: LockStep,
    outcomes: Seq<Result<(), Error>>,
) -> Seq<LockStep>
    decreases outcomes.len(),
{
    match s {
        LockStep::Call { attempt, .. } => if outcomes.len() == 0 {
            seq![s]
        } else {
            seq![s] + run_steps(
                c,
                spec_after_attempt(c, attempt, outcomes[0]),
                outcomes.drop_first(),
            )
        },
        LockStep::Done(_) => seq![s],
    }
}

/// How many lock calls a run makes.
pub open spec fn calls_made(steps: Seq<LockStep>) -> nat {
    steps.filter(|s: LockStep| s is Call).len()
}

/// The steps of a whole run of locking all memory.
pub open spec fn lock_run(c: LockConstants, outcomes: Seq<Result<(), Error>>) -> Seq<LockStep> {
    run_steps(c, spec_begin(c), outcomes)
}

proof fn lemma_run_shape(c: LockConstants, outcomes: Seq<Result<(), Error>>)
    requires
        outcomes.len() >= 1,
    ensures
        outcomes[0] is Ok ==> lock_run(c, outcomes) == seq![
            spec_begin(c),
            LockStep::Done(outcomes[0]),
        ],
        outcomes[0] is Err && outcomes.len() == 1 ==> lock_run(c, outcomes) == seq![
            spec_begin(c),
            spec_after_attempt(c, Attempt::WithOnFault, outcomes[0]),
        ],
        outcomes[0] is Err && outcomes.len() >= 2 ==> lock_run(c, outcomes) == seq![
            spec_begin(c),
            spec_after_attempt(c, Attempt::WithOnFault, outcomes[0]),
            LockStep::Done(outcomes[1]),
        ],
{
    let rest = outcomes.drop_first();
    let second = spec_after_attempt(c, Attempt::WithOnFault, outcomes[0]);
    assert(lock_run(c, outcomes) == seq![spec_begin(c)] + run_steps(c, second, rest));
    if outcomes[0] is Ok {
        assert(run_steps(c, second, rest) == seq![second]);
        assert(lock_run(c, outcomes) =~= seq![spec_begin(c), LockStep::Done(outcomes[0])]);
    } else if outcomes.len() == 1 {
        assert(run_steps(c, second, rest) == seq![second]);
        assert(lock_run(c, outcomes) =~= seq![spec_begin(c), second]);
    } else {
        let third = spec_after_attempt(c, Attempt::WithoutOnFault, rest[0]);
        assert(run_steps(c, second, rest) == seq![second] + run_steps(c, third, rest.drop_first()));
        assert(third == LockStep::Done(outcomes[1]));
        assert(run_steps(c, third, rest.drop_first()) == seq![third]);
        assert(lock_run(c, outcomes) =~= seq![spec_begin(c), second, third]);
    }
}

/// A run whose first call succeeds makes that one call and ends in success,
/// whatever later calls would have returned.
pub proof fn lemma_first_success_is_final(c: LockConstants, outcomes: Seq<Result<(), Error>>)
    requires
        outcomes.len() >= 1,
        outcomes[0] == Ok::<(), Error>(()),
    ensures
        lock_run(c, outcomes) == seq![spec_begin(c), LockStep::Done(Ok(()))],
        calls_made(lock_run(c, outcomes)) == 1,
{
    lemma_run_shape(c, outcomes);
    reveal_with_fuel(Seq::filter, 3);
    assert(seq![spec_begin(c), LockStep::Done(Ok(()))].drop_last() =~= seq![spec_begin(c)]);
    assert(seq![spec_begin(c)].drop_last() =~= Seq::<LockStep>::empty());
}

/// The first call asks for on-fault locking. A second call follows if and
/// only if the first failed, whatever its error; that failure is reported,
/// and the second call asks for current and future pages alone.
pub proof fn lemma_fallback_exactly_on_failure(c: LockConstants, outcomes: Seq<Result<(), Error>>)
    requires
        outcomes.len() >= 1,
    ensures
        lock_run(c, outcomes)[0] == (LockStep::Call {
            attempt: Attempt::WithOnFault,
            flags: c.mcl_current | c.mcl_future | c.mcl_onfault,
            report: None,
        }),
        spec_first_flags(c) & c.mcl_onfault == c.mcl_onfault,
        lock_run(c, outcomes).len() >= 2,
        lock_run(c, outcomes)[1] is Call <==> outcomes[0] is Err,
        forall|e: Error|
            outcomes[0] == Err::<(), Error>(e) ==> lock_run(c, outcomes)[1] == (LockStep::Call {
                attempt: Attempt::WithoutOnFault,
                flags: c.mcl_current | c.mcl_future,
                report: Some(e),
            }),
{
    lemma_run_shape(c, outcomes);
    let (a, b, f) = (c.mcl_current, c.mcl_future, c.mcl_onfault);
    assert((a | b | f) & f == f) by (bit_vector);
}

/// No run makes more than two lock calls, however many results there are to
/// hand on.
pub proof fn lemma_at_most_two_calls(c: LockConstants, outcomes: Seq<Result<(), Error>>)
    ensures
        calls_made(lock_run(c, outcomes)) <= 2,
        lock_run(c, outcomes).len() <= 3,
{
    let run = lock_run(c, outcomes);
    if outcomes.len() == 0 {
        assert(run == seq![spec_begin(c)]);
    } else {
        lemma_run_shape(c, outcomes);
    }
    reveal_with_fuel(Seq::filter, 4);
    if run.len() == 3 {
        assert(run.drop_last() =~= seq![run[0], run[1]]);
        assert(seq![run[0], run[1]].drop_last() =~= seq![run[0]]);
    } else if run.len() == 2 {
        assert(run.drop_last() =~= seq![run[0]]);
    }
    assert(seq![run[0]].drop_last() =~= Seq::<LockStep>::empty());
}

/// When both calls fail, the run ends with the second call's error, not the
/// first's.
pub proof fn lemma_second_failure_is_final(c: LockConstants, e1: Error, e2: Error)
    ensures
        lock_run(c, seq![Err(e1), Err(e2)]).last() == LockStep::Done(Err(e2)),
        calls_made(lock_run(c, seq![Err(e1), Err(e2)])) == 2,
{
    let outcomes: Seq<Result<(), Error>> = seq![Err(e1), Err(e2)];
    lemma_run_shape(c, outcomes);
    let run = lock_run(c, outcomes);
    reveal_with_fuel(Seq::filter, 4);
    assert(run.drop_last() =~= seq![run[0], run[1]]);
    assert(seq![run[0], run[1]].drop_last() =~= seq![run[0]]);
    assert(seq![run[0]].drop_last() =~= Seq::<LockStep>::empty());
}

} // verus!
