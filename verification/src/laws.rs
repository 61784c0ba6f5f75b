use vstd::prelude::*;
use crate::errors::{KeyboardInterrupt, RaceError};
use crate::race::{race_outcome, step_resolution, OpPoll, RaceStep, SignalPoll, StepResult};

verus! {

/// Success dominance: an operation that finishes at step `i`, before any
/// interrupt has been requested and before its own earlier steps produced
/// anything, wins the race with its success value, unmodified.
pub proof fn lemma_success_dominance<T, N>(steps: Seq<RaceStep<T, N>>, i: int, v: T)
    requires
        0 <= i < steps.len(),
        steps[i].op == OpPoll::<T, N>::Done(v),
        forall|j: int| 0 <= j < i ==> steps[j].op is Pending,
        forall|j: int| 0 <= j <= i ==> steps[j].sig is Pending,
    ensures
        race_outcome(steps) == StepResult::<T, N>::Output(Ok(v)),
    decreases i,
{
    if i == 0 {
        assert(step_resolution(steps[0].op, steps[0].sig) == StepResult::<T, N>::Output(Ok(v)));
    } else {
        assert(step_resolution(steps[0].op, steps[0].sig) is Pending);
        let rest = steps.drop_first();
        assert forall|j: int| 0 <= j < i - 1 implies rest[j].op is Pending by {
            assert(rest[j] == steps[j + 1]);
        }
        assert forall|j: int| 0 <= j <= i - 1 implies rest[j].sig is Pending by {
            assert(rest[j] == steps[j + 1]);
        }
        assert(rest[i - 1] == steps[i]);
        lemma_success_dominance(rest, i - 1, v);
    }
}

/// Interrupt capture: if the operation has produced nothing by step `i`, no
/// earlier step observed anything, and step `i` observes the interrupt
/// request, the race resolves to the interrupt error and the operation is
/// abandoned.
pub proof fn lemma_interrupt_capture<T, N>(steps: Seq<RaceStep<T, N>>, i: int)
    requires
        0 <= i < steps.len(),
        forall|j: int| 0 <= j <= i ==> steps[j].op is Pending,
        forall|j: int| 0 <= j < i ==> steps[j].sig is Pending,
        steps[i].sig is Ready,
    ensures
        race_outcome(steps) == StepResult::<T, N>::Output(
            Err(RaceError::Interrupt(KeyboardInterrupt)),
        ),
    decreases i,
{
    if i == 0 {
        assert(step_resolution(steps[0].op, steps[0].sig) == StepResult::<T, N>::Output(
            Err(RaceError::Interrupt(KeyboardInterrupt)),
        ));
    } else {
        assert(step_resolution(steps[0].op, steps[0].sig) is Pending);
        let rest = steps.drop_first();
        assert forall|j: int| 0 <= j <= i - 1 implies rest[j].op is Pending by {
            assert(rest[j] == steps[j + 1]);
        }
        assert forall|j: int| 0 <= j < i - 1 implies rest[j].sig is Pending by {
            assert(rest[j] == steps[j + 1]);
        }
        assert(rest[i - 1] == steps[i]);
        lemma_interrupt_capture(rest, i - 1);
    }
}

/// Failure dominance over a simultaneous interrupt: an operation that fails
/// in the same scheduling instant the interrupt becomes ready resolves the
/// race to its own failure, never to the interrupt error.
pub proof fn lemma_failure_dominates_simultaneous_interrupt<T, N>(e: N)
    ensures
        step_resolution::<T, N>(OpPoll::Failed(e), SignalPoll::Ready) == StepResult::<T, N>::Output(
            Err(RaceError::Native(e)),
        ),
{
}

/// Success dominance over a simultaneous interrupt: an operation that
/// succeeds in the same scheduling instant the interrupt becomes ready
/// resolves the race to its success value, never to the interrupt error.
pub proof fn lemma_success_dominates_simultaneous_interrupt<T, N>(v: T)
    ensures
        step_resolution::<T, N>(OpPoll::Done(v), SignalPoll::Ready) == StepResult::<T, N>::Output(
            Ok(v),
        ),
{
}

/// Single resolution: once a race has resolved, the steps of any later
/// observations — whatever they hold — leave its outcome exactly as it was.
pub proof fn lemma_single_resolution<T, N>(steps: Seq<RaceStep<T, N>>, later: Seq<RaceStep<T, N>>)
    requires
        race_outcome(steps) is Output,
    ensures
        race_outcome(steps + later) == race_outcome(steps),
    decreases steps.len(),
{
    assert(steps.len() > 0);
    assert((steps + later)[0] == steps[0]);
    if step_resolution(steps[0].op, steps[0].sig) is Output {
    } else {
        assert((steps + later).drop_first() =~= steps.drop_first() + later);
        lemma_single_resolution(steps.drop_first(), later);
    }
}

/// Scoping: an interrupt requested strictly after a race has resolved
/// successfully does not retroactively affect that result; later steps are
/// outside the race's scope, interrupts among them included.
pub proof fn lemma_interrupt_after_resolution_is_ignored<T, N>(
    steps: Seq<RaceStep<T, N>>,
    later: Seq<RaceStep<T, N>>,
    v: T,
)
    requires
        race_outcome(steps) == StepResult::<T, N>::Output(Ok(v)),
    ensures
        race_outcome(steps + later) == StepResult::<T, N>::Output(Ok(v)),
{
    lemma_single_resolution(steps, later);
}

} // verus!
