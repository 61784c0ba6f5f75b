use vstd::prelude::*;
use crate::errors::{IoError, KeyboardInterrupt, RaceError};

verus! {

/// What one non-blocking check of the wrapped operation observed.
pub enum OpPoll<T, N> {
    /// The operation has not produced a result yet.
    Pending,
    /// The operation finished with the success value.
    Done(T),
    /// The operation finished with its own native failure.
    Failed(N),
}

/// What one non-blocking check of the interrupt subscription observed.
pub enum SignalPoll {
    /// No interrupt has been requested yet.
    Pending,
    /// An interrupt has been requested.
    Ready,
    /// The subscription itself could not be read.
    Fault(IoError),
}

/// The pair of observations made in one scheduling step: each side of the
/// race is checked exactly once.
pub struct RaceStep<T, N> {
    pub op: OpPoll<T, N>,
    pub sig: SignalPoll,
}

/// What one scheduling step produced: either the race is still undecided and
/// must be given another step later, or it resolved to its final output.
pub enum StepResult<T, N> {
    /// Neither side was ready; no result is produced this step.
    Pending,
    /// The race resolved: the operation's own result, or a unified error.
    Output(Result<T, RaceError<N>>),
}

/// The precedence rule of the race, applied to the two observations of one
/// scheduling step, in this strict order:
///
/// 1. the operation has failed: its own failure, never the interrupt, even if
///    the interrupt became ready in the same instant;
/// 2. the operation has finished: its success value, even if the interrupt
///    became ready in the same instant;
/// 3. the subscription itself failed: a subscription fault, never silently
///    ignored, since the race would otherwise run with dead interrupt cover;
/// 4. an interrupt was requested: the interrupt error;
/// 5. neither side ready: no resolution this step.
pub open spec fn step_resolution<T, N>(op: OpPoll<T, N>, sig: SignalPoll) -> StepResult<T, N> {
    match op {
        OpPoll::Failed(e) => StepResult::Output(Err(RaceError::Native(e))),
        OpPoll::Done(v) => StepResult::Output(Ok(v)),
        OpPoll::Pending => match sig {
            SignalPoll::Fault(e) => StepResult::Output(Err(RaceError::Subscription(e))),
            SignalPoll::Ready => StepResult::Output(Err(RaceError::Interrupt(KeyboardInterrupt))),
            SignalPoll::Pending => StepResult::Pending,
        },
    }
}

/// Apply the precedence rule to the two observations of one scheduling step.
pub fn resolve_step<T, N>(op: OpPoll<T, N>, sig: SignalPoll) -> (r: StepResult<T, N>)
    ensures
        r == step_resolution(op, sig),
{
    match op {
        OpPoll::Failed(e) => StepResult::Output(Err(RaceError::Native(e))),
        OpPoll::Done(v) => StepResult::Output(Ok(v)),
        OpPoll::Pending => match sig {
            SignalPoll::Fault(e) => StepResult::Output(Err(RaceError::Subscription(e))),
            SignalPoll::Ready => StepResult::Output(Err(RaceError::Interrupt(KeyboardInterrupt))),
            SignalPoll::Pending => StepResult::Pending,
        },
    }
}

/// The outcome of a whole race as a function of the observations it has made,
/// in order: the resolution of the first step that resolves, or still pending
/// if no step has resolved.
pub open spec fn race_outcome<T, N>(steps: Seq<RaceStep<T, N>>) -> StepResult<T, N>
    decreases steps.len(),
{
    if steps.len() == 0 {
        StepResult::Pending
    } else if step_resolution(steps[0].op, steps[0].sig) is Output {
        step_resolution(steps[0].op, steps[0].sig)
    } else {
        race_outcome(steps.drop_first())
    }
}

/// A step observed after a still-undecided history decides the whole race
/// exactly as the precedence rule decides that one step.
pub proof fn lemma_race_outcome_push<T, N>(steps: Seq<RaceStep<T, N>>, e: RaceStep<T, N>)
    requires
        race_outcome(steps) is Pending,
    ensures
        race_outcome(steps.push(e)) == step_resolution(e.op, e.sig),
    decreases steps.len(),
{
    let pushed = steps.push(e);
    if steps.len() == 0 {
        assert(pushed[0] == e);
        if step_resolution(e.op, e.sig) is Output {
            assert(race_outcome(pushed) == step_resolution(pushed[0].op, pushed[0].sig));
        } else {
            assert(pushed.drop_first() =~= Seq::<RaceStep<T, N>>::empty());
            assert(race_outcome(pushed) == race_outcome(pushed.drop_first()));
        }
    } else {
        assert(pushed[0] == steps[0]);
        assert(step_resolution(steps[0].op, steps[0].sig) is Pending);
        assert(pushed.drop_first() =~= steps.drop_first().push(e));
        lemma_race_outcome_push(steps.drop_first(), e);
        assert(race_outcome(pushed) == race_outcome(pushed.drop_first()));
    }
}

/// One race between an asynchronous operation and the interrupt signal.
///
/// The struct is pure bookkeeping: the surrounding program owns the operation
/// and the signal subscription, polls each exactly once per scheduling step,
/// and hands the two observations to [`InterruptRace::step`].  The race is
/// single-resolution: `step` may only be called while the race is pending, so
/// once a result has been produced neither side is ever consulted again.
pub struct InterruptRace<T, N> {
    finished: bool,
    history: Ghost<Seq<RaceStep<T, N>>>,
}

impl<T, N> InterruptRace<T, N> {
    /// The observations this race has combined so far, in order.
    pub closed spec fn steps(self) -> Seq<RaceStep<T, N>> {
        self.history@
    }

    /// The race has not produced a result yet.
    pub closed spec fn is_pending(self) -> bool {
        !self.finished
    }

    /// The resolution flag agrees with the outcome of the recorded steps.
    pub open spec fn wf(self) -> bool {
        self.is_pending() <==> race_outcome(self.steps()) is Pending
    }

    /// Begin a race.  Construction observes nothing: it must not consume any
    /// interrupt event meant for an unrelated race.
    pub fn new() -> (r: InterruptRace<T, N>)
        ensures
            r.wf(),
            r.is_pending(),
            r.steps() == Seq::<RaceStep<T, N>>::empty(),
    {
        InterruptRace { finished: false, history: Ghost(Seq::empty()) }
    }

    /// Whether the race has already produced its result.
    pub fn has_resolved(&self) -> (b: bool)
        ensures
            b == !self.is_pending(),
    {
        self.finished
    }

    /// One scheduling step: combine the two fresh observations by the
    /// precedence rule.  The race resolves exactly when the rule resolves
    /// this step, and the result it then yields is final.
    pub fn step(&mut self, op: OpPoll<T, N>, sig: SignalPoll) -> (r: StepResult<T, N>)
        requires
            old(self).wf(),
            old(self).is_pending(),
        ensures
            final(self).wf(),
            r == step_resolution(op, sig),
            final(self).steps() == old(self).steps().push((RaceStep { op, sig })),
            final(self).is_pending() <==> r is Pending,
            race_outcome(final(self).steps()) == r,
    {
        let ghost entry = RaceStep { op, sig };
        let r = resolve_step(op, sig);
        let still_pending = matches!(r, StepResult::Pending);
        proof {
            lemma_race_outcome_push(self.history@, entry);
        }
        self.history = Ghost(self.history@.push(entry));
        self.finished = !still_pending;
        r
    }
}

} // verus!
