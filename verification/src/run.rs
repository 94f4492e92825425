use crate::capability::{steps_view, Step, StepView};
use crate::error::LcdError;
use vstd::prelude::*;

verus! {

/// What follows from the end of the step at `position`: `None` if the command
/// goes on with the next step, else the command's outcome.
///
/// A failed call ends the command at once, under the tag of its step and with
/// the cause as it was given; a call that succeeded ends it only if it was the
/// last.
pub open spec fn verdict<E>(plan: Seq<StepView>, position: int, outcome: Result<(), E>) -> Option<
    Result<(), (LcdError, E)>,
> {
    match outcome {
        Err(cause) => Some(Err((plan[position].tag, cause))),
        Ok(_) => if position + 1 < plan.len() {
            None
        } else {
            Some(Ok(()))
        },
    }
}

/// A command in progress: its steps and the one that is to be performed next.
#[derive(Debug)]
pub struct Run {
    steps: Vec<Step>,
    position: usize,
}

/// Where a command stands after a step has ended.
#[derive(Debug)]
pub enum Progress<E> {
    /// Another step is to be performed.
    Continue(Run),
    /// The command is over, with this outcome.
    Finished(Result<(), (LcdError, E)>),
}

impl Run {
    #[verifier::type_invariant]
    spec fn in_bounds(self) -> bool {
        self.position < self.steps.len()
    }

    /// All steps of the command, those already performed included.
    pub closed spec fn plan(&self) -> Seq<StepView> {
        steps_view(self.steps@)
    }

    /// The index in the plan of the step to perform next.
    pub closed spec fn position(&self) -> nat {
        self.position as nat
    }

    /// Starts a command at the first of its steps.
    pub(crate) fn begin(steps: Vec<Step>) -> (run: Run)
        requires
            steps.len() >= 1,
        ensures
            run.plan() == steps_view(steps@),
            run.position() == 0,
    {
        Run { steps, position: 0 }
    }

    /// The step to perform next. There always is one.
    pub fn step(&self) -> (step: &Step)
        ensures
            self.position() < self.plan().len(),
            step@ == self.plan()[self.position() as int],
    {
        proof {
            use_type_invariant(self);
        }
        &self.steps[self.position]
    }

    /// The index in the plan of the step to perform next.
    pub fn step_index(&self) -> (index: usize)
        ensures
            index == self.position(),
            index < self.plan().len() <= usize::MAX,
    {
        proof {
            use_type_invariant(self);
        }
        self.position
    }

    /// Takes the outcome of the call of the current step and says how the
    /// command goes on: with the next step of the same plan, or not at all.
    pub fn resume<E>(self, outcome: Result<(), E>) -> (next: Progress<E>)
        ensures
            match next {
                Progress::Continue(run) => {
                    &&& verdict(self.plan(), self.position() as int, outcome) is None
                    &&& run.plan() == self.plan()
                    &&& run.position() == self.position() + 1
                },
                Progress::Finished(result) => verdict(
                    self.plan(),
                    self.position() as int,
                    outcome,
                ) == Some(result),
            },
    {
        proof {
            use_type_invariant(&self);
        }
        match outcome {
            Err(cause) => Progress::Finished(Err((self.steps[self.position].tag, cause))),
            Ok(_) => {
                if self.position + 1 < self.steps.len() {
                    Progress::Continue(Run { steps: self.steps, position: self.position + 1 })
                } else {
                    Progress::Finished(Ok(()))
                }
            },
        }
    }
}

/// The outcome of a run that stands at `position`, where `outcomes[i]` is how
/// the call of step `i` ends if the run gets to it: step after step is
/// judged by [`verdict`] until one of them ends the run.
pub open spec fn run_outcome<E>(
    plan: Seq<StepView>,
    outcomes: Seq<Result<(), E>>,
    position: int,
) -> Result<(), (LcdError, E)>
    decreases plan.len() - position,
{
    match verdict(plan, position, outcomes[position]) {
        Some(result) => result,
        None => run_outcome(plan, outcomes, position + 1),
    }
}

/// The index of the last step that a run standing at `position` performs.
pub open spec fn halt<E>(plan: Seq<StepView>, outcomes: Seq<Result<(), E>>, position: int) -> int
    decreases plan.len() - position,
{
    if verdict(plan, position, outcomes[position]) is None {
        halt(plan, outcomes, position + 1)
    } else {
        position
    }
}

/// The steps that a run of the whole plan performs: those up to the one at
/// which it ends, and none after it.
pub open spec fn performed<E>(plan: Seq<StepView>, outcomes: Seq<Result<(), E>>) -> Seq<StepView> {
    plan.take(halt(plan, outcomes, 0) + 1)
}

/// A run ends at a step of its plan, not before the step at which it stands.
pub proof fn lemma_halt_in_bounds<E>(
    plan: Seq<StepView>,
    outcomes: Seq<Result<(), E>>,
    position: int,
)
    requires
        0 <= position < plan.len(),
    ensures
        position <= halt(plan, outcomes, position) < plan.len(),
    decreases plan.len() - position,
{
    if verdict(plan, position, outcomes[position]) is None {
        lemma_halt_in_bounds(plan, outcomes, position + 1);
    }
}

/// A run in which no call fails performs every remaining step and ends well.
pub proof fn lemma_run_without_failure<E>(
    plan: Seq<StepView>,
    outcomes: Seq<Result<(), E>>,
    position: int,
)
    requires
        0 <= position < plan.len(),
        forall|i: int| position <= i < plan.len() ==> (#[trigger] outcomes[i]) is Ok,
    ensures
        run_outcome(plan, outcomes, position) == Ok::<(), (LcdError, E)>(()),
        halt(plan, outcomes, position) == plan.len() - 1,
    decreases plan.len() - position,
{
    assert(outcomes[position] is Ok);
    if position + 1 < plan.len() {
        lemma_run_without_failure(plan, outcomes, position + 1);
    }
}

/// The first call that fails ends the run: no later step is performed, and
/// the outcome is the cause of that failure under the tag of its step.
pub proof fn lemma_run_ends_at_first_failure<E>(
    plan: Seq<StepView>,
    outcomes: Seq<Result<(), E>>,
    position: int,
    failing: int,
    cause: E,
)
    requires
        0 <= position <= failing < plan.len(),
        outcomes[failing] == Err::<(), E>(cause),
        forall|i: int| position <= i < failing ==> (#[trigger] outcomes[i]) is Ok,
    ensures
        run_outcome(plan, outcomes, position) == Err::<(), (LcdError, E)>(
            (plan[failing].tag, cause),
        ),
        halt(plan, outcomes, position) == failing,
    decreases failing - position,
{
    if position < failing {
        assert(outcomes[position] is Ok);
        lemma_run_ends_at_first_failure(plan, outcomes, position + 1, failing, cause);
    }
}

/// A run that ends well has seen no call fail; one that ends in a failure
/// has seen exactly one, at its last step, and reports it under that step's
/// tag.
pub proof fn lemma_run_outcome<E>(plan: Seq<StepView>, outcomes: Seq<Result<(), E>>, position: int)
    requires
        0 <= position < plan.len(),
    ensures
        forall|i: int|
            position <= i < halt(plan, outcomes, position) ==> (#[trigger] outcomes[i]) is Ok,
        match run_outcome(plan, outcomes, position) {
            Ok(_) => {
                &&& halt(plan, outcomes, position) == plan.len() - 1
                &&& outcomes[plan.len() - 1] is Ok
            },
            Err((tag, cause)) => {
                &&& outcomes[halt(plan, outcomes, position)] == Err::<(), E>(cause)
                &&& tag == plan[halt(plan, outcomes, position)].tag
            },
        },
    decreases plan.len() - position,
{
    if verdict(plan, position, outcomes[position]) is None {
        lemma_run_outcome(plan, outcomes, position + 1);
        assert forall|i: int| position <= i < halt(plan, outcomes, position) implies (
        #[trigger] outcomes[i]) is Ok by {
            if i > position {
                assert(position + 1 <= i < halt(plan, outcomes, position + 1));
            }
        }
    }
}

} // verus!
