use crate::capability::{CapabilityView, StepView};
use crate::command::Command;
use crate::run::{halt, lemma_halt_in_bounds, performed};
use vstd::prelude::*;

verus! {

/// One thing that happens while steps are performed: the timing gate waits,
/// or a controller call is made.
pub enum Event {
    Wait(u32),
    Call(CapabilityView),
}

/// What performing one step consists of: its wait, if it has one, and then
/// its call.
pub open spec fn step_events(step: StepView) -> Seq<Event> {
    match step.pause {
        Some(millis) => seq![Event::Wait(millis), Event::Call(step.capability)],
        None => seq![Event::Call(step.capability)],
    }
}

/// What performing the given steps one after the other consists of.
pub open spec fn events(steps: Seq<StepView>) -> Seq<Event>
    decreases steps.len(),
{
    if steps.len() == 0 {
        Seq::empty()
    } else {
        events(steps.drop_last()) + step_events(steps.last())
    }
}

/// The least time in milliseconds that an event takes: a wait lasts as long
/// as it says, and of a call nothing is assumed.
pub open spec fn least_duration(event: Event) -> int {
    match event {
        Event::Wait(millis) => millis as int,
        Event::Call(_) => 0,
    }
}

/// Whether `clock` can be the instants, in milliseconds, at which the events
/// of `history` begin, with one last instant at which they are all over: no
/// event begins before the one ahead of it has taken its least time.
pub open spec fn keeps_time(history: Seq<Event>, clock: Seq<int>) -> bool {
    &&& clock.len() == history.len() + 1
    &&& forall|i: int|
        0 <= i < history.len() ==> clock[i] + least_duration(#[trigger] history[i]) <= clock[i
            + 1]
}

/// What is performed first happens first: the events of two lists of steps
/// are those of the one, then those of the other.
pub proof fn lemma_events_of_concatenation(first: Seq<StepView>, second: Seq<StepView>)
    ensures
        events(first + second) == events(first) + events(second),
    decreases second.len(),
{
    if second.len() == 0 {
        assert(first + second =~= first);
        assert(events(first) + events(second) =~= events(first));
    } else {
        let front = second.drop_last();
        lemma_events_of_concatenation(first, front);
        assert((first + second).drop_last() =~= first + front);
        assert((first + second).last() == second.last());
        assert(events(first + second) =~= events(first) + events(second));
    }
}

/// The events of a single step are those of that step.
pub proof fn lemma_events_of_one(step: StepView)
    ensures
        events(seq![step]) == step_events(step),
{
    let steps = seq![step];
    assert(steps.drop_last() =~= Seq::<StepView>::empty());
    assert(events(steps.drop_last()) =~= Seq::<Event>::empty());
    assert(events(steps) =~= step_events(step));
}

/// The events of the first performed steps of a command: its wait, if it has
/// one, comes first and is its only wait; everything else is a call.
pub proof fn lemma_events_of_command(command: Command, update_screen_time: u32, steps: int)
    requires
        1 <= steps <= command.plan(update_screen_time).len(),
    ensures
        ({
            let history = events(command.plan(update_screen_time).take(steps));
            &&& history.len() == steps + if command.pre_wait() {
                1int
            } else {
                0int
            }
            &&& command.pre_wait() ==> history[0] == Event::Wait(update_screen_time)
            &&& forall|i: int|
                0 <= i < history.len() ==> ((#[trigger] history[i]) is Wait <==> command.pre_wait()
                    && i == 0)
        }),
{
    let plan = command.plan(update_screen_time);
    let taken = plan.take(steps);
    if steps == 1 {
        assert(taken =~= seq![plan[0]]);
        lemma_events_of_one(plan[0]);
    } else {
        assert(taken =~= seq![plan[0]] + seq![plan[1]]);
        lemma_events_of_one(plan[0]);
        lemma_events_of_one(plan[1]);
        lemma_events_of_concatenation(seq![plan[0]], seq![plan[1]]);
    }
}

/// A command that is paced waits exactly once, for the update screen time,
/// before any of its calls; a command that is not paced never waits. This
/// holds of what the command performs however its calls end.
pub proof fn lemma_wait_once_before_calls<E>(
    command: Command,
    update_screen_time: u32,
    outcomes: Seq<Result<(), E>>,
)
    ensures
        ({
            let history = events(performed(command.plan(update_screen_time), outcomes));
            &&& history.len() >= 1
            &&& history.last() is Call
            &&& command.pre_wait() ==> history[0] == Event::Wait(update_screen_time)
            &&& forall|i: int|
                0 <= i < history.len() ==> ((#[trigger] history[i]) is Wait <==> command.pre_wait()
                    && i == 0)
        }),
{
    let plan = command.plan(update_screen_time);
    lemma_halt_in_bounds(plan, outcomes, 0);
    lemma_events_of_command(command, update_screen_time, halt(plan, outcomes, 0) + 1);
}

/// Time does not run backwards over a history.
pub proof fn lemma_clock_is_monotonic(history: Seq<Event>, clock: Seq<int>, from: int, to: int)
    requires
        keeps_time(history, clock),
        0 <= from <= to <= history.len(),
    ensures
        clock[from] <= clock[to],
    decreases to - from,
{
    if from < to {
        lemma_clock_is_monotonic(history, clock, from, to - 1);
        assert(least_duration(history[to - 1]) >= 0);
    }
}

/// Two paced commands in a row keep their calls apart: whatever the first
/// performs and however it ends, no call of the second begins before the
/// update screen time has passed since the events of the first were over, and
/// so none begins within that time of a call of the first.
///
/// `earlier` is the place of a call of the first command in the history of
/// both, `later` that of a call of the second.
pub proof fn lemma_paced_commands_keep_their_distance<E>(
    first: Command,
    second: Command,
    update_screen_time: u32,
    first_outcomes: Seq<Result<(), E>>,
    second_outcomes: Seq<Result<(), E>>,
    clock: Seq<int>,
    earlier: int,
    later: int,
)
    requires
        first.pre_wait(),
        second.pre_wait(),
        ({
            let before = events(performed(first.plan(update_screen_time), first_outcomes));
            let after = events(performed(second.plan(update_screen_time), second_outcomes));
            &&& keeps_time(before + after, clock)
            &&& 0 <= earlier < before.len()
            &&& before.len() <= later < before.len() + after.len()
            &&& (before + after)[earlier] is Call
            &&& (before + after)[later] is Call
        }),
    ensures
        clock[later] >= clock[earlier + 1] + update_screen_time,
        clock[later] - clock[earlier] >= update_screen_time,
{
    let before = events(performed(first.plan(update_screen_time), first_outcomes));
    let after = events(performed(second.plan(update_screen_time), second_outcomes));
    let history = before + after;
    lemma_wait_once_before_calls(second, update_screen_time, second_outcomes);
    let gate = before.len() as int;
    assert(history[gate] == after[0]);
    assert(history[later] == after[later - gate]);
    assert(later > gate);
    assert(least_duration(history[gate]) == update_screen_time);
    lemma_clock_is_monotonic(history, clock, earlier, earlier + 1);
    lemma_clock_is_monotonic(history, clock, earlier + 1, gate);
    lemma_clock_is_monotonic(history, clock, gate + 1, later);
}

} // verus!
