use crate::capability::{
    steps_view, Capability, CapabilityView, CursorBlink, CursorVisibility, DisplayMode, Step,
    StepView,
};
use crate::error::LcdError;
use crate::run::{
    lemma_run_ends_at_first_failure, lemma_run_without_failure, performed, run_outcome, verdict,
    Progress, Run,
};
use crate::session::Lcd;
use vstd::prelude::*;

verus! {

/// How far the initialization of the controller has come. Each call that
/// succeeds takes it one state further; `BlinkOff` is where a complete
/// initialization leaves the controller.
#[derive(Debug, Clone, Copy, PartialEq, Eq, Structural)]
pub enum InitState {
    Uninitialized,
    Cleared,
    Reset,
    DisplayOn,
    CursorPositioned,
    CursorHidden,
    BlinkOff,
}

/// The state that initialization is in when so many of its calls have
/// succeeded.
pub open spec fn state_after(calls: nat) -> InitState {
    if calls == 0 {
        InitState::Uninitialized
    } else if calls == 1 {
        InitState::Cleared
    } else if calls == 2 {
        InitState::Reset
    } else if calls == 3 {
        InitState::DisplayOn
    } else if calls == 4 {
        InitState::CursorPositioned
    } else if calls == 5 {
        InitState::CursorHidden
    } else {
        InitState::BlinkOff
    }
}

/// The calls that initialize the controller, in their fixed order: clear,
/// reset, display on, cursor to position 0, cursor hidden, blink off. None of
/// them waits. A failure to position the cursor counts as a display failure
/// here.
pub open spec fn initialization_plan() -> Seq<StepView> {
    seq![
        StepView { pause: None, capability: CapabilityView::Clear, tag: LcdError::ClearError },
        StepView { pause: None, capability: CapabilityView::Reset, tag: LcdError::ResetError },
        StepView {
            pause: None,
            capability: CapabilityView::SetDisplay(DisplayMode::On),
            tag: LcdError::DisplayError,
        },
        StepView {
            pause: None,
            capability: CapabilityView::SetCursorPos(0),
            tag: LcdError::DisplayError,
        },
        StepView {
            pause: None,
            capability: CapabilityView::SetCursorVisibility(CursorVisibility::Invisible),
            tag: LcdError::CursorError,
        },
        StepView {
            pause: None,
            capability: CapabilityView::SetCursorBlink(CursorBlink::Off),
            tag: LcdError::CursorError,
        },
    ]
}

/// The bus address of the display's backpack.
pub const BUS_ADDRESS: u8 = 0x27;

/// A session before the controller is attached.
///
/// Its holder waits out [`Startup::settle_time`] so that the chip can settle
/// after power-on, then constructs the controller handle at
/// [`Startup::bus_address`], and only then calls [`Startup::attached`]. If the
/// handle cannot be constructed there is no session: the start-up ends there.
#[derive(Debug)]
pub struct Startup {
    update_screen_time: u32,
}

/// A session whose controller is being initialized.
#[derive(Debug)]
pub struct Initializing {
    session: Lcd,
    run: Run,
}

/// Where the initialization stands after a call has ended.
#[derive(Debug)]
pub enum InitProgress<E> {
    /// Another call is to be made.
    Continue(Initializing),
    /// Initialization is over and the session is ready for commands.
    /// `reached` is the state in which the controller was left and `outcome`
    /// says whether a call failed; the session is handed out either way.
    Ready { session: Lcd, reached: InitState, outcome: Result<(), (LcdError, E)> },
}

impl Startup {
    /// The update screen time that the session will have.
    pub closed spec fn update_screen_time(&self) -> u32 {
        self.update_screen_time
    }

    pub(crate) fn begin(update_screen_time: u32) -> (startup: Startup)
        ensures
            startup.update_screen_time() == update_screen_time,
    {
        Startup { update_screen_time }
    }

    /// The time in milliseconds to wait before anything is sent to the
    /// display: once the update screen time, whatever it is.
    pub fn settle_time(&self) -> (millis: u32)
        ensures
            millis == self.update_screen_time(),
    {
        self.update_screen_time
    }

    /// The bus address at which the controller handle is constructed.
    pub fn bus_address(&self) -> (address: u8)
        ensures
            address == BUS_ADDRESS,
    {
        BUS_ADDRESS
    }

    /// Goes on to initialization once the controller handle exists. It starts
    /// with the first call of [`initialization_plan`], in the state
    /// `Uninitialized`.
    pub fn attached(self) -> (init: Initializing)
        ensures
            init.plan() == initialization_plan(),
            init.position() == 0,
            init.update_screen_time() == self.update_screen_time(),
    {
        let mut steps: Vec<Step> = Vec::new();
        steps.push(Step { pause: None, capability: Capability::Clear, tag: LcdError::ClearError });
        steps.push(Step { pause: None, capability: Capability::Reset, tag: LcdError::ResetError });
        steps.push(
            Step {
                pause: None,
                capability: Capability::SetDisplay(DisplayMode::On),
                tag: LcdError::DisplayError,
            },
        );
        steps.push(
            Step {
                pause: None,
                capability: Capability::SetCursorPos(0),
                tag: LcdError::DisplayError,
            },
        );
        steps.push(
            Step {
                pause: None,
                capability: Capability::SetCursorVisibility(CursorVisibility::Invisible),
                tag: LcdError::CursorError,
            },
        );
        steps.push(
            Step {
                pause: None,
                capability: Capability::SetCursorBlink(CursorBlink::Off),
                tag: LcdError::CursorError,
            },
        );
        assert(steps_view(steps@) =~= initialization_plan());
        Initializing {
            session: Lcd::with_update_screen_time(self.update_screen_time),
            run: Run::begin(steps),
        }
    }
}

impl Initializing {
    /// The calls of the initialization, those already made included.
    pub closed spec fn plan(&self) -> Seq<StepView> {
        self.run.plan()
    }

    /// The number of calls that have succeeded so far, which is the index of
    /// the call to make next.
    pub closed spec fn position(&self) -> nat {
        self.run.position()
    }

    /// The update screen time that the session will have.
    pub closed spec fn update_screen_time(&self) -> u32 {
        self.session.update_screen_time()
    }

    /// The call to make next. There always is one.
    pub fn step(&self) -> (step: &Step)
        ensures
            self.position() < self.plan().len(),
            step@ == self.plan()[self.position() as int],
    {
        self.run.step()
    }

    /// Takes the outcome of the current call. After a success that was not
    /// the last, initialization goes on with the next call. Else it is over:
    /// the first failure ends it, no further call is made, and the session is
    /// handed out whether a call failed or not, with the state that was
    /// reached and the failure, if any, under the tag of the call that
    /// failed.
    pub fn resume<E>(self, outcome: Result<(), E>) -> (next: InitProgress<E>)
        ensures
            match next {
                InitProgress::Continue(init) => {
                    &&& verdict(self.plan(), self.position() as int, outcome) is None
                    &&& init.plan() == self.plan()
                    &&& init.position() == self.position() + 1
                    &&& init.update_screen_time() == self.update_screen_time()
                },
                InitProgress::Ready { session, reached, outcome: result } => {
                    &&& verdict(self.plan(), self.position() as int, outcome) == Some(result)
                    &&& session.update_screen_time() == self.update_screen_time()
                    &&& reached == state_after(
                        if outcome is Ok {
                            self.position() + 1
                        } else {
                            self.position()
                        },
                    )
                },
            },
    {
        let Initializing { session, run } = self;
        let done = run.step_index();
        match run.resume(outcome) {
            Progress::Continue(run) => InitProgress::Continue(Initializing { session, run }),
            Progress::Finished(result) => {
                let calls = match result {
                    Ok(_) => done + 1,
                    Err(_) => done,
                };
                InitProgress::Ready { session, reached: state_of(calls), outcome: result }
            },
        }
    }

    /// The state that the controller is in: that after the calls that have
    /// succeeded so far.
    pub fn state(&self) -> (state: InitState)
        ensures
            state == state_after(self.position()),
    {
        state_of(self.run.step_index())
    }
}

/// Computes [`state_after`].
fn state_of(calls: usize) -> (state: InitState)
    ensures
        state == state_after(calls as nat),
{
    if calls == 0 {
        InitState::Uninitialized
    } else if calls == 1 {
        InitState::Cleared
    } else if calls == 2 {
        InitState::Reset
    } else if calls == 3 {
        InitState::DisplayOn
    } else if calls == 4 {
        InitState::CursorPositioned
    } else if calls == 5 {
        InitState::CursorHidden
    } else {
        InitState::BlinkOff
    }
}

/// Initialization stops at the first call that fails: the calls before it
/// were made in their order, none after it is made, and the failure is
/// reported with its cause under the tag of the call that failed.
pub proof fn lemma_initialization_stops_at_failure<E>(
    outcomes: Seq<Result<(), E>>,
    failing: int,
    cause: E,
)
    requires
        0 <= failing < initialization_plan().len(),
        outcomes[failing] == Err::<(), E>(cause),
        forall|i: int| 0 <= i < failing ==> (#[trigger] outcomes[i]) is Ok,
    ensures
        performed(initialization_plan(), outcomes) == initialization_plan().take(failing + 1),
        run_outcome(initialization_plan(), outcomes, 0) == Err::<(), (LcdError, E)>(
            (initialization_plan()[failing].tag, cause),
        ),
{
    lemma_run_ends_at_first_failure(initialization_plan(), outcomes, 0, failing, cause);
}

/// Initialization in which no call fails makes all six calls in their order
/// and ends well.
pub proof fn lemma_initialization_completes<E>(outcomes: Seq<Result<(), E>>)
    requires
        forall|i: int| 0 <= i < initialization_plan().len() ==> (#[trigger] outcomes[i]) is Ok,
    ensures
        initialization_plan().len() == 6,
        performed(initialization_plan(), outcomes) == initialization_plan(),
        run_outcome(initialization_plan(), outcomes, 0) == Ok::<(), (LcdError, E)>(()),
{
    lemma_run_without_failure(initialization_plan(), outcomes, 0);
    assert(initialization_plan().take(6) =~= initialization_plan());
}

} // verus!
