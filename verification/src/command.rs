use crate::capability::{
    CapabilityView, CursorBlink, CursorMoveDirection, CursorVisibility, DisplayMode, StepView,
};
use crate::decimal::decimal_text;
use crate::error::LcdError;
use crate::run::{halt, lemma_run_outcome, run_outcome};
use vstd::prelude::*;

verus! {

/// A command of the session with its arguments, as a mathematical value.
///
/// Contracts use it to say which steps a command consists of; see
/// [`Command::plan`].
pub enum Command {
    DisplayText { text: Seq<char>, clear_display: bool },
    DisplayByte { byte: u8, clear_display: bool },
    DisplayBytes { bytes: Seq<u8>, clear_display: bool },
    DisplayChar { character: char, clear_display: bool },
    DisplayInt { num: int, clear_display: bool },
    DisplayFloat { formatted: Seq<char>, clear_display: bool },
    ClearDisplay,
    ResetDisplay,
    SetDisplayMode { display_mode: DisplayMode },
    SetCursorVisibility { visible: bool },
    SetCursorBlink { blink: bool },
    MoveCursorDirection { move_direction: CursorMoveDirection },
    SetAutoscroll { enable: bool },
    SetCursorPos { position: u8 },
}

impl Command {
    /// Whether the command puts characters on the display.
    pub open spec fn is_display(self) -> bool {
        self is DisplayText || self is DisplayByte || self is DisplayBytes || self is DisplayChar
            || self is DisplayInt || self is DisplayFloat
    }

    /// Whether the command first waits out the update screen time.
    ///
    /// The commands that format a number, and clearing, shifting the cursor
    /// and autoscroll, are issued without a wait.
    pub open spec fn pre_wait(self) -> bool {
        match self {
            Command::DisplayText { .. } => true,
            Command::DisplayByte { .. } => true,
            Command::DisplayBytes { .. } => true,
            Command::DisplayChar { .. } => true,
            Command::DisplayInt { .. } => false,
            Command::DisplayFloat { .. } => false,
            Command::ClearDisplay => false,
            Command::ResetDisplay => true,
            Command::SetDisplayMode { .. } => true,
            Command::SetCursorVisibility { .. } => true,
            Command::SetCursorBlink { .. } => true,
            Command::MoveCursorDirection { .. } => false,
            Command::SetAutoscroll { .. } => false,
            Command::SetCursorPos { .. } => true,
        }
    }

    /// Whether the command clears the display before its own call: a display
    /// command does when asked to, no other command ever does.
    pub open spec fn pre_clear(self) -> bool {
        match self {
            Command::DisplayText { clear_display, .. } => clear_display,
            Command::DisplayByte { clear_display, .. } => clear_display,
            Command::DisplayBytes { clear_display, .. } => clear_display,
            Command::DisplayChar { clear_display, .. } => clear_display,
            Command::DisplayInt { clear_display, .. } => clear_display,
            Command::DisplayFloat { clear_display, .. } => clear_display,
            _ => false,
        }
    }

    /// The one controller call that the command is there for.
    pub open spec fn capability(self) -> CapabilityView {
        match self {
            Command::DisplayText { text, .. } => CapabilityView::WriteStr(text),
            Command::DisplayByte { byte, .. } => CapabilityView::WriteByte(byte),
            Command::DisplayBytes { bytes, .. } => CapabilityView::WriteBytes(bytes),
            Command::DisplayChar { character, .. } => CapabilityView::WriteChar(character),
            Command::DisplayInt { num, .. } => CapabilityView::WriteStr(decimal_text(num)),
            Command::DisplayFloat { formatted, .. } => CapabilityView::WriteStr(formatted),
            Command::ClearDisplay => CapabilityView::Clear,
            Command::ResetDisplay => CapabilityView::Reset,
            Command::SetDisplayMode { display_mode } => CapabilityView::SetDisplay(display_mode),
            Command::SetCursorVisibility { visible } => CapabilityView::SetCursorVisibility(
                if visible {
                    CursorVisibility::Visible
                } else {
                    CursorVisibility::Invisible
                },
            ),
            Command::SetCursorBlink { blink } => CapabilityView::SetCursorBlink(
                if blink {
                    CursorBlink::On
                } else {
                    CursorBlink::Off
                },
            ),
            Command::MoveCursorDirection { move_direction } => CapabilityView::ShiftCursor(
                move_direction,
            ),
            Command::SetAutoscroll { enable } => CapabilityView::SetAutoscroll(enable),
            Command::SetCursorPos { position } => CapabilityView::SetCursorPos(position),
        }
    }

    /// The tag under which a failure of the command's own call is reported.
    pub open spec fn error_tag(self) -> LcdError {
        match self {
            Command::DisplayText { .. } => LcdError::WriteError,
            Command::DisplayByte { .. } => LcdError::WriteError,
            Command::DisplayBytes { .. } => LcdError::WriteError,
            Command::DisplayChar { .. } => LcdError::WriteError,
            Command::DisplayInt { .. } => LcdError::WriteError,
            Command::DisplayFloat { .. } => LcdError::WriteError,
            Command::ClearDisplay => LcdError::ClearError,
            Command::ResetDisplay => LcdError::ResetError,
            Command::SetDisplayMode { .. } => LcdError::DisplayError,
            Command::SetCursorVisibility { .. } => LcdError::CursorError,
            Command::SetCursorBlink { .. } => LcdError::CursorError,
            Command::MoveCursorDirection { .. } => LcdError::CursorError,
            Command::SetAutoscroll { .. } => LcdError::CursorError,
            Command::SetCursorPos { .. } => LcdError::CursorError,
        }
    }

    /// The clearing step that precedes the command's own call when
    /// [`Command::pre_clear`] holds. It carries the command's wait, if there
    /// is one, and fails as a clear does.
    pub open spec fn clear_step(self, update_screen_time: u32) -> StepView {
        StepView {
            pause: if self.pre_wait() {
                Some(update_screen_time)
            } else {
                None
            },
            capability: CapabilityView::Clear,
            tag: LcdError::ClearError,
        }
    }

    /// The step that makes the command's own call. It carries the command's
    /// wait unless a clearing step came first.
    pub open spec fn call_step(self, update_screen_time: u32) -> StepView {
        StepView {
            pause: if self.pre_wait() && !self.pre_clear() {
                Some(update_screen_time)
            } else {
                None
            },
            capability: self.capability(),
            tag: self.error_tag(),
        }
    }

    /// The steps of the command, in order, for a session with the given update
    /// screen time: the wait if the command has one, then the clear if it has
    /// one, then the command's own call.
    pub open spec fn plan(self, update_screen_time: u32) -> Seq<StepView> {
        if self.pre_clear() {
            seq![self.clear_step(update_screen_time), self.call_step(update_screen_time)]
        } else {
            seq![self.call_step(update_screen_time)]
        }
    }
}

/// A display command that is asked to clear makes exactly one clear call and
/// exactly one write call, the write directly after the clear; one that is not
/// asked makes the write call alone. No other command makes more than its own
/// call.
pub proof fn lemma_clear_precedes_write(command: Command, update_screen_time: u32)
    ensures
        command.is_display() && command.pre_clear() ==> {
            let plan = command.plan(update_screen_time);
            &&& plan.len() == 2
            &&& plan[0].capability is Clear
            &&& plan[1].capability.is_write()
        },
        command.is_display() && !command.pre_clear() ==> {
            let plan = command.plan(update_screen_time);
            &&& plan.len() == 1
            &&& plan[0].capability.is_write()
        },
        !command.is_display() ==> {
            let plan = command.plan(update_screen_time);
            &&& plan.len() == 1
            &&& plan[0].capability == command.capability()
            &&& !plan[0].capability.is_write()
        },
{
}

/// How a command ends, whatever its calls do. It ends well exactly when none
/// of its calls fails. A failure of its own call is reported under the
/// command's tag, a failure of the clear that comes before a display command
/// as a clear error, and either with the cause as it was given. After a
/// failed clear the command's own call is not made.
pub proof fn lemma_failure_is_tagged<E>(
    command: Command,
    update_screen_time: u32,
    outcomes: Seq<Result<(), E>>,
)
    ensures
        ({
            let plan = command.plan(update_screen_time);
            match run_outcome(plan, outcomes, 0) {
                Ok(_) => forall|i: int| 0 <= i < plan.len() ==> (#[trigger] outcomes[i]) is Ok,
                Err((tag, cause)) => if command.pre_clear() && outcomes[0] is Err {
                    &&& outcomes[0] == Err::<(), E>(cause)
                    &&& tag == LcdError::ClearError
                    &&& halt(plan, outcomes, 0) == 0
                } else {
                    &&& outcomes[plan.len() - 1] == Err::<(), E>(cause)
                    &&& tag == command.error_tag()
                    &&& halt(plan, outcomes, 0) == plan.len() - 1
                },
            }
        }),
{
    let plan = command.plan(update_screen_time);
    lemma_run_outcome(plan, outcomes, 0);
    crate::run::lemma_halt_in_bounds(plan, outcomes, 0);
}

} // verus!
