use crate::capability::{
    Capability, CapabilityView, CursorBlink, CursorMoveDirection, CursorVisibility, DisplayMode,
    Step, StepView,
};
use crate::command::Command;
use crate::decimal::format_decimal;
use crate::error::LcdError;
use crate::run::Run;
use crate::startup::Startup;
use vstd::prelude::*;
use vstd::slice::slice_to_vec;

verus! {

/// A display session: the one owner of a display, configured with the minimum
/// time, in milliseconds, that paced commands leave between them.
///
/// A session comes out of the start-up protocol only; see [`Lcd::new`].
#[derive(Debug)]
pub struct Lcd {
    update_screen_time: u32,
}

impl Lcd {
    /// The update screen time of the session, in milliseconds.
    pub closed spec fn spec_update_screen_time(&self) -> u32 {
        self.update_screen_time
    }

    /// The update screen time of the session, in milliseconds. It never
    /// changes.
    #[verifier::when_used_as_spec(spec_update_screen_time)]
    pub fn update_screen_time(&self) -> (millis: u32)
        ensures
            millis == self.update_screen_time(),
    {
        self.update_screen_time
    }

    /// Begins the start-up of a session with the given update screen time.
    /// The session itself is handed out when its initialization has been
    /// gone through, whether it succeeded or not.
    pub fn new(update_screen_time: u32) -> (startup: Startup)
        ensures
            startup.update_screen_time() == update_screen_time,
    {
        Startup::begin(update_screen_time)
    }

    pub(crate) fn with_update_screen_time(update_screen_time: u32) -> (session: Lcd)
        ensures
            session.update_screen_time() == update_screen_time,
    {
        Lcd { update_screen_time }
    }

    /// Lays out a command: the wait goes to the first step, a clear comes
    /// before the call when asked for.
    fn issue(
        &self,
        pre_wait: bool,
        pre_clear: bool,
        capability: Capability,
        tag: LcdError,
    ) -> (run: Run)
        ensures
            run.position() == 0,
            run.plan().len() == if pre_clear { 2int } else { 1int },
            run.plan()[0].pause == if pre_wait {
                Some(self.update_screen_time())
            } else {
                None
            },
            pre_clear ==> run.plan()[0].capability == CapabilityView::Clear,
            pre_clear ==> run.plan()[0].tag == LcdError::ClearError,
            pre_clear ==> run.plan()[1].pause == None::<u32>,
            run.plan().last().capability == capability@,
            run.plan().last().tag == tag,
    {
        let gate = if pre_wait {
            Some(self.update_screen_time)
        } else {
            None
        };
        let mut steps: Vec<Step> = Vec::new();
        if pre_clear {
            steps.push(Step { pause: gate, capability: Capability::Clear, tag: LcdError::ClearError });
            steps.push(Step { pause: None, capability, tag });
        } else {
            steps.push(Step { pause: gate, capability, tag });
        }
        Run::begin(steps)
    }

    /// Writes a text: waits, clears the display first if `clear_display` is
    /// set, then writes `text`.
    pub fn display_text(&self, text: &str, clear_display: bool) -> (run: Run)
        ensures
            run.position() == 0,
            run.plan() == (Command::DisplayText { text: text@, clear_display }).plan(
                self.update_screen_time(),
            ),
    {
        let run = self.issue(
            true,
            clear_display,
            Capability::WriteStr(text.to_owned()),
            LcdError::WriteError,
        );
        assert(run.plan() =~= (Command::DisplayText { text: text@, clear_display }).plan(
            self.update_screen_time(),
        ));
        run
    }

    /// Writes one byte: waits, clears the display first if `clear_display` is
    /// set, then writes `byte`.
    pub fn display_byte(&self, byte: u8, clear_display: bool) -> (run: Run)
        ensures
            run.position() == 0,
            run.plan() == (Command::DisplayByte { byte, clear_display }).plan(
                self.update_screen_time(),
            ),
    {
        let run = self.issue(true, clear_display, Capability::WriteByte(byte), LcdError::WriteError);
        assert(run.plan() =~= (Command::DisplayByte { byte, clear_display }).plan(
            self.update_screen_time(),
        ));
        run
    }

    /// Writes a sequence of bytes: waits, clears the display first if
    /// `clear_display` is set, then writes `bytes`.
    pub fn display_bytes(&self, bytes: &[u8], clear_display: bool) -> (run: Run)
        ensures
            run.position() == 0,
            run.plan() == (Command::DisplayBytes { bytes: bytes@, clear_display }).plan(
                self.update_screen_time(),
            ),
    {
        let run = self.issue(
            true,
            clear_display,
            Capability::WriteBytes(slice_to_vec(bytes)),
            LcdError::WriteError,
        );
        assert(run.plan() =~= (Command::DisplayBytes { bytes: bytes@, clear_display }).plan(
            self.update_screen_time(),
        ));
        run
    }

    /// Writes one character: waits, clears the display first if
    /// `clear_display` is set, then writes `character`.
    pub fn display_char(&self, character: char, clear_display: bool) -> (run: Run)
        ensures
            run.position() == 0,
            run.plan() == (Command::DisplayChar { character, clear_display }).plan(
                self.update_screen_time(),
            ),
    {
        let run = self.issue(
            true,
            clear_display,
            Capability::WriteChar(character),
            LcdError::WriteError,
        );
        assert(run.plan() =~= (Command::DisplayChar { character, clear_display }).plan(
            self.update_screen_time(),
        ));
        run
    }

    /// Writes an integer as its canonical decimal text, without a wait:
    /// clears the display first if `clear_display` is set, then writes the
    /// text.
    pub fn display_int(&self, num: i128, clear_display: bool) -> (run: Run)
        ensures
            run.position() == 0,
            run.plan() == (Command::DisplayInt { num: num as int, clear_display }).plan(
                self.update_screen_time(),
            ),
    {
        let run = self.issue(
            false,
            clear_display,
            Capability::WriteStr(format_decimal(num)),
            LcdError::WriteError,
        );
        assert(run.plan() =~= (Command::DisplayInt { num: num as int, clear_display }).plan(
            self.update_screen_time(),
        ));
        run
    }

    /// Writes a floating-point number that the caller has formatted, without
    /// a wait: clears the display first if `clear_display` is set, then
    /// writes `formatted` as it is.
    pub fn display_float(&self, formatted: &str, clear_display: bool) -> (run: Run)
        ensures
            run.position() == 0,
            run.plan() == (Command::DisplayFloat { formatted: formatted@, clear_display }).plan(
                self.update_screen_time(),
            ),
    {
        let run = self.issue(
            false,
            clear_display,
            Capability::WriteStr(formatted.to_owned()),
            LcdError::WriteError,
        );
        assert(run.plan() =~= (Command::DisplayFloat { formatted: formatted@, clear_display }).plan(
            self.update_screen_time(),
        ));
        run
    }

    /// Clears the display, without a wait.
    pub fn clear_display(&self) -> (run: Run)
        ensures
            run.position() == 0,
            run.plan() == Command::ClearDisplay.plan(self.update_screen_time()),
    {
        let run = self.issue(false, false, Capability::Clear, LcdError::ClearError);
        assert(run.plan() =~= Command::ClearDisplay.plan(self.update_screen_time()));
        run
    }

    /// Waits, then resets the display.
    pub fn reset_display(&self) -> (run: Run)
        ensures
            run.position() == 0,
            run.plan() == Command::ResetDisplay.plan(self.update_screen_time()),
    {
        let run = self.issue(true, false, Capability::Reset, LcdError::ResetError);
        assert(run.plan() =~= Command::ResetDisplay.plan(self.update_screen_time()));
        run
    }

    /// Waits, then switches the display on or off.
    pub fn set_display_mode(&self, display_mode: DisplayMode) -> (run: Run)
        ensures
            run.position() == 0,
            run.plan() == (Command::SetDisplayMode { display_mode }).plan(
                self.update_screen_time(),
            ),
    {
        let run = self.issue(
            true,
            false,
            Capability::SetDisplay(display_mode),
            LcdError::DisplayError,
        );
        assert(run.plan() =~= (Command::SetDisplayMode { display_mode }).plan(
            self.update_screen_time(),
        ));
        run
    }

    /// Waits, then shows the cursor if `visible` is set and hides it if not.
    pub fn set_cursor_visibility(&self, visible: bool) -> (run: Run)
        ensures
            run.position() == 0,
            run.plan() == (Command::SetCursorVisibility { visible }).plan(
                self.update_screen_time(),
            ),
    {
        let visibility = if visible {
            CursorVisibility::Visible
        } else {
            CursorVisibility::Invisible
        };
        let run = self.issue(
            true,
            false,
            Capability::SetCursorVisibility(visibility),
            LcdError::CursorError,
        );
        assert(run.plan() =~= (Command::SetCursorVisibility { visible }).plan(
            self.update_screen_time(),
        ));
        run
    }

    /// Waits, then makes the cursor blink if `blink` is set and stops it if
    /// not.
    pub fn set_cursor_blink(&self, blink: bool) -> (run: Run)
        ensures
            run.position() == 0,
            run.plan() == (Command::SetCursorBlink { blink }).plan(self.update_screen_time()),
    {
        let cursor_blink = if blink {
            CursorBlink::On
        } else {
            CursorBlink::Off
        };
        let run = self.issue(
            true,
            false,
            Capability::SetCursorBlink(cursor_blink),
            LcdError::CursorError,
        );
        assert(run.plan() =~= (Command::SetCursorBlink { blink }).plan(self.update_screen_time()));
        run
    }

    /// Shifts the cursor one place to the left or to the right, without a
    /// wait.
    pub fn move_cursor_direction(&self, move_direction: CursorMoveDirection) -> (run: Run)
        ensures
            run.position() == 0,
            run.plan() == (Command::MoveCursorDirection { move_direction }).plan(
                self.update_screen_time(),
            ),
    {
        let run = match move_direction {
            CursorMoveDirection::Left => self.issue(
                false,
                false,
                Capability::ShiftCursor(CursorMoveDirection::Left),
                LcdError::CursorError,
            ),
            CursorMoveDirection::Right => self.issue(
                false,
                false,
                Capability::ShiftCursor(CursorMoveDirection::Right),
                LcdError::CursorError,
            ),
        };
        assert(run.plan() =~= (Command::MoveCursorDirection { move_direction }).plan(
            self.update_screen_time(),
        ));
        run
    }

    /// Switches autoscroll on or off, without a wait.
    pub fn set_autoscroll(&self, enable: bool) -> (run: Run)
        ensures
            run.position() == 0,
            run.plan() == (Command::SetAutoscroll { enable }).plan(self.update_screen_time()),
    {
        let run = self.issue(false, false, Capability::SetAutoscroll(enable), LcdError::CursorError);
        assert(run.plan() =~= (Command::SetAutoscroll { enable }).plan(self.update_screen_time()));
        run
    }

    /// Waits, then moves the cursor to `position`.
    pub fn set_cursor_pos(&self, position: u8) -> (run: Run)
        ensures
            run.position() == 0,
            run.plan() == (Command::SetCursorPos { position }).plan(self.update_screen_time()),
    {
        let run = self.issue(true, false, Capability::SetCursorPos(position), LcdError::CursorError);
        assert(run.plan() =~= (Command::SetCursorPos { position }).plan(self.update_screen_time()));
        run
    }
}

} // verus!
