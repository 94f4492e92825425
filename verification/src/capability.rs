use crate::error::LcdError;
use vstd::prelude::*;

verus! {

/// Direction of a cursor shift.
#[derive(Debug, Clone, Copy, PartialEq, Eq, Structural)]
pub enum CursorMoveDirection {
    Left,
    Right,
}

/// Whether the characters on the display are shown.
#[derive(Debug, Clone, Copy, PartialEq, Eq, Structural)]
pub enum DisplayMode {
    On,
    Off,
}

/// Whether the cursor is shown.
#[derive(Debug, Clone, Copy, PartialEq, Eq, Structural)]
pub enum CursorVisibility {
    Visible,
    Invisible,
}

/// Whether the cursor blinks.
#[derive(Debug, Clone, Copy, PartialEq, Eq, Structural)]
pub enum CursorBlink {
    On,
    Off,
}

/// One call into the display controller, with its arguments.
#[derive(Debug, PartialEq, Eq)]
pub enum Capability {
    Clear,
    Reset,
    SetDisplay(DisplayMode),
    SetCursorPos(u8),
    SetCursorVisibility(CursorVisibility),
    SetCursorBlink(CursorBlink),
    ShiftCursor(CursorMoveDirection),
    SetAutoscroll(bool),
    WriteStr(String),
    WriteByte(u8),
    WriteBytes(Vec<u8>),
    WriteChar(char),
}

/// The mathematical value of a [`Capability`]: text and bytes as sequences.
pub enum CapabilityView {
    Clear,
    Reset,
    SetDisplay(DisplayMode),
    SetCursorPos(u8),
    SetCursorVisibility(CursorVisibility),
    SetCursorBlink(CursorBlink),
    ShiftCursor(CursorMoveDirection),
    SetAutoscroll(bool),
    WriteStr(Seq<char>),
    WriteByte(u8),
    WriteBytes(Seq<u8>),
    WriteChar(char),
}

impl CapabilityView {
    /// The capabilities that put characters on the display.
    pub open spec fn is_write(self) -> bool {
        self is WriteStr || self is WriteByte || self is WriteBytes || self is WriteChar
    }
}

impl View for Capability {
    type V = CapabilityView;

    open spec fn view(&self) -> CapabilityView {
        match *self {
            Capability::Clear => CapabilityView::Clear,
            Capability::Reset => CapabilityView::Reset,
            Capability::SetDisplay(mode) => CapabilityView::SetDisplay(mode),
            Capability::SetCursorPos(position) => CapabilityView::SetCursorPos(position),
            Capability::SetCursorVisibility(visibility) => CapabilityView::SetCursorVisibility(
                visibility,
            ),
            Capability::SetCursorBlink(blink) => CapabilityView::SetCursorBlink(blink),
            Capability::ShiftCursor(direction) => CapabilityView::ShiftCursor(direction),
            Capability::SetAutoscroll(enabled) => CapabilityView::SetAutoscroll(enabled),
            Capability::WriteStr(text) => CapabilityView::WriteStr(text@),
            Capability::WriteByte(byte) => CapabilityView::WriteByte(byte),
            Capability::WriteBytes(bytes) => CapabilityView::WriteBytes(bytes@),
            Capability::WriteChar(character) => CapabilityView::WriteChar(character),
        }
    }
}

impl Clone for Capability {
    /// A copy of the call, with the same arguments.
    fn clone(&self) -> (copy: Self)
        ensures
            copy@ == self@,
    {
        match self {
            Capability::Clear => Capability::Clear,
            Capability::Reset => Capability::Reset,
            Capability::SetDisplay(mode) => Capability::SetDisplay(*mode),
            Capability::SetCursorPos(position) => Capability::SetCursorPos(*position),
            Capability::SetCursorVisibility(visibility) => Capability::SetCursorVisibility(
                *visibility,
            ),
            Capability::SetCursorBlink(blink) => Capability::SetCursorBlink(*blink),
            Capability::ShiftCursor(direction) => Capability::ShiftCursor(*direction),
            Capability::SetAutoscroll(enabled) => Capability::SetAutoscroll(*enabled),
            Capability::WriteStr(text) => Capability::WriteStr(text.clone()),
            Capability::WriteByte(byte) => Capability::WriteByte(*byte),
            Capability::WriteBytes(bytes) => {
                let copy = bytes.clone();
                assert(copy@ =~= bytes@);
                Capability::WriteBytes(copy)
            },
            Capability::WriteChar(character) => Capability::WriteChar(*character),
        }
    }
}

/// One step of a command: wait out `pause` milliseconds if there is one, then
/// make the one call `capability`. A failure of that call is reported under
/// `tag`.
#[derive(Debug, PartialEq, Eq)]
pub struct Step {
    pub pause: Option<u32>,
    pub capability: Capability,
    pub tag: LcdError,
}

/// The mathematical value of a [`Step`].
pub struct StepView {
    pub pause: Option<u32>,
    pub capability: CapabilityView,
    pub tag: LcdError,
}

impl View for Step {
    type V = StepView;

    open spec fn view(&self) -> StepView {
        StepView { pause: self.pause, capability: self.capability@, tag: self.tag }
    }
}

impl Clone for Step {
    /// A copy of the step: the same wait, call and tag.
    fn clone(&self) -> (copy: Self)
        ensures
            copy@ == self@,
    {
        Step { pause: self.pause, capability: self.capability.clone(), tag: self.tag }
    }
}

/// The values of a list of steps, in order.
pub open spec fn steps_view(steps: Seq<Step>) -> Seq<StepView> {
    steps.map_values(|step: Step| step@)
}

} // verus!
