use vstd::prelude::*;

verus! {

/// The phase of a display operation that failed.
///
/// A failure is always reported as a pair of this tag and the cause that the
/// transport or controller gave; the cause is passed on untouched.
#[derive(Debug, Clone, Copy, PartialEq, Eq, Structural)]
pub enum LcdError {
    ClearError,
    ResetError,
    DisplayError,
    WriteError,
    CursorError,
}

} // verus!
