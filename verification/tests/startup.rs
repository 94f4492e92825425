use lcd_session::{
    Capability, CursorBlink, CursorVisibility, DisplayMode, InitProgress, InitState, Lcd,
    LcdError, Step, BUS_ADDRESS,
};

/// Goes through initialization against a controller whose call number
/// `failing` fails. Returns the steps that were performed, the states seen
/// before each of them, and what the initialization handed out.
fn initialize(
    update_screen_time: u32,
    failing: Option<usize>,
) -> (Vec<Step>, Vec<InitState>, Lcd, InitState, Result<(), (LcdError, u16)>) {
    let mut init = Lcd::new(update_screen_time).attached();
    let mut steps = Vec::new();
    let mut states = Vec::new();
    loop {
        let call = steps.len();
        steps.push(init.step().clone());
        states.push(init.state());
        let outcome = if failing == Some(call) { Err(0x0bad) } else { Ok(()) };
        match init.resume(outcome) {
            InitProgress::Continue(next) => init = next,
            InitProgress::Ready { session, reached, outcome } => {
                return (steps, states, session, reached, outcome)
            }
        }
    }
}

fn initialization_calls() -> Vec<Capability> {
    vec![
        Capability::Clear,
        Capability::Reset,
        Capability::SetDisplay(DisplayMode::On),
        Capability::SetCursorPos(0),
        Capability::SetCursorVisibility(CursorVisibility::Invisible),
        Capability::SetCursorBlink(CursorBlink::Off),
    ]
}

fn initialization_tags() -> Vec<LcdError> {
    vec![
        LcdError::ClearError,
        LcdError::ResetError,
        LcdError::DisplayError,
        LcdError::DisplayError,
        LcdError::CursorError,
        LcdError::CursorError,
    ]
}

fn initialization_states() -> Vec<InitState> {
    vec![
        InitState::Uninitialized,
        InitState::Cleared,
        InitState::Reset,
        InitState::DisplayOn,
        InitState::CursorPositioned,
        InitState::CursorHidden,
        InitState::BlinkOff,
    ]
}

#[test]
fn startup_settles_for_the_update_screen_time() {
    for millis in [0u32, 1, 500, u32::MAX] {
        let startup = Lcd::new(millis);
        assert_eq!(startup.settle_time(), millis);
    }
}

#[test]
fn the_controller_is_attached_at_0x27() {
    assert_eq!(BUS_ADDRESS, 0x27);
    assert_eq!(Lcd::new(500).bus_address(), 0x27);
}

#[test]
fn initialization_makes_its_six_calls_in_order() {
    let (steps, states, session, reached, outcome) = initialize(500, None);
    let calls: Vec<Capability> = steps.iter().map(|step| step.capability.clone()).collect();
    let tags: Vec<LcdError> = steps.iter().map(|step| step.tag).collect();
    assert_eq!(calls, initialization_calls());
    assert_eq!(tags, initialization_tags());
    assert!(steps.iter().all(|step| step.pause.is_none()));
    assert_eq!(states, initialization_states()[..6].to_vec());
    assert_eq!(reached, InitState::BlinkOff);
    assert_eq!(outcome, Ok(()));
    assert_eq!(session.update_screen_time(), 500);
}

#[test]
fn a_failure_halts_initialization_and_the_session_is_still_handed_out() {
    for failing in 0..6 {
        let (steps, _states, session, reached, outcome) = initialize(75, Some(failing));
        let calls: Vec<Capability> = steps.iter().map(|step| step.capability.clone()).collect();
        assert_eq!(calls, initialization_calls()[..failing + 1].to_vec());
        assert_eq!(outcome, Err((initialization_tags()[failing], 0x0bad)));
        assert_eq!(reached, initialization_states()[failing]);
        assert_eq!(session.update_screen_time(), 75);
    }
}

#[test]
fn a_failure_to_position_the_cursor_at_startup_is_a_display_error() {
    let (steps, _states, _session, reached, outcome) = initialize(75, Some(3));
    assert_eq!(steps.last().map(|step| step.capability.clone()), Some(Capability::SetCursorPos(0)));
    assert_eq!(outcome, Err((LcdError::DisplayError, 0x0bad)));
    assert_eq!(reached, InitState::DisplayOn);
}

#[test]
fn a_session_after_failed_initialization_takes_commands() {
    let (_steps, _states, session, _reached, outcome) = initialize(30, Some(0));
    assert_eq!(outcome, Err((LcdError::ClearError, 0x0bad)));
    let run = session.set_cursor_pos(4);
    assert_eq!(
        run.step(),
        &Step {
            pause: Some(30),
            capability: Capability::SetCursorPos(4),
            tag: LcdError::CursorError
        }
    );
}
