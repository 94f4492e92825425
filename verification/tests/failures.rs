use lcd_session::{
    Capability, CursorMoveDirection, DisplayMode, InitProgress, Lcd, LcdError, Progress, Run,
};

fn ready_session(update_screen_time: u32) -> Lcd {
    let mut init = Lcd::new(update_screen_time).attached();
    loop {
        match init.resume::<()>(Ok(())) {
            InitProgress::Continue(next) => init = next,
            InitProgress::Ready { session, .. } => return session,
        }
    }
}

/// Performs a run against a controller whose call number `failing` fails with
/// the cause given. Returns the calls that were made and the outcome.
fn perform(
    run: Run,
    failing: Option<usize>,
    cause: &'static str,
) -> (Vec<Capability>, Result<(), (LcdError, &'static str)>) {
    let mut run = run;
    let mut calls = Vec::new();
    loop {
        let call = calls.len();
        calls.push(run.step().capability.clone());
        let outcome = if failing == Some(call) { Err(cause) } else { Ok(()) };
        match run.resume(outcome) {
            Progress::Continue(next) => run = next,
            Progress::Finished(result) => return (calls, result),
        }
    }
}

fn tag_of_failure(run: Run) -> LcdError {
    let (calls, result) = perform(run, Some(0), "bus fault");
    assert_eq!(calls.len(), 1);
    match result {
        Err((tag, cause)) => {
            assert_eq!(cause, "bus fault");
            tag
        }
        Ok(()) => panic!("a failed call was reported as a success"),
    }
}

#[test]
fn a_failed_shift_is_a_cursor_error() {
    let lcd = ready_session(100);
    let (calls, result) =
        perform(lcd.move_cursor_direction(CursorMoveDirection::Left), Some(0), "nack");
    assert_eq!(calls, vec![Capability::ShiftCursor(CursorMoveDirection::Left)]);
    assert_eq!(result, Err((LcdError::CursorError, "nack")));
    assert_ne!(result, Err((LcdError::WriteError, "nack")));
}

#[test]
fn every_command_fails_under_its_own_tag() {
    let lcd = ready_session(100);
    assert_eq!(tag_of_failure(lcd.display_text("a", false)), LcdError::WriteError);
    assert_eq!(tag_of_failure(lcd.display_byte(1, false)), LcdError::WriteError);
    assert_eq!(tag_of_failure(lcd.display_bytes(&[1, 2], false)), LcdError::WriteError);
    assert_eq!(tag_of_failure(lcd.display_char('a', false)), LcdError::WriteError);
    assert_eq!(tag_of_failure(lcd.display_int(5, false)), LcdError::WriteError);
    assert_eq!(tag_of_failure(lcd.display_float("0.5", false)), LcdError::WriteError);
    assert_eq!(tag_of_failure(lcd.clear_display()), LcdError::ClearError);
    assert_eq!(tag_of_failure(lcd.reset_display()), LcdError::ResetError);
    assert_eq!(tag_of_failure(lcd.set_display_mode(DisplayMode::On)), LcdError::DisplayError);
    assert_eq!(tag_of_failure(lcd.set_cursor_visibility(true)), LcdError::CursorError);
    assert_eq!(tag_of_failure(lcd.set_cursor_blink(true)), LcdError::CursorError);
    assert_eq!(
        tag_of_failure(lcd.move_cursor_direction(CursorMoveDirection::Right)),
        LcdError::CursorError
    );
    assert_eq!(tag_of_failure(lcd.set_autoscroll(true)), LcdError::CursorError);
    assert_eq!(tag_of_failure(lcd.set_cursor_pos(3)), LcdError::CursorError);
}

#[test]
fn a_failed_clear_before_a_write_is_a_clear_error_and_nothing_is_written() {
    let lcd = ready_session(100);
    let (calls, result) = perform(lcd.display_text("Hello", true), Some(0), "timeout");
    assert_eq!(calls, vec![Capability::Clear]);
    assert_eq!(result, Err((LcdError::ClearError, "timeout")));

    let (calls, result) = perform(lcd.display_int(12, true), Some(0), "timeout");
    assert_eq!(calls, vec![Capability::Clear]);
    assert_eq!(result, Err((LcdError::ClearError, "timeout")));
}

#[test]
fn a_failed_write_after_a_clear_leaves_the_display_cleared() {
    let lcd = ready_session(100);
    let (calls, result) = perform(lcd.display_byte(9, true), Some(1), "arbitration lost");
    assert_eq!(calls, vec![Capability::Clear, Capability::WriteByte(9)]);
    assert_eq!(result, Err((LcdError::WriteError, "arbitration lost")));
}

#[test]
fn a_command_without_failure_ends_well() {
    let lcd = ready_session(100);
    let (calls, result) = perform(lcd.display_char('z', true), None, "unused");
    assert_eq!(calls, vec![Capability::Clear, Capability::WriteChar('z')]);
    assert_eq!(result, Ok(()));
    let (calls, result) = perform(lcd.set_autoscroll(false), None, "unused");
    assert_eq!(calls, vec![Capability::SetAutoscroll(false)]);
    assert_eq!(result, Ok(()));
}

#[test]
fn the_cause_is_passed_on_untouched() {
    let lcd = ready_session(100);
    let run = lcd.reset_display();
    match run.resume(Err(vec![0x27u8, 0xff])) {
        Progress::Finished(Err((tag, cause))) => {
            assert_eq!(tag, LcdError::ResetError);
            assert_eq!(cause, vec![0x27u8, 0xff]);
        }
        other => panic!("the run went on: {:?}", other),
    }
}

#[test]
fn with_clear_there_is_one_clear_call_directly_before_one_write_call() {
    let lcd = ready_session(100);
    let runs = vec![
        lcd.display_text("a", true),
        lcd.display_byte(1, true),
        lcd.display_bytes(&[1], true),
        lcd.display_char('a', true),
        lcd.display_int(1, true),
        lcd.display_float("1.0", true),
    ];
    for run in runs {
        let (calls, result) = perform(run, None, "unused");
        assert_eq!(result, Ok(()));
        assert_eq!(calls.len(), 2);
        assert_eq!(calls[0], Capability::Clear);
        assert!(matches!(
            calls[1],
            Capability::WriteStr(_)
                | Capability::WriteByte(_)
                | Capability::WriteBytes(_)
                | Capability::WriteChar(_)
        ));
    }
}

#[test]
fn without_clear_there_is_no_clear_call() {
    let lcd = ready_session(100);
    let runs = vec![
        lcd.display_text("a", false),
        lcd.display_byte(1, false),
        lcd.display_bytes(&[1], false),
        lcd.display_char('a', false),
        lcd.display_int(1, false),
        lcd.display_float("1.0", false),
    ];
    for run in runs {
        let (calls, result) = perform(run, None, "unused");
        assert_eq!(result, Ok(()));
        assert_eq!(calls.len(), 1);
        assert_ne!(calls[0], Capability::Clear);
    }
}

#[test]
fn a_run_counts_the_steps_it_has_behind_it() {
    let lcd = ready_session(100);
    let run = lcd.display_text("ab", true);
    assert_eq!(run.step_index(), 0);
    assert_eq!(run.step().capability, Capability::Clear);
    match run.resume::<()>(Ok(())) {
        Progress::Continue(run) => {
            assert_eq!(run.step_index(), 1);
            assert_eq!(run.step().capability, Capability::WriteStr(String::from("ab")));
            assert!(matches!(run.resume::<()>(Ok(())), Progress::Finished(Ok(()))));
        }
        Progress::Finished(_) => panic!("the write was left out"),
    }
}
