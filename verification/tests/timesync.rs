use leap::timesync::{check_result, next_wait_action, TimesyncError, WaitAction, WaitEvent};

#[test]
fn synchronized_output_is_yes() {
    assert_eq!(check_result(true, b"yes\n"), Ok(true));
    assert_eq!(check_result(true, b"no\n"), Ok(false));
    assert_eq!(check_result(true, b"yes"), Ok(false));
    assert_eq!(check_result(true, b"yes\n\n"), Ok(false));
    assert_eq!(check_result(true, b"Yes\n"), Ok(false));
    assert_eq!(check_result(true, b""), Ok(false));
}

#[test]
fn failing_command_is_an_error() {
    assert_eq!(check_result(false, b"yes\n"), Err(TimesyncError::CheckFailed));
}

#[test]
fn wait_checks_until_timeout() {
    assert_eq!(next_wait_action(1_000, WaitEvent::Elapsed { nanos: 0 }), WaitAction::RunCheck);
    assert_eq!(next_wait_action(1_000, WaitEvent::Elapsed { nanos: 999 }), WaitAction::RunCheck);
    assert_eq!(next_wait_action(1_000, WaitEvent::Elapsed { nanos: 1_000 }), WaitAction::TimedOut);
    assert_eq!(next_wait_action(0, WaitEvent::Elapsed { nanos: 0 }), WaitAction::TimedOut);
}

#[test]
fn wait_outcome_follows_check() {
    assert_eq!(next_wait_action(1_000, WaitEvent::Checked(true)), WaitAction::Synchronized);
    assert_eq!(next_wait_action(1_000, WaitEvent::Checked(false)), WaitAction::Sleep { millis: 100 });
    assert_eq!(next_wait_action(1_000, WaitEvent::CheckFailed), WaitAction::PropagateError);
}
