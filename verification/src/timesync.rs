//! Decisions of the NTP time synchronisation check of the server.
//!
//! The server asks systemd's `timedatectl show -P NTPSynchronized` whether
//! the system time is synchronised, and can wait for that, polling until a
//! timeout. Running the command, reading the clock and sleeping are left to
//! the caller; this module decides what their results mean and what to do
//! next.
use vstd::prelude::*;

verus! {

/// How often the synchronisation is polled while waiting for it.
pub const POLL_INTERVAL_MILLIS: u64 = 100;

/// Why the time synchronisation could not be confirmed.
#[derive(Debug, Clone, Copy, PartialEq, Eq)]
pub enum TimesyncError {
    /// `timedatectl` did not exit with a zero status code.
    CheckFailed,
    /// The timeout was reached before synchronisation was confirmed.
    Timeout,
}

/// The output of `timedatectl` that reports a synchronised clock: `yes`
/// and a line feed.
pub open spec fn synchronized_output() -> Seq<u8> {
    seq![0x79u8, 0x65u8, 0x73u8, 0x0Au8]
}

/// What the check concludes from the exit status and standard output of
/// `timedatectl show -P NTPSynchronized`.
pub open spec fn spec_check_result(success: bool, stdout: Seq<u8>) -> Result<bool, TimesyncError> {
    if !success {
        Err(TimesyncError::CheckFailed)
    } else {
        Ok(stdout == synchronized_output())
    }
}

/// Concludes from the exit status and standard output of
/// `timedatectl show -P NTPSynchronized` whether the time is synchronised.
///
/// Returns `Ok(true)` if synchronized, `Ok(false)` if not, or an error if
/// `timedatectl` did not exit with a zero status code.
pub fn check_result(success: bool, stdout: &[u8]) -> (r: Result<bool, TimesyncError>)
    ensures
        r == spec_check_result(success, stdout@),
        !success ==> r == Err::<bool, TimesyncError>(TimesyncError::CheckFailed),
        r is Ok ==> success,
        r == Ok::<bool, TimesyncError>(true) <==> success && stdout@ == seq![
            0x79u8,
            0x65u8,
            0x73u8,
            0x0Au8,
        ],
{
    if !success {
        return Err(TimesyncError::CheckFailed);
    }
    let expected: [u8; 4] = [0x79u8, 0x65u8, 0x73u8, 0x0Au8];
    if stdout.len() != 4 {
        assert(stdout@ != synchronized_output());
        return Ok(false);
    }
    let mut i: usize = 0;
    while i < 4
        invariant
            success,
            i <= 4,
            stdout@.len() == 4,
            expected@ == synchronized_output(),
            forall|k: int| 0 <= k < i ==> stdout@[k] == synchronized_output()[k],
        decreases 4 - i,
    {
        if stdout[i] != expected[i] {
            assert(stdout@[i as int] != synchronized_output()[i as int]);
            assert(stdout@ != synchronized_output());
            return Ok(false);
        }
        i = i + 1;
    }
    assert(stdout@ =~= synchronized_output());
    Ok(true)
}

/// A command that failed is an error whatever it printed; the check answers
/// only for a command that succeeded, and answers synchronised exactly where
/// it printed `yes` and a line feed.
pub proof fn lemma_check_result(success: bool, stdout: Seq<u8>)
    ensures
        !success ==> spec_check_result(success, stdout) == Err::<bool, TimesyncError>(
            TimesyncError::CheckFailed,
        ),
        spec_check_result(success, stdout) is Ok ==> success,
        success ==> spec_check_result(success, stdout) is Ok,
        spec_check_result(success, stdout) == Ok::<bool, TimesyncError>(true) <==> success
            && stdout == seq![0x79u8, 0x65u8, 0x73u8, 0x0Au8],
{
}

/// What happened last while waiting for the synchronisation.
#[derive(Debug, Clone, Copy, PartialEq, Eq)]
pub enum WaitEvent {
    /// The clock was read: so much time has passed since the wait began.
    Elapsed { nanos: u128 },
    /// The check ran and found the time synchronised or not.
    Checked(bool),
    /// The check failed with an error.
    CheckFailed,
}

/// What to do next while waiting for the synchronisation.
#[derive(Debug, Clone, Copy, PartialEq, Eq)]
pub enum WaitAction {
    /// Run the check.
    RunCheck,
    /// Sleep this many milliseconds, then read the clock.
    Sleep { millis: u64 },
    /// The time is synchronised: the wait succeeds.
    Synchronized,
    /// The check failed: the wait fails with the check's error.
    PropagateError,
    /// The timeout was reached: the wait fails with [`TimesyncError::Timeout`].
    TimedOut,
}

/// The next step of waiting for synchronisation with the timeout
/// `timeout_nanos`, after the event `event`.
pub open spec fn spec_next_wait_action(timeout_nanos: u128, event: WaitEvent) -> WaitAction {
    match event {
        WaitEvent::Elapsed { nanos } => if nanos < timeout_nanos {
            WaitAction::RunCheck
        } else {
            WaitAction::TimedOut
        },
        WaitEvent::Checked(true) => WaitAction::Synchronized,
        WaitEvent::Checked(false) => WaitAction::Sleep { millis: POLL_INTERVAL_MILLIS },
        WaitEvent::CheckFailed => WaitAction::PropagateError,
    }
}

/// Decides the next step of waiting for the time synchronisation with the
/// timeout `timeout_nanos`: the check runs while the time elapsed since the
/// wait began is below the timeout; a synchronised clock ends the wait, an
/// unsynchronised one sleeps for [`POLL_INTERVAL_MILLIS`] before the clock is
/// read again, and a failed check ends the wait with its error.
pub fn next_wait_action(timeout_nanos: u128, event: WaitEvent) -> (r: WaitAction)
    ensures
        r == spec_next_wait_action(timeout_nanos, event),
{
    match event {
        WaitEvent::Elapsed { nanos } => {
            if nanos < timeout_nanos {
                WaitAction::RunCheck
            } else {
                WaitAction::TimedOut
            }
        },
        WaitEvent::Checked(true) => WaitAction::Synchronized,
        WaitEvent::Checked(false) => WaitAction::Sleep { millis: POLL_INTERVAL_MILLIS },
        WaitEvent::CheckFailed => WaitAction::PropagateError,
    }
}

/// The wait never succeeds but on a check that found the clock synchronised,
/// and never times out before the timeout has elapsed.
pub proof fn lemma_wait_outcomes(timeout_nanos: u128, event: WaitEvent)
    ensures
        spec_next_wait_action(timeout_nanos, event) == WaitAction::Synchronized <==> event
            == WaitEvent::Checked(true),
        spec_next_wait_action(timeout_nanos, event) == WaitAction::TimedOut <==> (
        event matches WaitEvent::Elapsed { nanos } && nanos >= timeout_nanos),
        spec_next_wait_action(timeout_nanos, event) == WaitAction::RunCheck ==> (
        event matches WaitEvent::Elapsed { nanos } && nanos < timeout_nanos),
{
}

} // verus!
