//! The state machine of software updates of a LEAP device.
//!
//! An update over the air is installed into the standby slot, booted on
//! trial, and confirmed by a health check. The boot loader keeps three
//! values in its environment: the update state `ustate`, the boot counter
//! `bootcount`, and the boot slot `bootpart`. A trial boot that fails is
//! retried until the boot counter reaches the boot limit; then the boot
//! loader falls back to the slot the device ran before, and marks the update
//! as failed.
//!
//! The phases and transitions:
//!
//! - Idle, on an update offered while `ustate` is [`USTATE_OK`]: Installing.
//! - Installing, on failure: Idle, with `ustate` [`USTATE_FAILED`].
//! - Installing, on success: U-Boot arbitration, booting the standby slot,
//!   with `bootcount` 0 and `ustate` [`USTATE_INSTALLED`].
//! - U-Boot arbitration, with `ustate` [`USTATE_INSTALLED`]: Fallback where
//!   `bootcount` has reached the boot limit, else a trial boot with
//!   `bootcount` one higher; with another `ustate`: Idle.
//! - Trial boot, health check passed: Idle, with `ustate` [`USTATE_OK`] and
//!   `bootcount` 0; check failed, panic, hang, watchdog or power loss: back
//!   to U-Boot arbitration.
//! - Fallback: U-Boot arbitration, booting the other slot, with `ustate`
//!   [`USTATE_FAILED`] and `bootcount` 0.
use vstd::prelude::*;

verus! {

/// Update state: no update pending (a confirmed system).
pub const USTATE_OK: u8 = 0;

/// Update state: an update is installed and not yet confirmed.
pub const USTATE_INSTALLED: u8 = 1;

/// Update state: the last update failed.
pub const USTATE_FAILED: u8 = 3;

/// One of the two system slots of the device.
#[derive(Debug, Clone, Copy, PartialEq, Eq, Structural)]
pub enum Slot {
    /// The first slot.
    A,
    /// The second slot.
    B,
}

/// The phase of the update process.
#[derive(Debug, Clone, Copy, PartialEq, Eq, Structural)]
pub enum Phase {
    /// The system runs confirmed.
    Idle,
    /// An update is being installed.
    Installing,
    /// The boot loader decides what to boot.
    UBoot,
    /// The system boots an unconfirmed update on trial.
    Trial,
    /// The boot loader falls back to the other slot.
    Fallback,
}

/// The state of the device: its phase and the boot loader environment.
#[derive(Debug, Clone, Copy, PartialEq, Eq, Structural)]
pub struct UpdateState {
    /// The phase of the update process.
    pub phase: Phase,
    /// The update state of the boot loader environment.
    pub ustate: u8,
    /// The number of trial boots so far.
    pub bootcount: u32,
    /// The slot that the boot loader boots.
    pub bootpart: Slot,
}

/// What happens to the device.
#[derive(Debug, Clone, Copy, PartialEq, Eq, Structural)]
pub enum UpdateEvent {
    /// An update is offered over the air.
    OtaOffered,
    /// The update was installed.
    InstallSucceeded,
    /// The installation, or the signature check of the update, failed.
    InstallFailed,
    /// The boot loader runs.
    BootLoaderRuns,
    /// The health check of the trial boot passed.
    HealthCheckPassed,
    /// The trial boot failed: the health check failed, or the system
    /// panicked, hung, was reset by the watchdog or lost power.
    TrialFailed,
}

/// The other slot.
pub open spec fn spec_alt(slot: Slot) -> Slot {
    match slot {
        Slot::A => Slot::B,
        Slot::B => Slot::A,
    }
}

/// The other slot.
pub fn alt(slot: Slot) -> (r: Slot)
    ensures
        r == spec_alt(slot),
{
    match slot {
        Slot::A => Slot::B,
        Slot::B => Slot::A,
    }
}

/// The state of a freshly installed device, running from slot `slot`.
pub open spec fn spec_fresh(slot: Slot) -> UpdateState {
    UpdateState { phase: Phase::Idle, ustate: USTATE_OK, bootcount: 0, bootpart: slot }
}

/// The state of a freshly installed device, running from slot `slot`.
pub fn fresh_install(slot: Slot) -> (r: UpdateState)
    ensures
        r == spec_fresh(slot),
{
    UpdateState { phase: Phase::Idle, ustate: USTATE_OK, bootcount: 0, bootpart: slot }
}

/// The state after the event `event` in the state `s`, with the boot limit
/// `bootlimit`. An event that does not apply in the phase of `s` leaves `s`
/// as it is.
pub open spec fn spec_step(s: UpdateState, event: UpdateEvent, bootlimit: u32) -> UpdateState {
    match (s.phase, event) {
        (Phase::Idle, UpdateEvent::OtaOffered) => if s.ustate == USTATE_OK {
            UpdateState { phase: Phase::Installing, ..s }
        } else {
            s
        },
        (Phase::Installing, UpdateEvent::InstallFailed) => UpdateState {
            phase: Phase::Idle,
            ustate: USTATE_FAILED,
            ..s
        },
        (Phase::Installing, UpdateEvent::InstallSucceeded) => UpdateState {
            phase: Phase::UBoot,
            ustate: USTATE_INSTALLED,
            bootcount: 0,
            bootpart: spec_alt(s.bootpart),
        },
        (Phase::UBoot, UpdateEvent::BootLoaderRuns) => if s.ustate == USTATE_INSTALLED {
            if s.bootcount >= bootlimit {
                UpdateState { phase: Phase::Fallback, ..s }
            } else {
                UpdateState { phase: Phase::Trial, bootcount: (s.bootcount + 1) as u32, ..s }
            }
        } else {
            UpdateState { phase: Phase::Idle, ..s }
        },
        (Phase::Trial, UpdateEvent::HealthCheckPassed) => UpdateState {
            phase: Phase::Idle,
            ustate: USTATE_OK,
            bootcount: 0,
            ..s
        },
        (Phase::Trial, UpdateEvent::TrialFailed) => UpdateState { phase: Phase::UBoot, ..s },
        (Phase::Fallback, UpdateEvent::BootLoaderRuns) => UpdateState {
            phase: Phase::UBoot,
            ustate: USTATE_FAILED,
            bootcount: 0,
            bootpart: spec_alt(s.bootpart),
        },
        _ => s,
    }
}

/// Takes the state of the device from `s` on with the event `event`, with the
/// boot limit `bootlimit`.
pub fn step(s: UpdateState, event: UpdateEvent, bootlimit: u32) -> (r: UpdateState)
    ensures
        r == spec_step(s, event, bootlimit),
        s.phase == Phase::Installing && event == UpdateEvent::InstallFailed ==> r == (
        UpdateState { phase: Phase::Idle, ustate: USTATE_FAILED, ..s }),
{
    match (s.phase, event) {
        (Phase::Idle, UpdateEvent::OtaOffered) => {
            if s.ustate == USTATE_OK {
                UpdateState { phase: Phase::Installing, ..s }
            } else {
                s
            }
        },
        (Phase::Installing, UpdateEvent::InstallFailed) => UpdateState {
            phase: Phase::Idle,
            ustate: USTATE_FAILED,
            ..s
        },
        (Phase::Installing, UpdateEvent::InstallSucceeded) => UpdateState {
            phase: Phase::UBoot,
            ustate: USTATE_INSTALLED,
            bootcount: 0,
            bootpart: alt(s.bootpart),
        },
        (Phase::UBoot, UpdateEvent::BootLoaderRuns) => {
            if s.ustate == USTATE_INSTALLED {
                if s.bootcount >= bootlimit {
                    UpdateState { phase: Phase::Fallback, ..s }
                } else {
                    UpdateState { phase: Phase::Trial, bootcount: s.bootcount + 1, ..s }
                }
            } else {
                UpdateState { phase: Phase::Idle, ..s }
            }
        },
        (Phase::Trial, UpdateEvent::HealthCheckPassed) => UpdateState {
            phase: Phase::Idle,
            ustate: USTATE_OK,
            bootcount: 0,
            ..s
        },
        (Phase::Trial, UpdateEvent::TrialFailed) => UpdateState { phase: Phase::UBoot, ..s },
        (Phase::Fallback, UpdateEvent::BootLoaderRuns) => UpdateState {
            phase: Phase::UBoot,
            ustate: USTATE_FAILED,
            bootcount: 0,
            bootpart: alt(s.bootpart),
        },
        _ => s,
    }
}

/// The state after the events `events`, one after the other, from `s`.
pub open spec fn spec_run(s: UpdateState, events: Seq<UpdateEvent>, bootlimit: u32) -> UpdateState
    decreases events.len(),
{
    if events.len() == 0 {
        s
    } else {
        spec_run(spec_step(s, events[0], bootlimit), events.drop_first(), bootlimit)
    }
}

/// `n` trial boots that fail: each time the boot loader runs, and the trial
/// boot fails.
pub open spec fn failing_trials(n: nat) -> Seq<UpdateEvent>
    decreases n,
{
    if n == 0 {
        Seq::empty()
    } else {
        seq![UpdateEvent::BootLoaderRuns, UpdateEvent::TrialFailed] + failing_trials(
            (n - 1) as nat,
        )
    }
}

/// The boot counter never passes the boot limit: every transition keeps
/// `bootcount <= bootlimit`.
pub proof fn lemma_bootcount_bounded(s: UpdateState, event: UpdateEvent, bootlimit: u32)
    requires
        s.bootcount <= bootlimit,
    ensures
        spec_step(s, event, bootlimit).bootcount <= bootlimit,
{
}

/// A failed installation marks the update as failed and returns to idle, and
/// changes nothing else: the device stays on the slot it runs, with its boot
/// counter as it was.
pub proof fn lemma_install_failure_keeps_slot(s: UpdateState, bootlimit: u32)
    requires
        s.phase == Phase::Installing,
    ensures
        spec_step(s, UpdateEvent::InstallFailed, bootlimit).phase == Phase::Idle,
        spec_step(s, UpdateEvent::InstallFailed, bootlimit).ustate == USTATE_FAILED,
        spec_step(s, UpdateEvent::InstallFailed, bootlimit).bootpart == s.bootpart,
        spec_step(s, UpdateEvent::InstallFailed, bootlimit).bootcount == s.bootcount,
{
}

/// The boot slot changes only where an installation succeeds (to the standby
/// slot) or where the boot loader falls back (to the other slot); every other
/// transition keeps it.
pub proof fn lemma_slot_changes(s: UpdateState, event: UpdateEvent, bootlimit: u32)
    ensures
        spec_step(s, event, bootlimit).bootpart != s.bootpart ==> ((s.phase == Phase::Installing
            && event == UpdateEvent::InstallSucceeded) || (s.phase == Phase::Fallback && event
            == UpdateEvent::BootLoaderRuns)),
        (s.phase == Phase::Installing && event == UpdateEvent::InstallSucceeded) ==> spec_step(
            s,
            event,
            bootlimit,
        ).bootpart != s.bootpart,
        (s.phase == Phase::Fallback && event == UpdateEvent::BootLoaderRuns) ==> spec_step(
            s,
            event,
            bootlimit,
        ).bootpart != s.bootpart,
{
}

/// Each transition, stated on its own: what it changes, and that an event
/// which does not apply in a phase changes nothing.
pub proof fn lemma_transitions(s: UpdateState, event: UpdateEvent, bootlimit: u32)
    ensures
        s.phase == Phase::Idle && event == UpdateEvent::OtaOffered && s.ustate == USTATE_OK
            ==> spec_step(s, event, bootlimit) == (UpdateState { phase: Phase::Installing, ..s }),
        s.phase == Phase::Idle && event == UpdateEvent::OtaOffered && s.ustate != USTATE_OK
            ==> spec_step(s, event, bootlimit) == s,
        s.phase == Phase::Idle && event != UpdateEvent::OtaOffered ==> spec_step(
            s,
            event,
            bootlimit,
        ) == s,
        s.phase == Phase::Installing && event == UpdateEvent::InstallSucceeded ==> spec_step(
            s,
            event,
            bootlimit,
        ) == (UpdateState {
            phase: Phase::UBoot,
            ustate: USTATE_INSTALLED,
            bootcount: 0,
            bootpart: spec_alt(s.bootpart),
        }),
        s.phase == Phase::Installing && event != UpdateEvent::InstallSucceeded && event
            != UpdateEvent::InstallFailed ==> spec_step(s, event, bootlimit) == s,
        s.phase == Phase::UBoot && event == UpdateEvent::BootLoaderRuns && s.ustate
            == USTATE_INSTALLED && s.bootcount >= bootlimit ==> spec_step(s, event, bootlimit)
            == (UpdateState { phase: Phase::Fallback, ..s }),
        s.phase == Phase::UBoot && event == UpdateEvent::BootLoaderRuns && s.ustate
            == USTATE_INSTALLED && s.bootcount < bootlimit ==> spec_step(s, event, bootlimit)
            == (UpdateState { phase: Phase::Trial, bootcount: (s.bootcount + 1) as u32, ..s }),
        s.phase == Phase::UBoot && event == UpdateEvent::BootLoaderRuns && s.ustate
            != USTATE_INSTALLED ==> spec_step(s, event, bootlimit) == (UpdateState {
            phase: Phase::Idle,
            ..s
        }),
        s.phase == Phase::UBoot && event != UpdateEvent::BootLoaderRuns ==> spec_step(
            s,
            event,
            bootlimit,
        ) == s,
        s.phase == Phase::Trial && event == UpdateEvent::HealthCheckPassed ==> spec_step(
            s,
            event,
            bootlimit,
        ) == (UpdateState { phase: Phase::Idle, ustate: USTATE_OK, bootcount: 0, ..s }),
        s.phase == Phase::Trial && event == UpdateEvent::TrialFailed ==> spec_step(
            s,
            event,
            bootlimit,
        ) == (UpdateState { phase: Phase::UBoot, ..s }),
        s.phase == Phase::Trial && event != UpdateEvent::HealthCheckPassed && event
            != UpdateEvent::TrialFailed ==> spec_step(s, event, bootlimit) == s,
        s.phase == Phase::Fallback && event == UpdateEvent::BootLoaderRuns ==> spec_step(
            s,
            event,
            bootlimit,
        ) == (UpdateState {
            phase: Phase::UBoot,
            ustate: USTATE_FAILED,
            bootcount: 0,
            bootpart: spec_alt(s.bootpart),
        }),
        s.phase == Phase::Fallback && event != UpdateEvent::BootLoaderRuns ==> spec_step(
            s,
            event,
            bootlimit,
        ) == s,
        spec_alt(s.bootpart) != s.bootpart && spec_alt(spec_alt(s.bootpart)) == s.bootpart,
{
}

/// The run of events `a` and then `b` ends where the run of `b` from the end
/// of `a` ends.
pub proof fn lemma_run_append(
    s: UpdateState,
    a: Seq<UpdateEvent>,
    b: Seq<UpdateEvent>,
    bootlimit: u32,
)
    ensures
        spec_run(s, a + b, bootlimit) == spec_run(spec_run(s, a, bootlimit), b, bootlimit),
    decreases a.len(),
{
    if a.len() > 0 {
        assert((a + b).drop_first() =~= a.drop_first() + b);
        lemma_run_append(spec_step(s, a[0], bootlimit), a.drop_first(), b, bootlimit);
    }
}

/// While the boot counter stays below the boot limit, each failing trial boot
/// returns to the boot loader with the counter one higher, on the same slot.
pub proof fn lemma_failing_trials(s: UpdateState, n: nat, bootlimit: u32)
    requires
        s.phase == Phase::UBoot,
        s.ustate == USTATE_INSTALLED,
        s.bootcount + n <= bootlimit,
    ensures
        spec_run(s, failing_trials(n), bootlimit) == (UpdateState {
            bootcount: (s.bootcount + n) as u32,
            ..s
        }),
    decreases n,
{
    if n > 0 {
        let booted = spec_step(s, UpdateEvent::BootLoaderRuns, bootlimit);
        let t = spec_step(booted, UpdateEvent::TrialFailed, bootlimit);
        let two = seq![UpdateEvent::BootLoaderRuns, UpdateEvent::TrialFailed];
        lemma_run_append(s, two, failing_trials((n - 1) as nat), bootlimit);
        assert(spec_run(s, two, bootlimit) == t) by {
            reveal_with_fuel(spec_run, 3);
            assert(two.drop_first() =~= seq![UpdateEvent::TrialFailed]);
            assert(two.drop_first().drop_first() =~= Seq::<UpdateEvent>::empty());
        }
        lemma_failing_trials(t, (n - 1) as nat, bootlimit);
    }
}

/// The events of an update whose trial boots all fail: the update is offered
/// and installed, `bootlimit` trial boots fail, and the boot loader runs
/// three more times.
pub open spec fn failed_update_events(bootlimit: u32) -> Seq<UpdateEvent> {
    seq![UpdateEvent::OtaOffered, UpdateEvent::InstallSucceeded] + failing_trials(
        bootlimit as nat,
    ) + seq![UpdateEvent::BootLoaderRuns, UpdateEvent::BootLoaderRuns, UpdateEvent::BootLoaderRuns]
}

/// The events of an update that passes its health check on the first trial
/// boot.
pub open spec fn passed_update_events() -> Seq<UpdateEvent> {
    seq![
        UpdateEvent::OtaOffered,
        UpdateEvent::InstallSucceeded,
        UpdateEvent::BootLoaderRuns,
        UpdateEvent::HealthCheckPassed,
    ]
}

/// The idle state on slot `slot` with the update state `ustate` and the boot
/// counter cleared.
pub open spec fn idle_on(slot: Slot, ustate: u8) -> UpdateState {
    UpdateState { phase: Phase::Idle, ustate, bootcount: 0, bootpart: slot }
}

/// An update whose trial boots all fail is rolled back: after it is
/// installed, `bootlimit` failing trial boots, and three more runs of the
/// boot loader, the device is idle on the slot it ran before the update,
/// with the update marked as failed and the boot counter cleared. From then
/// on, no offered update is installed.
pub proof fn lemma_failed_update_rolls_back(s: UpdateState, bootlimit: u32)
    requires
        s.phase == Phase::Idle,
        s.ustate == USTATE_OK,
    ensures
        spec_run(s, failed_update_events(bootlimit), bootlimit) == idle_on(
            s.bootpart,
            USTATE_FAILED,
        ),
        spec_step(idle_on(s.bootpart, USTATE_FAILED), UpdateEvent::OtaOffered, bootlimit)
            == idle_on(s.bootpart, USTATE_FAILED),
{
    let install = seq![UpdateEvent::OtaOffered, UpdateEvent::InstallSucceeded];
    let trials = failing_trials(bootlimit as nat);
    let tail = seq![
        UpdateEvent::BootLoaderRuns,
        UpdateEvent::BootLoaderRuns,
        UpdateEvent::BootLoaderRuns,
    ];
    let installed = UpdateState {
        phase: Phase::UBoot,
        ustate: USTATE_INSTALLED,
        bootcount: 0,
        bootpart: spec_alt(s.bootpart),
    };
    assert(spec_run(s, install, bootlimit) == installed) by {
        reveal_with_fuel(spec_run, 3);
        assert(install.drop_first() =~= seq![UpdateEvent::InstallSucceeded]);
        assert(install.drop_first().drop_first() =~= Seq::<UpdateEvent>::empty());
    }
    lemma_failing_trials(installed, bootlimit as nat, bootlimit);
    let exhausted = UpdateState { bootcount: bootlimit, ..installed };
    lemma_run_append(s, install, trials, bootlimit);
    lemma_run_append(s, install + trials, tail, bootlimit);
    assert(spec_run(exhausted, tail, bootlimit) == idle_on(s.bootpart, USTATE_FAILED)) by {
        reveal_with_fuel(spec_run, 4);
        assert(tail.drop_first() =~= seq![UpdateEvent::BootLoaderRuns, UpdateEvent::BootLoaderRuns]);
        assert(tail.drop_first().drop_first() =~= seq![UpdateEvent::BootLoaderRuns]);
        assert(tail.drop_first().drop_first().drop_first() =~= Seq::<UpdateEvent>::empty());
    }
}

/// An update that passes its health check on the first trial boot is
/// confirmed: the device is idle on the slot of the update, with the update
/// state back to [`USTATE_OK`] and the boot counter cleared, where the boot
/// limit allows a trial boot at all.
pub proof fn lemma_passed_update_confirms(s: UpdateState, bootlimit: u32)
    requires
        s.phase == Phase::Idle,
        s.ustate == USTATE_OK,
        bootlimit > 0,
    ensures
        spec_run(s, passed_update_events(), bootlimit) == idle_on(spec_alt(s.bootpart), USTATE_OK),
{
    reveal_with_fuel(spec_run, 5);
    let events = passed_update_events();
    assert(events.drop_first() =~= seq![
        UpdateEvent::InstallSucceeded,
        UpdateEvent::BootLoaderRuns,
        UpdateEvent::HealthCheckPassed,
    ]);
    assert(events.drop_first().drop_first() =~= seq![
        UpdateEvent::BootLoaderRuns,
        UpdateEvent::HealthCheckPassed,
    ]);
    assert(events.drop_first().drop_first().drop_first() =~= seq![
        UpdateEvent::HealthCheckPassed,
    ]);
    assert(events.drop_first().drop_first().drop_first().drop_first() =~= Seq::<
        UpdateEvent,
    >::empty());
}

} // verus!
