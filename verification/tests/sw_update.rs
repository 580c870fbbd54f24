use leap::sw_update::{
    alt, fresh_install, step, Phase, Slot, UpdateEvent, UpdateState, USTATE_FAILED,
    USTATE_INSTALLED, USTATE_OK,
};

fn run(mut s: UpdateState, events: &[UpdateEvent], bootlimit: u32) -> UpdateState {
    for e in events {
        s = step(s, *e, bootlimit);
    }
    s
}

#[test]
fn fresh_install_is_idle_and_confirmed() {
    let s = fresh_install(Slot::A);
    assert_eq!(s, UpdateState { phase: Phase::Idle, ustate: USTATE_OK, bootcount: 0, bootpart: Slot::A });
    assert_eq!(alt(Slot::A), Slot::B);
    assert_eq!(alt(Slot::B), Slot::A);
}

#[test]
fn install_boots_standby_slot() {
    let s = run(fresh_install(Slot::A), &[UpdateEvent::OtaOffered, UpdateEvent::InstallSucceeded], 3);
    assert_eq!(s, UpdateState { phase: Phase::UBoot, ustate: USTATE_INSTALLED, bootcount: 0, bootpart: Slot::B });
}

#[test]
fn failed_install_marks_failure() {
    let s = run(fresh_install(Slot::B), &[UpdateEvent::OtaOffered, UpdateEvent::InstallFailed], 3);
    assert_eq!(s, UpdateState { phase: Phase::Idle, ustate: USTATE_FAILED, bootcount: 0, bootpart: Slot::B });
    assert_eq!(step(s, UpdateEvent::OtaOffered, 3), s);
}

#[test]
fn passed_trial_confirms_update() {
    let s = run(
        fresh_install(Slot::A),
        &[
            UpdateEvent::OtaOffered,
            UpdateEvent::InstallSucceeded,
            UpdateEvent::BootLoaderRuns,
            UpdateEvent::TrialFailed,
            UpdateEvent::BootLoaderRuns,
            UpdateEvent::HealthCheckPassed,
        ],
        3,
    );
    assert_eq!(s, UpdateState { phase: Phase::Idle, ustate: USTATE_OK, bootcount: 0, bootpart: Slot::B });
}

#[test]
fn failing_trials_roll_back() {
    let mut events = vec![UpdateEvent::OtaOffered, UpdateEvent::InstallSucceeded];
    for _ in 0..3 {
        events.push(UpdateEvent::BootLoaderRuns);
        events.push(UpdateEvent::TrialFailed);
    }
    let s = run(fresh_install(Slot::A), &events, 3);
    assert_eq!(s.bootcount, 3);
    let s = step(s, UpdateEvent::BootLoaderRuns, 3);
    assert_eq!(s.phase, Phase::Fallback);
    let s = step(s, UpdateEvent::BootLoaderRuns, 3);
    assert_eq!(s, UpdateState { phase: Phase::UBoot, ustate: USTATE_FAILED, bootcount: 0, bootpart: Slot::A });
    let s = step(s, UpdateEvent::BootLoaderRuns, 3);
    assert_eq!(s, UpdateState { phase: Phase::Idle, ustate: USTATE_FAILED, bootcount: 0, bootpart: Slot::A });
}

#[test]
fn events_out_of_phase_change_nothing() {
    let s = fresh_install(Slot::A);
    assert_eq!(step(s, UpdateEvent::HealthCheckPassed, 3), s);
    assert_eq!(step(s, UpdateEvent::BootLoaderRuns, 3), s);
    assert_eq!(step(s, UpdateEvent::InstallSucceeded, 3), s);
}
