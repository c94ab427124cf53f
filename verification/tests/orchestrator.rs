use xiao_firmware::mode::{WifiMode, WifiStatus};
use xiao_firmware::orchestrator::{networking_task, Op, Orchestrator, Phase, Warning};

fn count(ops: &[Op], op: Op) -> usize {
    ops.iter().filter(|o| **o == op).count()
}

#[test]
fn boots_idle_with_empty_slots() {
    let orch = Orchestrator::new();
    assert_eq!(orch.phase(), Phase::Idle);
    assert!(!orch.slot_initialized(WifiMode::Ap));
    assert!(!orch.slot_initialized(WifiMode::Sta));
    assert!(!orch.slot_initialized(WifiMode::ApSta));
}

#[test]
fn access_point_request_starts_its_bundle() {
    let mut orch = Orchestrator::new();
    let ops = orch.step(WifiStatus::Enabled(WifiMode::Ap));
    assert_eq!(
        ops,
        vec![
            Op::InitSlot(WifiMode::Ap),
            Op::TakeInterface(WifiMode::Ap),
            Op::RaceBundle(WifiMode::Ap)
        ]
    );
    assert_eq!(orch.phase(), Phase::RunningAp);
    assert!(orch.slot_initialized(WifiMode::Ap));
    assert!(!orch.slot_initialized(WifiMode::Sta));
}

#[test]
fn station_request_starts_radio_then_bundle() {
    let mut orch = Orchestrator::new();
    let ops = orch.step(WifiStatus::Enabled(WifiMode::Sta));
    assert_eq!(
        ops,
        vec![
            Op::StartRadio,
            Op::InitSlot(WifiMode::Sta),
            Op::TakeInterface(WifiMode::Sta),
            Op::RaceBundle(WifiMode::Sta)
        ]
    );
    assert_eq!(orch.phase(), Phase::RunningSta);
    assert!(orch.slot_initialized(WifiMode::Sta));
    assert!(!orch.slot_initialized(WifiMode::Ap));
}

#[test]
fn combined_mode_is_warned_about_and_acquires_nothing() {
    let mut orch = Orchestrator::new();
    let ops = orch.step(WifiStatus::Enabled(WifiMode::ApSta));
    assert_eq!(
        ops,
        vec![Op::Warn(Warning::UnsupportedMode), Op::AwaitChange, Op::ReadStatus]
    );
    assert_eq!(orch.phase(), Phase::Idle);
    assert!(!orch.slot_initialized(WifiMode::Ap));
    assert!(!orch.slot_initialized(WifiMode::Sta));
}

#[test]
fn disabled_while_idle_only_waits() {
    let mut orch = Orchestrator::new();
    let ops = orch.step(WifiStatus::Disabled);
    assert_eq!(ops, vec![Op::AwaitChange, Op::ReadStatus]);
    assert_eq!(orch.phase(), Phase::Idle);
    assert!(!orch.slot_initialized(WifiMode::Ap));
    assert!(!orch.slot_initialized(WifiMode::Sta));
}

#[test]
fn any_status_ends_a_running_bundle_radio_stop_first() {
    for status in [
        WifiStatus::Disabled,
        WifiStatus::Enabled(WifiMode::Ap),
        WifiStatus::Enabled(WifiMode::Sta),
        WifiStatus::Enabled(WifiMode::ApSta),
    ] {
        for mode in [WifiMode::Ap, WifiMode::Sta] {
            let mut orch = Orchestrator::new();
            orch.step(WifiStatus::Enabled(mode));
            assert_ne!(orch.phase(), Phase::Idle);
            let ops = orch.step(status);
            assert_eq!(ops, vec![Op::StopRadio, Op::ReadStatus]);
            let stop = ops.iter().position(|o| *o == Op::StopRadio).unwrap();
            let read = ops.iter().position(|o| *o == Op::ReadStatus).unwrap();
            assert!(stop < read);
            assert_eq!(orch.phase(), Phase::Idle);
            assert!(orch.slot_initialized(mode));
        }
    }
}

#[test]
fn repeated_access_point_request_starts_no_second_bundle() {
    let mut orch = Orchestrator::new();
    orch.step(WifiStatus::Enabled(WifiMode::Ap));
    assert_eq!(orch.phase(), Phase::RunningAp);
    let first = orch.step(WifiStatus::Enabled(WifiMode::Ap));
    assert_eq!(first, vec![Op::StopRadio, Op::ReadStatus]);
    let second = orch.step(WifiStatus::Enabled(WifiMode::Ap));
    assert_eq!(
        second,
        vec![Op::Warn(Warning::ReenterAp), Op::AwaitChange, Op::ReadStatus]
    );
    assert_eq!(orch.phase(), Phase::Idle);
    assert!(orch.slot_initialized(WifiMode::Ap));
}

#[test]
fn repeated_station_request_starts_radio_and_waits() {
    let mut orch = Orchestrator::new();
    orch.step(WifiStatus::Enabled(WifiMode::Sta));
    orch.step(WifiStatus::Disabled);
    let ops = orch.step(WifiStatus::Enabled(WifiMode::Sta));
    assert_eq!(
        ops,
        vec![
            Op::StartRadio,
            Op::Warn(Warning::ReenterSta),
            Op::AwaitChange,
            Op::ReadStatus
        ]
    );
    assert_eq!(orch.phase(), Phase::Idle);
}

#[test]
fn scenario_access_point_disabled_access_point() {
    let mut orch = Orchestrator::new();
    let mut all: Vec<Op> = Vec::new();

    // Enabled(AP) is read while idle.
    let ops = orch.step(WifiStatus::Enabled(WifiMode::Ap));
    assert_eq!(count(&ops, Op::InitSlot(WifiMode::Ap)), 1);
    assert_eq!(ops.last(), Some(&Op::RaceBundle(WifiMode::Ap)));
    assert_eq!(orch.phase(), Phase::RunningAp);
    all.extend(ops);

    // The status changes to Disabled: the race is over.
    let ops = orch.step(WifiStatus::Disabled);
    assert_eq!(ops, vec![Op::StopRadio, Op::ReadStatus]);
    assert_eq!(orch.phase(), Phase::Idle);
    all.extend(ops);

    // Disabled is read while idle.
    let ops = orch.step(WifiStatus::Disabled);
    assert_eq!(ops, vec![Op::AwaitChange, Op::ReadStatus]);
    all.extend(ops);

    // Enabled(AP) again: the slot was never freed.
    let ops = orch.step(WifiStatus::Enabled(WifiMode::Ap));
    assert_eq!(
        ops,
        vec![Op::Warn(Warning::ReenterAp), Op::AwaitChange, Op::ReadStatus]
    );
    assert_eq!(orch.phase(), Phase::Idle);
    all.extend(ops);

    assert_eq!(count(&all, Op::InitSlot(WifiMode::Ap)), 1);
    assert_eq!(count(&all, Op::TakeInterface(WifiMode::Ap)), 1);
    assert_eq!(count(&all, Op::RaceBundle(WifiMode::Ap)), 1);
    assert_eq!(count(&all, Op::StopRadio), 1);
    assert!(orch.slot_initialized(WifiMode::Ap));
}

#[test]
fn never_two_bundles_over_a_long_sequence() {
    let statuses = [
        WifiStatus::Enabled(WifiMode::Ap),
        WifiStatus::Enabled(WifiMode::Sta),
        WifiStatus::Enabled(WifiMode::Sta),
        WifiStatus::Enabled(WifiMode::Ap),
        WifiStatus::Disabled,
        WifiStatus::Enabled(WifiMode::ApSta),
        WifiStatus::Enabled(WifiMode::Sta),
        WifiStatus::Enabled(WifiMode::Ap),
    ];
    let mut orch = Orchestrator::new();
    let mut phases = Vec::new();
    for status in statuses {
        orch.step(status);
        phases.push(orch.phase());
    }
    assert_eq!(
        phases,
        vec![
            Phase::RunningAp,
            Phase::Idle,
            Phase::RunningSta,
            Phase::Idle,
            Phase::Idle,
            Phase::Idle,
            Phase::Idle,
            Phase::Idle
        ]
    );
}

#[test]
fn networking_task_gives_the_whole_trace() {
    let statuses = vec![
        WifiStatus::Enabled(WifiMode::Sta),
        WifiStatus::Enabled(WifiMode::Ap),
        WifiStatus::Enabled(WifiMode::Ap),
        WifiStatus::Disabled,
        WifiStatus::Enabled(WifiMode::Sta),
    ];
    let ops = networking_task(&statuses);
    assert_eq!(
        ops,
        vec![
            Op::StartRadio,
            Op::InitSlot(WifiMode::Sta),
            Op::TakeInterface(WifiMode::Sta),
            Op::RaceBundle(WifiMode::Sta),
            Op::StopRadio,
            Op::ReadStatus,
            Op::InitSlot(WifiMode::Ap),
            Op::TakeInterface(WifiMode::Ap),
            Op::RaceBundle(WifiMode::Ap),
            Op::StopRadio,
            Op::ReadStatus,
            Op::StartRadio,
            Op::Warn(Warning::ReenterSta),
            Op::AwaitChange,
            Op::ReadStatus,
        ]
    );
    for mode in [WifiMode::Ap, WifiMode::Sta] {
        assert!(count(&ops, Op::InitSlot(mode)) <= 1);
        assert!(count(&ops, Op::TakeInterface(mode)) <= 1);
        assert!(count(&ops, Op::RaceBundle(mode)) <= 1);
    }
}

#[test]
fn networking_task_on_no_status_does_nothing() {
    assert_eq!(networking_task(&Vec::new()), Vec::<Op>::new());
}

#[test]
fn status_names_its_mode() {
    assert_eq!(WifiStatus::Enabled(WifiMode::Ap).mode(), Some(WifiMode::Ap));
    assert_eq!(WifiStatus::Enabled(WifiMode::ApSta).mode(), Some(WifiMode::ApSta));
    assert_eq!(WifiStatus::Disabled.mode(), None);
    assert!(WifiMode::Ap.is_supported());
    assert!(WifiMode::Sta.is_supported());
    assert!(!WifiMode::ApSta.is_supported());
}

fn every_status() -> [WifiStatus; 4] {
    [
        WifiStatus::Disabled,
        WifiStatus::Enabled(WifiMode::Ap),
        WifiStatus::Enabled(WifiMode::Sta),
        WifiStatus::Enabled(WifiMode::ApSta),
    ]
}

#[test]
fn radio_stop_follows_every_race() {
    let all = every_status();
    // every sequence of four statuses
    for code in 0..256usize {
        let statuses: Vec<WifiStatus> = (0..4).map(|k| all[(code >> (2 * k)) & 3]).collect();
        let ops = networking_task(&statuses);
        for (i, op) in ops.iter().enumerate() {
            if matches!(op, Op::RaceBundle(_)) && i + 1 < ops.len() {
                assert_eq!(ops[i + 1], Op::StopRadio);
            }
        }
        for mode in [WifiMode::Ap, WifiMode::Sta] {
            assert!(count(&ops, Op::InitSlot(mode)) <= 1);
            assert!(count(&ops, Op::TakeInterface(mode)) <= 1);
            assert!(count(&ops, Op::RaceBundle(mode)) <= 1);
        }
    }
}

#[test]
fn every_plan_ends_with_the_next_status() {
    for first in every_status() {
        for second in every_status() {
            let mut orch = Orchestrator::new();
            orch.step(first);
            let ops = orch.step(second);
            match orch.phase() {
                Phase::Idle => assert_eq!(ops.last(), Some(&Op::ReadStatus)),
                Phase::RunningAp => assert_eq!(ops.last(), Some(&Op::RaceBundle(WifiMode::Ap))),
                Phase::RunningSta => assert_eq!(ops.last(), Some(&Op::RaceBundle(WifiMode::Sta))),
            }
        }
    }
}
