use lifecycle_core::generation::Generation;
use lifecycle_core::instance::{
    Action, InstanceRuntimeState, InstanceRuntimeStateRequested, InstanceState, LifecycleError,
    ObservedState, RunState, TargetRunState,
};

fn record(run_state: RunState) -> InstanceState {
    InstanceState::new(InstanceRuntimeState {
        run_state,
        sled_uuid: 0x11,
        gen: Generation { value: 0 },
        time_updated: 0,
    })
}

fn target(run_state: TargetRunState) -> InstanceRuntimeStateRequested {
    InstanceRuntimeStateRequested { run_state }
}

#[test]
fn run_from_creating() {
    let mut s = record(RunState::Creating);
    let r = s.request_transition(&target(TargetRunState::Running), 10);
    assert_eq!(r, Ok(Some(Action::Run)));
    assert_eq!(s.current.run_state, RunState::Starting);
    assert_eq!(s.pending, Some(target(TargetRunState::Running)));
    assert_eq!(s.current.gen.value, 1);
    assert_eq!(s.current.time_updated, 10);
}

#[test]
fn reboot_from_running() {
    let mut s = record(RunState::Running);
    let r = s.request_transition(&target(TargetRunState::Reboot), 10);
    assert_eq!(r, Ok(Some(Action::Reboot)));
    assert_eq!(s.current.run_state, RunState::StoppingForReboot);
    assert_eq!(s.pending, Some(target(TargetRunState::Stopped)));
}

#[test]
fn destroy_while_running() {
    let mut s = record(RunState::Running);
    let r = s.request_transition(&target(TargetRunState::Destroyed), 10);
    assert_eq!(r, Ok(Some(Action::Stop)));
    assert_eq!(s.current.run_state, RunState::StoppingPlain);
    assert_eq!(s.pending, Some(target(TargetRunState::Destroyed)));
}

#[test]
fn destroy_while_stopped_is_direct() {
    let mut s = record(RunState::StoppedPlain);
    let r = s.request_transition(&target(TargetRunState::Destroyed), 10);
    assert_eq!(r, Ok(Some(Action::Destroy)));
    assert_eq!(s.current.run_state, RunState::Destroyed);
    assert_eq!(s.pending, None);
}

#[test]
fn stop_is_noop_when_already_stopped() {
    let mut s = record(RunState::StoppedPlain);
    let before = s;
    let r = s.request_transition(&target(TargetRunState::Stopped), 10);
    assert_eq!(r, Ok(None));
    assert_eq!(s, before);
    assert_eq!(s.current.gen.value, 0);
}

#[test]
fn stop_from_creating_needs_no_action() {
    let mut s = record(RunState::Creating);
    let r = s.request_transition(&target(TargetRunState::Stopped), 10);
    assert_eq!(r, Ok(None));
    assert_eq!(s.current.run_state, RunState::StoppedPlain);
    assert_eq!(s.pending, None);
    assert_eq!(s.current.gen.value, 1);
}

#[test]
fn stop_cancels_scheduled_reboot() {
    let mut s = record(RunState::StoppingForReboot);
    let r = s.request_transition(&target(TargetRunState::Stopped), 10);
    assert_eq!(r, Ok(None));
    assert_eq!(s.current.run_state, RunState::StoppingPlain);
    assert_eq!(s.pending, Some(target(TargetRunState::Stopped)));
}

#[test]
fn invalid_run_from_failed() {
    let mut s = record(RunState::Failed);
    let before = s;
    let r = s.request_transition(&target(TargetRunState::Running), 10);
    assert_eq!(
        r,
        Err(LifecycleError::InvalidTransition {
            current: RunState::Failed,
            requested: TargetRunState::Running,
        })
    );
    assert_eq!(s, before);
}

#[test]
fn invalid_reboot_from_stopped() {
    let mut s = record(RunState::StoppedPlain);
    let r = s.request_transition(&target(TargetRunState::Reboot), 10);
    assert_eq!(
        r,
        Err(LifecycleError::InvalidTransition {
            current: RunState::StoppedPlain,
            requested: TargetRunState::Reboot,
        })
    );
}

#[test]
fn invalid_stop_from_destroyed() {
    let mut s = record(RunState::Destroyed);
    let r = s.request_transition(&target(TargetRunState::Stopped), 10);
    assert_eq!(
        r,
        Err(LifecycleError::InvalidTransition {
            current: RunState::Destroyed,
            requested: TargetRunState::Stopped,
        })
    );
}

const ALL_STATES: [RunState; 10] = [
    RunState::Creating,
    RunState::Starting,
    RunState::Running,
    RunState::StoppingPlain,
    RunState::StoppingForReboot,
    RunState::StoppedPlain,
    RunState::StoppedForReboot,
    RunState::Repairing,
    RunState::Failed,
    RunState::Destroyed,
];

const ALL_TARGETS: [TargetRunState; 4] = [
    TargetRunState::Running,
    TargetRunState::Stopped,
    TargetRunState::Reboot,
    TargetRunState::Destroyed,
];

#[test]
fn every_state_target_pair_yields_an_outcome() {
    for state in ALL_STATES {
        for t in ALL_TARGETS {
            let mut s = record(state);
            let before = s;
            match s.request_transition(&target(t), 10) {
                Ok(None) => {
                    // A no-op either leaves the record alone or records a
                    // direct settling transition; the generation moves by at
                    // most one.
                    assert!(s.current.gen.value <= 1);
                }
                Ok(Some(_)) => {
                    assert_eq!(s.current.gen.value, 1);
                }
                Err(LifecycleError::InvalidTransition { current, requested }) => {
                    assert_eq!(s, before);
                    assert_eq!(current, state);
                    assert_eq!(requested, t);
                }
            }
        }
    }
}

#[test]
fn replaying_a_request_is_deterministic() {
    for state in ALL_STATES {
        for t in ALL_TARGETS {
            let mut a = record(state);
            let mut b = record(state);
            let ra = a.request_transition(&target(t), 10);
            let rb = b.request_transition(&target(t), 10);
            assert_eq!(ra, rb);
            assert_eq!(a, b);
        }
    }
}

#[test]
fn generation_counts_each_state_change_exactly_once() {
    let mut s = record(RunState::Creating);
    assert_eq!(s.current.gen.value, 0);
    s.request_transition(&target(TargetRunState::Running), 1).unwrap();
    assert_eq!(s.current.gen.value, 1);
    // A no-op request leaves the generation unchanged.
    s.request_transition(&target(TargetRunState::Running), 2).unwrap();
    assert_eq!(s.current.gen.value, 1);
    s.request_transition(&target(TargetRunState::Stopped), 3).unwrap();
    assert_eq!(s.current.gen.value, 2);
    let _ = s.observe_transition(ObservedState::Stopped, 4);
    assert_eq!(s.current.gen.value, 3);
    s.request_transition(&target(TargetRunState::Destroyed), 5).unwrap();
    assert_eq!(s.current.gen.value, 4);
}

#[test]
fn observed_stop_completes_a_deferred_reboot() {
    let mut s = record(RunState::Running);
    let r = s.request_transition(&target(TargetRunState::Reboot), 10);
    assert_eq!(r, Ok(Some(Action::Reboot)));
    let follow_up = s.observe_transition(ObservedState::Stopped, 11);
    assert_eq!(follow_up, Some(Action::Run));
    assert_eq!(s.current.run_state, RunState::Starting);
    assert_eq!(s.pending, Some(target(TargetRunState::Running)));
    let done = s.observe_transition(ObservedState::Running, 12);
    assert_eq!(done, None);
    assert_eq!(s.current.run_state, RunState::Running);
    assert_eq!(s.pending, None);
}

#[test]
fn observed_stop_completes_a_deferred_destroy() {
    let mut s = record(RunState::Running);
    let r = s.request_transition(&target(TargetRunState::Destroyed), 10);
    assert_eq!(r, Ok(Some(Action::Stop)));
    let follow_up = s.observe_transition(ObservedState::Stopped, 11);
    assert_eq!(follow_up, Some(Action::Destroy));
    assert_eq!(s.current.run_state, RunState::Destroyed);
    assert_eq!(s.pending, None);
}

#[test]
fn observed_plain_stop_lands_without_action() {
    let mut s = record(RunState::Running);
    s.request_transition(&target(TargetRunState::Stopped), 10).unwrap();
    let follow_up = s.observe_transition(ObservedState::Stopped, 11);
    assert_eq!(follow_up, None);
    assert_eq!(s.current.run_state, RunState::StoppedPlain);
    assert_eq!(s.pending, None);
}

#[test]
fn unexpected_observation_keeps_pending_work() {
    let mut s = record(RunState::Creating);
    s.request_transition(&target(TargetRunState::Running), 10).unwrap();
    // The resource fails before it ever comes up: the failure is recorded
    // and the outstanding target is kept.
    let follow_up = s.observe_transition(ObservedState::Failed, 11);
    assert_eq!(follow_up, None);
    assert_eq!(s.current.run_state, RunState::Failed);
    assert_eq!(s.pending, Some(target(TargetRunState::Running)));
}

#[test]
fn matching_observation_is_a_noop() {
    let mut s = record(RunState::Running);
    let before = s;
    let follow_up = s.observe_transition(ObservedState::Running, 11);
    assert_eq!(follow_up, None);
    assert_eq!(s, before);
}

#[test]
fn is_stopped_covers_only_inactive_states() {
    assert!(RunState::Creating.is_stopped());
    assert!(RunState::StoppedPlain.is_stopped());
    assert!(RunState::StoppedForReboot.is_stopped());
    assert!(RunState::Repairing.is_stopped());
    assert!(RunState::Failed.is_stopped());
    assert!(RunState::Destroyed.is_stopped());
    assert!(!RunState::Starting.is_stopped());
    assert!(!RunState::Running.is_stopped());
    assert!(!RunState::StoppingPlain.is_stopped());
    assert!(!RunState::StoppingForReboot.is_stopped());
}

#[test]
fn generation_next_increments_by_one() {
    let g = Generation::new();
    assert_eq!(g.value, 0);
    assert_eq!(g.next().value, 1);
    assert_eq!(g.next().next().value, 2);
}

#[test]
fn run_state_labels_are_the_fixed_tags() {
    assert_eq!(RunState::Creating.label(), "creating");
    assert_eq!(RunState::Starting.label(), "starting");
    assert_eq!(RunState::Running.label(), "running");
    assert_eq!(RunState::StoppingPlain.label(), "stopping");
    assert_eq!(RunState::StoppingForReboot.label(), "stopping_rebooting");
    assert_eq!(RunState::StoppedPlain.label(), "stopped");
    assert_eq!(RunState::StoppedForReboot.label(), "stopped_rebooting");
    assert_eq!(RunState::Repairing.label(), "repairing");
    assert_eq!(RunState::Failed.label(), "failed");
    assert_eq!(RunState::Destroyed.label(), "destroyed");
}

#[test]
fn target_labels_are_the_fixed_tags() {
    assert_eq!(TargetRunState::Running.label(), "running");
    assert_eq!(TargetRunState::Stopped.label(), "stopped");
    assert_eq!(TargetRunState::Reboot.label(), "reboot");
    assert_eq!(TargetRunState::Destroyed.label(), "destroyed");
}

#[test]
fn invalid_transition_message_names_both_states() {
    let mut s = record(RunState::Failed);
    let e = s
        .request_transition(&target(TargetRunState::Running), 10)
        .unwrap_err();
    assert_eq!(
        e.message(),
        "cannot move instance to \"running\" in state \"failed\""
    );
}

#[test]
fn generation_still_steps_just_below_its_limit() {
    let mut s = InstanceState::new(InstanceRuntimeState {
        run_state: RunState::Creating,
        sled_uuid: 0x11,
        gen: Generation { value: u64::MAX - 1 },
        time_updated: 0,
    });
    let r = s.request_transition(&target(TargetRunState::Running), 10);
    assert_eq!(r, Ok(Some(Action::Run)));
    assert_eq!(s.current.gen.value, u64::MAX);
}
