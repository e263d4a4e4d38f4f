use lifecycle_core::step::{
    unclaimed_requested, ClaimError, RegionSnapshotReplacementStep,
    RegionSnapshotReplacementStepState, StateError, VolumeUuid,
};

const EXECUTOR_A: u128 = 0xA;
const EXECUTOR_B: u128 = 0xB;

fn fresh_step() -> RegionSnapshotReplacementStep {
    RegionSnapshotReplacementStep::new(0x77, VolumeUuid { id: 0x1234 })
}

#[test]
fn new_step_starts_requested_and_unclaimed() {
    let step = fresh_step();
    assert_eq!(step.request_id, 0x77);
    assert_eq!(step.volume_id(), VolumeUuid { id: 0x1234 });
    assert_eq!(step.old_snapshot_volume_id(), None);
    assert_eq!(
        step.replacement_state,
        RegionSnapshotReplacementStepState::Requested
    );
    assert_eq!(step.operating_saga_id, None);
}

#[test]
fn fresh_ids_are_distinct() {
    // The id comes from the random identifier source, not from the inputs.
    let a = fresh_step();
    let b = fresh_step();
    assert_ne!(a.id, b.id);
}

#[test]
fn double_claim_is_rejected_and_independent_records_are_not() {
    // Executor A claims a requested step.
    let step = fresh_step();
    let claimed = step.claim(EXECUTOR_A).unwrap();
    assert_eq!(claimed.operating_saga_id, Some(EXECUTOR_A));

    // Executor B's claim attempt on the same record fails.
    assert_eq!(claimed.claim(EXECUTOR_B), Err(ClaimError::AlreadyClaimed));

    // A advances the record to Complete and releases it.
    let running = claimed
        .advance(RegionSnapshotReplacementStepState::Running)
        .unwrap();
    let complete = running
        .advance(RegionSnapshotReplacementStepState::Complete)
        .unwrap();
    let released = complete.release();
    assert_eq!(released.operating_saga_id, None);

    // B's claim on a new, unrelated record succeeds: ownership is
    // per-record, not per-subject.
    let other = fresh_step();
    let other_claimed = other.claim(EXECUTOR_B).unwrap();
    assert_eq!(other_claimed.operating_saga_id, Some(EXECUTOR_B));
}

#[test]
fn reclaim_by_same_executor_succeeds() {
    let step = fresh_step();
    let claimed = step.claim(EXECUTOR_A).unwrap();
    // Crash-and-resume by the same logical executor identity.
    let reclaimed = claimed.claim(EXECUTOR_A).unwrap();
    assert_eq!(reclaimed, claimed);
}

#[test]
fn claim_on_terminal_record_fails() {
    let mut step = fresh_step();
    step.replacement_state = RegionSnapshotReplacementStepState::VolumeDeleted;
    assert_eq!(step.claim(EXECUTOR_A), Err(ClaimError::AlreadyTerminal));
}

#[test]
fn released_claim_can_move_to_another_executor() {
    let step = fresh_step();
    let claimed = step.claim(EXECUTOR_A).unwrap();
    // A releases while still in Requested (gave the work back).
    let released = claimed.release();
    assert_eq!(released.operating_saga_id, None);
    let reclaimed = released.claim(EXECUTOR_B).unwrap();
    assert_eq!(reclaimed.operating_saga_id, Some(EXECUTOR_B));
}

#[test]
fn advance_walks_the_forward_ordering() {
    let claimed = fresh_step().claim(EXECUTOR_A).unwrap();
    let running = claimed
        .advance(RegionSnapshotReplacementStepState::Running)
        .unwrap();
    assert_eq!(
        running.replacement_state,
        RegionSnapshotReplacementStepState::Running
    );
    let complete = running
        .advance(RegionSnapshotReplacementStepState::Complete)
        .unwrap();
    assert_eq!(
        complete.replacement_state,
        RegionSnapshotReplacementStepState::Complete
    );
    let deleted = complete
        .advance(RegionSnapshotReplacementStepState::VolumeDeleted)
        .unwrap();
    assert_eq!(
        deleted.replacement_state,
        RegionSnapshotReplacementStepState::VolumeDeleted
    );
    // The claim rides along through every advance.
    assert_eq!(deleted.operating_saga_id, Some(EXECUTOR_A));
}

#[test]
fn advance_rejects_skips_standstill_and_backward_edges() {
    let claimed = fresh_step().claim(EXECUTOR_A).unwrap();
    // Skipping a state is rejected.
    assert_eq!(
        claimed.advance(RegionSnapshotReplacementStepState::Complete),
        Err(StateError::IllegalStateEdge)
    );
    // Standing still is rejected.
    assert_eq!(
        claimed.advance(RegionSnapshotReplacementStepState::Requested),
        Err(StateError::IllegalStateEdge)
    );
    // Moving backward is rejected.
    let running = claimed
        .advance(RegionSnapshotReplacementStepState::Running)
        .unwrap();
    assert_eq!(
        running.advance(RegionSnapshotReplacementStepState::Requested),
        Err(StateError::IllegalStateEdge)
    );
}

#[test]
fn state_labels_are_the_fixed_tags() {
    assert_eq!(
        RegionSnapshotReplacementStepState::Requested.label(),
        "requested"
    );
    assert_eq!(RegionSnapshotReplacementStepState::Running.label(), "running");
    assert_eq!(
        RegionSnapshotReplacementStepState::Complete.label(),
        "complete"
    );
    assert_eq!(
        RegionSnapshotReplacementStepState::VolumeDeleted.label(),
        "volume_deleted"
    );
}

#[test]
fn state_tags_parse_back() {
    let all = [
        RegionSnapshotReplacementStepState::Requested,
        RegionSnapshotReplacementStepState::Running,
        RegionSnapshotReplacementStepState::Complete,
        RegionSnapshotReplacementStepState::VolumeDeleted,
    ];
    for state in all {
        assert_eq!(
            RegionSnapshotReplacementStepState::from_str(&state.label()),
            Ok(state)
        );
    }
}

#[test]
fn unrecognized_tag_is_rejected() {
    let r = RegionSnapshotReplacementStepState::from_str("volume-deleted");
    assert_eq!(r, Err(String::from("volume-deleted")));
    let r2 = RegionSnapshotReplacementStepState::from_str("");
    assert_eq!(r2, Err(String::new()));
}

#[test]
fn pickup_query_returns_exactly_the_eligible_records() {
    let requested = fresh_step();
    let claimed = fresh_step().claim(EXECUTOR_A).unwrap();
    let running = claimed
        .advance(RegionSnapshotReplacementStepState::Running)
        .unwrap();
    let mut complete = fresh_step();
    complete.replacement_state = RegionSnapshotReplacementStepState::Complete;
    let also_requested = fresh_step();

    let records = vec![requested, running, complete, also_requested];
    let eligible = unclaimed_requested(&records);
    assert_eq!(eligible, vec![requested, also_requested]);

    let none: Vec<RegionSnapshotReplacementStep> = Vec::new();
    assert_eq!(unclaimed_requested(&none), Vec::new());
}
