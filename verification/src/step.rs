//! The durable step state machine.
//!
//! A replacement-step record is a write-once-per-stage durable checkpoint in
//! a multi-stage workflow that must survive process restarts. Each record
//! advances through a fixed forward ordering of states, is exclusively
//! claimed by one workflow executor at a time via an explicit ownership
//! token, and is released only in a terminal-for-now state.

use crate::text::str_eq;
use vstd::prelude::*;

verus! {

/// Ordered states of a replacement step record. The forward ordering is
/// Requested, then Running, then Complete, then VolumeDeleted; each edge is
/// one-directional and no state may be skipped.
#[derive(Clone, Copy, Debug, PartialEq, Eq, Structural)]
pub enum RegionSnapshotReplacementStepState {
    Requested,
    Running,
    Complete,
    VolumeDeleted,
}

/// A claim attempt was rejected.
#[derive(Clone, Copy, Debug, PartialEq, Eq, Structural)]
pub enum ClaimError {
    /// Another executor currently holds the claim on this record.
    AlreadyClaimed,
    /// The record is in its final state and can no longer be worked on.
    AlreadyTerminal,
}

/// An advance attempt was rejected.
#[derive(Clone, Copy, Debug, PartialEq, Eq, Structural)]
pub enum StateError {
    /// The requested state is not the immediate successor of the current
    /// state in the fixed forward ordering.
    IllegalStateEdge,
}

impl RegionSnapshotReplacementStepState {
    /// Position in the fixed forward ordering.
    pub open spec fn spec_index(self) -> int {
        match self {
            RegionSnapshotReplacementStepState::Requested => 0,
            RegionSnapshotReplacementStepState::Running => 1,
            RegionSnapshotReplacementStepState::Complete => 2,
            RegionSnapshotReplacementStepState::VolumeDeleted => 3,
        }
    }

    /// The immediate successor in the fixed forward ordering, if any.
    pub open spec fn spec_successor(self) -> Option<RegionSnapshotReplacementStepState> {
        match self {
            RegionSnapshotReplacementStepState::Requested => Some(
                RegionSnapshotReplacementStepState::Running,
            ),
            RegionSnapshotReplacementStepState::Running => Some(
                RegionSnapshotReplacementStepState::Complete,
            ),
            RegionSnapshotReplacementStepState::Complete => Some(
                RegionSnapshotReplacementStepState::VolumeDeleted,
            ),
            RegionSnapshotReplacementStepState::VolumeDeleted => None,
        }
    }

    /// The short fixed string tag under which this state is persisted.
    pub open spec fn spec_label(self) -> Seq<char> {
        match self {
            RegionSnapshotReplacementStepState::Requested => "requested"@,
            RegionSnapshotReplacementStepState::Running => "running"@,
            RegionSnapshotReplacementStepState::Complete => "complete"@,
            RegionSnapshotReplacementStepState::VolumeDeleted => "volume_deleted"@,
        }
    }

    /// The state whose persisted tag is `s`, if any.
    pub open spec fn spec_parse_label(s: Seq<char>) -> Option<
        RegionSnapshotReplacementStepState,
    > {
        if s == "requested"@ {
            Some(RegionSnapshotReplacementStepState::Requested)
        } else if s == "running"@ {
            Some(RegionSnapshotReplacementStepState::Running)
        } else if s == "complete"@ {
            Some(RegionSnapshotReplacementStepState::Complete)
        } else if s == "volume_deleted"@ {
            Some(RegionSnapshotReplacementStepState::VolumeDeleted)
        } else {
            None
        }
    }

    /// The stable string tag under which this state is persisted.
    pub fn label(&self) -> (r: String)
        ensures
            r@ == self.spec_label(),
    {
        match self {
            RegionSnapshotReplacementStepState::Requested => "requested".to_owned(),
            RegionSnapshotReplacementStepState::Running => "running".to_owned(),
            RegionSnapshotReplacementStepState::Complete => "complete".to_owned(),
            RegionSnapshotReplacementStepState::VolumeDeleted => "volume_deleted".to_owned(),
        }
    }

    /// Parses a persisted state tag; an unrecognized tag is handed back to
    /// the caller as the error.
    pub fn from_str(s: &str) -> (r: Result<RegionSnapshotReplacementStepState, String>)
        ensures
            r matches Ok(v) ==> RegionSnapshotReplacementStepState::spec_parse_label(s@) == Some(
                v,
            ),
            r matches Err(e) ==> RegionSnapshotReplacementStepState::spec_parse_label(s@) is None
                && e@ == s@,
    {
        if str_eq(s, "requested") {
            Ok(RegionSnapshotReplacementStepState::Requested)
        } else if str_eq(s, "running") {
            Ok(RegionSnapshotReplacementStepState::Running)
        } else if str_eq(s, "complete") {
            Ok(RegionSnapshotReplacementStepState::Complete)
        } else if str_eq(s, "volume_deleted") {
            Ok(RegionSnapshotReplacementStepState::VolumeDeleted)
        } else {
            Err(s.to_owned())
        }
    }
}

/// Each state's persisted tag parses back to exactly that state: the tag set
/// is mapped one-to-one onto the variants.
pub proof fn lemma_label_round_trip(v: RegionSnapshotReplacementStepState)
    ensures
        RegionSnapshotReplacementStepState::spec_parse_label(v.spec_label()) == Some(v),
{
    reveal_strlit("requested");
    reveal_strlit("running");
    reveal_strlit("complete");
    reveal_strlit("volume_deleted");
    assert("requested"@.len() == 9);
    assert("running"@.len() == 7);
    assert("complete"@.len() == 8);
    assert("volume_deleted"@.len() == 14);
}

/// A typed identifier for a volume record.
#[derive(Clone, Copy, Debug, PartialEq, Eq, Structural)]
pub struct VolumeUuid {
    pub id: u128,
}

/// Relies on uuid::Uuid::new_v4 (read out with Uuid::as_u128): a freshly
/// generated random version-4 identifier, drawn from the operating system's
/// random source. Nothing is promised of the value.
#[verifier::external_body]
fn fresh_uuid() -> u128 {
    uuid::Uuid::new_v4().as_u128()
}

/// Relies on chrono::Utc::now (read out with DateTime::timestamp_millis):
/// the current wall-clock time in milliseconds since the epoch. Nothing is
/// promised of the value.
#[verifier::external_body]
fn now_millis() -> i64 {
    chrono::Utc::now().timestamp_millis()
}

/// A durable record of one replacement update step.
///
/// After a read-only target has been replaced in a snapshot volume's
/// construction request, each running volume that still references the old
/// target must be updated; each such volume is recorded as one step record.
/// An upstream detection pass creates the record in the Requested state; one
/// executor at a time advances it through Running to Complete, and a
/// separate, later pass garbage-collects it to VolumeDeleted.
#[derive(Clone, Copy, Debug, PartialEq, Eq)]
pub struct RegionSnapshotReplacementStep {
    pub id: u128,

    /// The owning workflow instance.
    pub request_id: u128,
    pub request_time: i64,

    /// A volume that references the snapshot.
    pub volume_id: VolumeUuid,

    /// A synthetic volume that only is used to later delete the old snapshot.
    pub old_snapshot_volume_id: Option<VolumeUuid>,

    pub replacement_state: RegionSnapshotReplacementStepState,

    /// The executor instance currently holding the exclusive claim on this
    /// record; None means unclaimed and eligible for pickup.
    pub operating_saga_id: Option<u128>,
}

impl RegionSnapshotReplacementStep {
    /// A record actively being worked on is always owned: whenever the state
    /// is Running, the ownership token is held.
    pub open spec fn wf(self) -> bool {
        self.replacement_state is Running ==> self.operating_saga_id is Some
    }

    /// What a claim attempt decides, as a pure function of the record and
    /// the claiming executor's identity.
    pub open spec fn spec_claim(self, executor_id: u128) -> Result<
        RegionSnapshotReplacementStep,
        ClaimError,
    > {
        if self.replacement_state is VolumeDeleted {
            Err(ClaimError::AlreadyTerminal)
        } else if self.operating_saga_id matches Some(o) && o != executor_id {
            Err(ClaimError::AlreadyClaimed)
        } else {
            Ok(RegionSnapshotReplacementStep { operating_saga_id: Some(executor_id), ..self })
        }
    }

    /// What an advance attempt decides, as a pure function of the record and
    /// the requested next state.
    pub open spec fn spec_advance(self, next_state: RegionSnapshotReplacementStepState) -> Result<
        RegionSnapshotReplacementStep,
        StateError,
    > {
        if self.replacement_state.spec_successor() == Some(next_state) {
            Ok(RegionSnapshotReplacementStep { replacement_state: next_state, ..self })
        } else {
            Err(StateError::IllegalStateEdge)
        }
    }

    /// A fresh step record for the given workflow and volume, in the
    /// Requested state, unclaimed, with a newly generated id and the current
    /// time as its request time.
    pub fn new(request_id: u128, volume_id: VolumeUuid) -> (r: RegionSnapshotReplacementStep)
        ensures
            r.request_id == request_id,
            r.volume_id == volume_id,
            r.old_snapshot_volume_id is None,
            r.replacement_state is Requested,
            r.operating_saga_id is None,
            r.wf(),
    {
        RegionSnapshotReplacementStep {
            id: fresh_uuid(),
            request_id,
            request_time: now_millis(),
            volume_id,
            old_snapshot_volume_id: None,
            replacement_state: RegionSnapshotReplacementStepState::Requested,
            operating_saga_id: None,
        }
    }

    pub fn volume_id(&self) -> (r: VolumeUuid)
        ensures
            r == self.volume_id,
    {
        self.volume_id
    }

    pub fn old_snapshot_volume_id(&self) -> (r: Option<VolumeUuid>)
        ensures
            r == self.old_snapshot_volume_id,
    {
        self.old_snapshot_volume_id
    }

    /// Attempts to take the exclusive claim on this record for the given
    /// executor identity.
    ///
    /// Fails with AlreadyTerminal on a record in its final state, and with
    /// AlreadyClaimed when a different executor holds the claim. Claiming a
    /// record already claimed by the same identity succeeds again, so that
    /// the same logical executor can resume after a crash.
    pub fn claim(self, executor_id: u128) -> (r: Result<
        RegionSnapshotReplacementStep,
        ClaimError,
    >)
        ensures
            r == self.spec_claim(executor_id),
            r matches Ok(c) ==> c == (RegionSnapshotReplacementStep {
                operating_saga_id: Some(executor_id),
                ..self
            }),
            r is Ok <==> !(self.replacement_state is VolumeDeleted) && (self.operating_saga_id
                is None || self.operating_saga_id == Some(executor_id)),
            r matches Ok(c) ==> c.wf(),
    {
        if matches!(self.replacement_state, RegionSnapshotReplacementStepState::VolumeDeleted) {
            Err(ClaimError::AlreadyTerminal)
        } else {
            match self.operating_saga_id {
                Some(o) if o != executor_id => Err(ClaimError::AlreadyClaimed),
                _ => Ok(
                    RegionSnapshotReplacementStep {
                        operating_saga_id: Some(executor_id),
                        ..self
                    },
                ),
            }
        }
    }

    /// Advances a claimed record to the next state.
    ///
    /// Fails with IllegalStateEdge unless the requested state is the
    /// immediate successor of the current state in the fixed forward
    /// ordering; the claim is kept either way.
    pub fn advance(self, next_state: RegionSnapshotReplacementStepState) -> (r: Result<
        RegionSnapshotReplacementStep,
        StateError,
    >)
        requires
            self.operating_saga_id is Some,
        ensures
            r == self.spec_advance(next_state),
            r is Ok <==> self.replacement_state.spec_successor() == Some(next_state),
            r matches Ok(a) ==> a == (RegionSnapshotReplacementStep {
                replacement_state: next_state,
                ..self
            }),
            r matches Ok(a) ==> a.wf(),
    {
        let successor_matches = match (self.replacement_state, next_state) {
            (
                RegionSnapshotReplacementStepState::Requested,
                RegionSnapshotReplacementStepState::Running,
            ) => true,
            (
                RegionSnapshotReplacementStepState::Running,
                RegionSnapshotReplacementStepState::Complete,
            ) => true,
            (
                RegionSnapshotReplacementStepState::Complete,
                RegionSnapshotReplacementStepState::VolumeDeleted,
            ) => true,
            _ => false,
        };
        if successor_matches {
            Ok(RegionSnapshotReplacementStep { replacement_state: next_state, ..self })
        } else {
            Err(StateError::IllegalStateEdge)
        }
    }

    /// Releases the exclusive claim.
    ///
    /// Permitted only in the terminal-for-now states: a Running step must
    /// either advance or be force-reclaimed by crash recovery, never be
    /// silently released mid-flight.
    pub fn release(self) -> (r: RegionSnapshotReplacementStep)
        requires
            !(self.replacement_state is Running),
        ensures
            r == (RegionSnapshotReplacementStep { operating_saga_id: None, ..self }),
            r.wf(),
    {
        RegionSnapshotReplacementStep { operating_saga_id: None, ..self }
    }
}

/// Applies a sequence of advance attempts in order, carrying the record
/// through every outcome (a rejected edge leaves it unchanged).
pub open spec fn spec_apply_advances(
    r: RegionSnapshotReplacementStep,
    states: Seq<RegionSnapshotReplacementStepState>,
) -> RegionSnapshotReplacementStep
    decreases states.len(),
{
    if states.len() == 0 {
        r
    } else {
        let r2 = match r.spec_advance(states[0]) {
            Ok(a) => a,
            Err(_) => r,
        };
        spec_apply_advances(r2, states.drop_first())
    }
}

/// Step ordering: a successful advance moves the state forward by exactly
/// one position, so the states a record passes through over time are
/// non-decreasing in the fixed order; advance never produces a state earlier
/// than the current one.
pub proof fn lemma_advance_forward(
    r: RegionSnapshotReplacementStep,
    next_state: RegionSnapshotReplacementStepState,
)
    ensures
        r.spec_advance(next_state) matches Ok(a) ==> a.replacement_state.spec_index()
            == r.replacement_state.spec_index() + 1,
{
}

/// Step ordering over a whole history: however many advance attempts are
/// made, and whichever of them are rejected, the record's state never moves
/// backward.
pub proof fn lemma_step_order_monotonic(
    r: RegionSnapshotReplacementStep,
    states: Seq<RegionSnapshotReplacementStepState>,
)
    ensures
        spec_apply_advances(r, states).replacement_state.spec_index()
            >= r.replacement_state.spec_index(),
    decreases states.len(),
{
    if states.len() > 0 {
        let r2 = match r.spec_advance(states[0]) {
            Ok(a) => a,
            Err(_) => r,
        };
        lemma_advance_forward(r, states[0]);
        lemma_step_order_monotonic(r2, states.drop_first());
    }
}

/// Ownership exclusivity: once one executor holds a successful claim on a
/// record, a claim attempt by any distinct executor identity on that record
/// fails, so at no point do two identities hold the claim simultaneously.
pub proof fn lemma_claim_exclusive(r: RegionSnapshotReplacementStep, a: u128, b: u128)
    requires
        a != b,
        r.spec_claim(a) is Ok,
    ensures
        r.spec_claim(a)->Ok_0.spec_claim(b) == Err::<RegionSnapshotReplacementStep, ClaimError>(
            ClaimError::AlreadyClaimed,
        ),
{
}

/// The records eligible for executor pickup: those in the Requested state
/// with no owner, in their original order.
#[verifier::loop_isolation(false)]
pub fn unclaimed_requested(records: &Vec<RegionSnapshotReplacementStep>) -> (r: Vec<
    RegionSnapshotReplacementStep,
>)
    ensures
        r@ == records@.filter(
            |s: RegionSnapshotReplacementStep|
                s.replacement_state is Requested && s.operating_saga_id is None,
        ),
{
    let ghost pred = |s: RegionSnapshotReplacementStep|
        s.replacement_state is Requested && s.operating_saga_id is None;
    let mut out: Vec<RegionSnapshotReplacementStep> = Vec::new();
    let mut i: usize = 0;
    proof {
        assert(records@.take(0int).filter(pred) =~= Seq::<
            RegionSnapshotReplacementStep,
        >::empty());
    }
    while i < records.len()
        invariant
            i <= records.len(),
            out@ == records@.take(i as int).filter(pred),
        decreases records.len() - i,
    {
        let rec = records[i];
        if matches!(rec.replacement_state, RegionSnapshotReplacementStepState::Requested)
            && rec.operating_saga_id.is_none() {
            out.push(rec);
        }
        proof {
            assert(records@.take(i + 1int) =~= records@.take(i as int).push(
                records@[i as int],
            ));
            records@.take(i as int).lemma_filter_push(records@[i as int], pred);
        }
        i = i + 1;
    }
    proof {
        assert(records@.take(records@.len() as int) =~= records@);
    }
    out
}

} // verus!
