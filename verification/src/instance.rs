//! The reconciliation state machine.
//!
//! Given a resource's current runtime state and a newly requested target
//! state, [`InstanceState::request_transition`] computes the next state and
//! the side-effecting action (if any) required to make progress. Multi-step
//! transitions (a reboot is a stop followed by a deferred start) leave a
//! pending target in the record; [`InstanceState::observe_transition`]
//! resolves pending targets when the external authority reports the actual
//! state of the resource.
//!
//! The machine is a pure function over the record and its inputs: it performs
//! no I/O, and the caller passes the timestamp for the mutation explicitly.

use crate::generation::Generation;
use vstd::prelude::*;

verus! {

/// Action to be taken on behalf of a state transition, dispatched by the
/// caller to the execution collaborator only after the record is persisted.
#[derive(Clone, Copy, Debug, PartialEq, Eq, Structural)]
pub enum Action {
    Run,
    Stop,
    Reboot,
    Destroy,
}

/// Observable run states of a resource. The reboot bookkeeping is folded
/// into distinct `ForReboot` variants so that an illegal combination of a
/// run state and a reboot flag is unrepresentable.
#[derive(Clone, Copy, Debug, PartialEq, Eq, Structural)]
pub enum RunState {
    Creating,
    Starting,
    Running,
    StoppingPlain,
    StoppingForReboot,
    StoppedPlain,
    StoppedForReboot,
    Repairing,
    Failed,
    Destroyed,
}

/// Requestable target run states.
#[derive(Clone, Copy, Debug, PartialEq, Eq, Structural)]
pub enum TargetRunState {
    Running,
    Stopped,
    Reboot,
    Destroyed,
}

/// States the external authority (for example a hypervisor control channel)
/// can report. The authority knows nothing of this machine's reboot
/// bookkeeping, so it reports plain stopping and stopped states.
#[derive(Clone, Copy, Debug, PartialEq, Eq, Structural)]
pub enum ObservedState {
    Starting,
    Running,
    Stopping,
    Stopped,
    Repairing,
    Failed,
    Destroyed,
}

/// The persisted runtime state of one resource.
#[derive(Clone, Copy, Debug, PartialEq, Eq, Structural)]
pub struct InstanceRuntimeState {
    pub run_state: RunState,
    pub sled_uuid: u128,
    pub gen: Generation,
    pub time_updated: i64,
}

/// A requested runtime state, tracked as the pending target while a
/// multi-step transition is in flight.
#[derive(Clone, Copy, Debug, PartialEq, Eq, Structural)]
pub struct InstanceRuntimeStateRequested {
    pub run_state: TargetRunState,
}

/// The lifecycle record of one resource: the last-known runtime state
/// together with the pending target the machine is working towards.
#[derive(Clone, Copy, Debug, PartialEq, Eq)]
pub struct InstanceState {
    pub current: InstanceRuntimeState,
    pub pending: Option<InstanceRuntimeStateRequested>,
}

/// The requested target is unreachable from the current state. Reported to
/// the caller as a typed value, never retried by the core: the machine is
/// deterministic on the current state, so a retry could not change the
/// outcome.
#[derive(Clone, Copy, Debug, PartialEq, Eq, Structural)]
pub enum LifecycleError {
    InvalidTransition { current: RunState, requested: TargetRunState },
}

impl RunState {
    /// The short fixed string tag under which the state is persisted and
    /// reported.
    pub open spec fn spec_label(self) -> Seq<char> {
        match self {
            RunState::Creating => "creating"@,
            RunState::Starting => "starting"@,
            RunState::Running => "running"@,
            RunState::StoppingPlain => "stopping"@,
            RunState::StoppingForReboot => "stopping_rebooting"@,
            RunState::StoppedPlain => "stopped"@,
            RunState::StoppedForReboot => "stopped_rebooting"@,
            RunState::Repairing => "repairing"@,
            RunState::Failed => "failed"@,
            RunState::Destroyed => "destroyed"@,
        }
    }

    /// The stable string tag under which the state is persisted and
    /// reported.
    pub fn label(&self) -> (r: String)
        ensures
            r@ == self.spec_label(),
    {
        match *self {
            RunState::Creating => "creating".to_owned(),
            RunState::Starting => "starting".to_owned(),
            RunState::Running => "running".to_owned(),
            RunState::StoppingPlain => "stopping".to_owned(),
            RunState::StoppingForReboot => "stopping_rebooting".to_owned(),
            RunState::StoppedPlain => "stopped".to_owned(),
            RunState::StoppedForReboot => "stopped_rebooting".to_owned(),
            RunState::Repairing => "repairing".to_owned(),
            RunState::Failed => "failed".to_owned(),
            RunState::Destroyed => "destroyed".to_owned(),
        }
    }

    /// True in every state where the resource is not actively running, so
    /// that destruction may proceed without first quiescing it.
    pub open spec fn spec_is_stopped(&self) -> bool {
        match *self {
            RunState::Creating => true,
            RunState::Starting => false,
            RunState::Running => false,
            RunState::StoppingPlain => false,
            RunState::StoppingForReboot => false,
            RunState::StoppedPlain => true,
            RunState::StoppedForReboot => true,
            RunState::Repairing => true,
            RunState::Failed => true,
            RunState::Destroyed => true,
        }
    }

    /// Returns true if the state represents a resource that is not actively
    /// running.
    #[verifier::when_used_as_spec(spec_is_stopped)]
    pub fn is_stopped(&self) -> (r: bool)
        ensures
            r == self.spec_is_stopped(),
    {
        match *self {
            RunState::Creating => true,
            RunState::Starting => false,
            RunState::Running => false,
            RunState::StoppingPlain => false,
            RunState::StoppingForReboot => false,
            RunState::StoppedPlain => true,
            RunState::StoppedForReboot => true,
            RunState::Repairing => true,
            RunState::Failed => true,
            RunState::Destroyed => true,
        }
    }
}

impl TargetRunState {
    /// The short fixed string tag under which the target is reported.
    pub open spec fn spec_label(self) -> Seq<char> {
        match self {
            TargetRunState::Running => "running"@,
            TargetRunState::Stopped => "stopped"@,
            TargetRunState::Reboot => "reboot"@,
            TargetRunState::Destroyed => "destroyed"@,
        }
    }

    /// The stable string tag under which the target is reported.
    pub fn label(&self) -> (r: String)
        ensures
            r@ == self.spec_label(),
    {
        match *self {
            TargetRunState::Running => "running".to_owned(),
            TargetRunState::Stopped => "stopped".to_owned(),
            TargetRunState::Reboot => "reboot".to_owned(),
            TargetRunState::Destroyed => "destroyed".to_owned(),
        }
    }
}

/// The run-state tags map one-to-one onto the variants: distinct states
/// never share a tag, so a persisted tag identifies its state.
pub proof fn lemma_run_state_label_injective(a: RunState, b: RunState)
    requires
        a.spec_label() == b.spec_label(),
    ensures
        a == b,
{
    reveal_strlit("creating");
    reveal_strlit("starting");
    reveal_strlit("running");
    reveal_strlit("stopping");
    reveal_strlit("stopping_rebooting");
    reveal_strlit("stopped");
    reveal_strlit("stopped_rebooting");
    reveal_strlit("repairing");
    reveal_strlit("failed");
    reveal_strlit("destroyed");
    // The lengths separate most tags; a first differing character separates
    // the tags of equal length.
    assert("creating"@.len() == 8 && "starting"@.len() == 8 && "stopping"@.len() == 8);
    assert("running"@.len() == 7 && "stopped"@.len() == 7);
    assert("repairing"@.len() == 9 && "destroyed"@.len() == 9);
    assert("stopping_rebooting"@.len() == 18 && "stopped_rebooting"@.len() == 17);
    assert("failed"@.len() == 6);
    assert("creating"@[0] == 'c' && "starting"@[0] == 's' && "stopping"@[0] == 's');
    assert("starting"@[2] == 'a' && "stopping"@[2] == 'o');
    assert("running"@[0] == 'r' && "stopped"@[0] == 's');
    assert("repairing"@[0] == 'r' && "destroyed"@[0] == 'd');
}

/// The target tags map one-to-one onto the variants.
pub proof fn lemma_target_label_injective(a: TargetRunState, b: TargetRunState)
    requires
        a.spec_label() == b.spec_label(),
    ensures
        a == b,
{
    reveal_strlit("running");
    reveal_strlit("stopped");
    reveal_strlit("reboot");
    reveal_strlit("destroyed");
    assert("running"@.len() == 7 && "stopped"@.len() == 7);
    assert("reboot"@.len() == 6 && "destroyed"@.len() == 9);
    assert("running"@[0] == 'r' && "stopped"@[0] == 's');
}

impl LifecycleError {
    /// The operator-facing description of the error.
    pub fn message(&self) -> (r: String)
        ensures
            ({
                match *self {
                    LifecycleError::InvalidTransition { current, requested } => r@
                        == "cannot move instance to \""@ + requested.spec_label()
                        + "\" in state \""@ + current.spec_label() + "\""@,
                }
            }),
    {
        match self {
            LifecycleError::InvalidTransition { current, requested } => {
                let mut m = "cannot move instance to \"".to_owned();
                m.append(requested.label().as_str());
                m.append("\" in state \"");
                m.append(current.label().as_str());
                m.append("\"");
                m
            },
        }
    }
}

/// A Run request is a no-op here: the resource is already running or already
/// scheduled to come back up.
pub open spec fn run_request_is_noop(c: RunState) -> bool {
    ||| c == RunState::Running
    ||| c == RunState::Starting
    ||| c == RunState::StoppingForReboot
    ||| c == RunState::StoppedForReboot
}

/// A Run request may validly start the resource from here.
pub open spec fn run_request_is_valid(c: RunState) -> bool {
    ||| c == RunState::Creating
    ||| c == RunState::StoppingPlain
    ||| c == RunState::StoppedPlain
}

/// A Stop request is a no-op here: the resource is already stopped or
/// already stopping with no reboot scheduled.
pub open spec fn stop_request_is_noop(c: RunState) -> bool {
    ||| c == RunState::StoppedPlain
    ||| c == RunState::StoppingPlain
}

/// No transition may start from these states except destruction.
pub open spec fn state_is_unrecoverable(c: RunState) -> bool {
    ||| c == RunState::Repairing
    ||| c == RunState::Failed
    ||| c == RunState::Destroyed
}

impl InstanceState {
    /// The pending target is only ever one of Running, Stopped or Destroyed:
    /// a requested reboot decomposes into a stop and a deferred start, so it
    /// is never recorded as a pending target itself.
    pub open spec fn wf(self) -> bool {
        self.pending matches Some(p) ==> p.run_state != TargetRunState::Reboot
    }

    pub fn new(current: InstanceRuntimeState) -> (r: InstanceState)
        ensures
            r.current == current,
            r.pending is None,
            r.wf(),
    {
        InstanceState { current, pending: None }
    }

    /// Transitions to a new state, updating the timestamp and incrementing
    /// the generation. This transition always succeeds.
    pub fn transition(
        &mut self,
        next: RunState,
        pending: Option<TargetRunState>,
        now: i64,
    )
        requires
            old(self).current.gen.value < u64::MAX,
        ensures
            *final(self) == spec_transition(*old(self), next, pending, now),
    {
        self.current = InstanceRuntimeState {
            run_state: next,
            sled_uuid: self.current.sled_uuid,
            gen: self.current.gen.next(),
            time_updated: now,
        };
        self.pending = match pending {
            None => None,
            Some(run_state) => Some(InstanceRuntimeStateRequested { run_state }),
        };
    }

    /// Attempts to move from the current state to the requested target
    /// state.
    ///
    /// On success, returns the action, if any, which is necessary to carry
    /// out this state transition; the caller persists the record (guarded by
    /// the generation) before dispatching the action. On failure the record
    /// is unchanged.
    pub fn request_transition(
        &mut self,
        target: &InstanceRuntimeStateRequested,
        now: i64,
    ) -> (r: Result<Option<Action>, LifecycleError>)
        requires
            old(self).current.gen.value < u64::MAX,
        ensures
            (*final(self), r) == spec_request_transition(*old(self), target.run_state, now),
            r is Err ==> *final(self) == *old(self),
            r is Err <==> request_is_invalid(old(self).current.run_state, target.run_state),
            *final(self) == *old(self) || final(self).current.gen.value == old(self).current.gen.value
                + 1,
            old(self).wf() ==> final(self).wf(),
    {
        match target.run_state {
            TargetRunState::Running => {
                match self.current.run_state {
                    // Already running or already scheduled to come back up.
                    RunState::Running
                    | RunState::Starting
                    | RunState::StoppingForReboot
                    | RunState::StoppedForReboot => Ok(None),
                    // Valid states to start from.
                    RunState::Creating | RunState::StoppingPlain | RunState::StoppedPlain => {
                        self.transition(
                            RunState::Starting,
                            Some(TargetRunState::Running),
                            now,
                        );
                        Ok(Some(Action::Run))
                    },
                    // Invalid states for a running request.
                    RunState::Repairing | RunState::Failed | RunState::Destroyed => {
                        Err(LifecycleError::InvalidTransition {
                            current: self.current.run_state,
                            requested: TargetRunState::Running,
                        })
                    },
                }
            },
            TargetRunState::Stopped => {
                match self.current.run_state {
                    // Already stopped or stopping with no reboot scheduled.
                    RunState::StoppedPlain | RunState::StoppingPlain => Ok(None),
                    // Nothing is externally running, so stop directly.
                    RunState::Creating | RunState::StoppedForReboot => {
                        self.transition(RunState::StoppedPlain, None, now);
                        Ok(None)
                    },
                    // The resource is stopping anyway; just drop the
                    // scheduled reboot, the in-flight stop will land in the
                    // plain stopped state.
                    RunState::StoppingForReboot => {
                        self.transition(
                            RunState::StoppingPlain,
                            Some(TargetRunState::Stopped),
                            now,
                        );
                        Ok(None)
                    },
                    // The resource is up; explicitly tell it to stop.
                    RunState::Starting | RunState::Running => {
                        self.transition(
                            RunState::StoppingPlain,
                            Some(TargetRunState::Stopped),
                            now,
                        );
                        Ok(Some(Action::Stop))
                    },
                    // Invalid states for a stop request.
                    RunState::Repairing | RunState::Failed | RunState::Destroyed => {
                        Err(LifecycleError::InvalidTransition {
                            current: self.current.run_state,
                            requested: TargetRunState::Stopped,
                        })
                    },
                }
            },
            TargetRunState::Reboot => {
                match self.current.run_state {
                    // A reboot is already under way.
                    RunState::StoppingForReboot | RunState::StoppedForReboot => Ok(None),
                    // The resource is up: stop it first, the deferred start
                    // is re-issued once the stop is observed.
                    RunState::Starting | RunState::Running => {
                        self.transition(
                            RunState::StoppingForReboot,
                            Some(TargetRunState::Stopped),
                            now,
                        );
                        Ok(Some(Action::Reboot))
                    },
                    // Invalid states for a reboot request.
                    _ => {
                        Err(LifecycleError::InvalidTransition {
                            current: self.current.run_state,
                            requested: TargetRunState::Reboot,
                        })
                    },
                }
            },
            // All states may be destroyed.
            TargetRunState::Destroyed => {
                if self.current.run_state.is_stopped() {
                    self.transition(RunState::Destroyed, None, now);
                    Ok(Some(Action::Destroy))
                } else {
                    // Quiesce first; destruction completes on a later
                    // observed stop.
                    self.transition(
                        RunState::StoppingPlain,
                        Some(TargetRunState::Destroyed),
                        now,
                    );
                    Ok(Some(Action::Stop))
                }
            },
        }
    }

    /// Updates the known state from a report of the external authority.
    ///
    /// If a pending target exists and the observed state satisfies it, the
    /// pending target is cleared; completing a deferred reboot re-issues a
    /// Run action once the stop is observed, and a pending destruction
    /// emits the Destroy action once the resource is observed stopped.
    /// Otherwise the observation is recorded and the pending target is kept.
    pub fn observe_transition(&mut self, observed: ObservedState, now: i64) -> (r: Option<
        Action,
    >)
        requires
            old(self).current.gen.value < u64::MAX,
        ensures
            (*final(self), r) == spec_observe_transition(*old(self), observed, now),
            *final(self) == *old(self) || final(self).current.gen.value == old(self).current.gen.value
                + 1,
            old(self).wf() ==> final(self).wf(),
    {
        let pending_target = match &self.pending {
            None => None,
            Some(p) => Some(p.run_state),
        };
        match pending_target {
            Some(TargetRunState::Running) if observed == ObservedState::Running => {
                self.transition(RunState::Running, None, now);
                None
            },
            Some(TargetRunState::Stopped) if observed == ObservedState::Stopped => {
                if self.current.run_state == RunState::StoppingForReboot {
                    // The stop half of a reboot has landed: re-issue the
                    // deferred start.
                    self.transition(RunState::Starting, Some(TargetRunState::Running), now);
                    Some(Action::Run)
                } else {
                    self.transition(RunState::StoppedPlain, None, now);
                    None
                }
            },
            Some(TargetRunState::Destroyed) if observed == ObservedState::Stopped || observed
                == ObservedState::Destroyed => {
                self.transition(RunState::Destroyed, None, now);
                if observed == ObservedState::Stopped {
                    // The resource has quiesced: destruction may proceed.
                    Some(Action::Destroy)
                } else {
                    None
                }
            },
            _ => {
                // The observation does not satisfy the pending target (or
                // there is none): record it and keep any outstanding work.
                let folded = self.fold_observed(observed);
                if folded == self.current.run_state {
                    None
                } else {
                    self.transition(folded, pending_target, now);
                    None
                }
            },
        }
    }

    /// Maps a reported state onto this machine's run states, preserving the
    /// reboot bookkeeping while the stop half of a reboot is in flight.
    fn fold_observed(&self, observed: ObservedState) -> (r: RunState)
        ensures
            r == spec_fold_observed(*self, observed),
    {
        match observed {
            ObservedState::Starting => RunState::Starting,
            ObservedState::Running => RunState::Running,
            ObservedState::Stopping => {
                if self.current.run_state == RunState::StoppingForReboot {
                    RunState::StoppingForReboot
                } else {
                    RunState::StoppingPlain
                }
            },
            ObservedState::Stopped => RunState::StoppedPlain,
            ObservedState::Repairing => RunState::Repairing,
            ObservedState::Failed => RunState::Failed,
            ObservedState::Destroyed => RunState::Destroyed,
        }
    }
}

/// The record after one always-successful transition: the new run state and
/// pending target are installed, the generation is incremented by exactly
/// one, and the timestamp is set; the placement is untouched.
pub open spec fn spec_transition(
    s: InstanceState,
    next: RunState,
    pending: Option<TargetRunState>,
    now: i64,
) -> InstanceState {
    InstanceState {
        current: InstanceRuntimeState {
            run_state: next,
            sled_uuid: s.current.sled_uuid,
            gen: Generation { value: (s.current.gen.value + 1) as u64 },
            time_updated: now,
        },
        pending: match pending {
            None => None,
            Some(t) => Some(InstanceRuntimeStateRequested { run_state: t }),
        },
    }
}

/// The requested target is unreachable from the current state.
pub open spec fn request_is_invalid(c: RunState, t: TargetRunState) -> bool {
    match t {
        TargetRunState::Running => state_is_unrecoverable(c),
        TargetRunState::Stopped => state_is_unrecoverable(c),
        TargetRunState::Reboot => !(c == RunState::StoppingForReboot || c
            == RunState::StoppedForReboot || c == RunState::Starting || c == RunState::Running),
        TargetRunState::Destroyed => false,
    }
}

/// What one reconciliation request does: the record after the call and the
/// outcome, as a pure function of the record, the target and the timestamp.
pub open spec fn spec_request_transition(
    s: InstanceState,
    t: TargetRunState,
    now: i64,
) -> (InstanceState, Result<Option<Action>, LifecycleError>) {
    let c = s.current.run_state;
    match t {
        TargetRunState::Running => {
            if run_request_is_noop(c) {
                (s, Ok(None))
            } else if run_request_is_valid(c) {
                (
                    spec_transition(s, RunState::Starting, Some(TargetRunState::Running), now),
                    Ok(Some(Action::Run)),
                )
            } else {
                (s, Err(LifecycleError::InvalidTransition { current: c, requested: t }))
            }
        },
        TargetRunState::Stopped => {
            if stop_request_is_noop(c) {
                (s, Ok(None))
            } else if c == RunState::Creating || c == RunState::StoppedForReboot {
                (spec_transition(s, RunState::StoppedPlain, None, now), Ok(None))
            } else if c == RunState::StoppingForReboot {
                (
                    spec_transition(s, RunState::StoppingPlain, Some(TargetRunState::Stopped), now),
                    Ok(None),
                )
            } else if c == RunState::Starting || c == RunState::Running {
                (
                    spec_transition(s, RunState::StoppingPlain, Some(TargetRunState::Stopped), now),
                    Ok(Some(Action::Stop)),
                )
            } else {
                (s, Err(LifecycleError::InvalidTransition { current: c, requested: t }))
            }
        },
        TargetRunState::Reboot => {
            if c == RunState::StoppingForReboot || c == RunState::StoppedForReboot {
                (s, Ok(None))
            } else if c == RunState::Starting || c == RunState::Running {
                (
                    spec_transition(
                        s,
                        RunState::StoppingForReboot,
                        Some(TargetRunState::Stopped),
                        now,
                    ),
                    Ok(Some(Action::Reboot)),
                )
            } else {
                (s, Err(LifecycleError::InvalidTransition { current: c, requested: t }))
            }
        },
        TargetRunState::Destroyed => {
            if c.spec_is_stopped() {
                (spec_transition(s, RunState::Destroyed, None, now), Ok(Some(Action::Destroy)))
            } else {
                (
                    spec_transition(
                        s,
                        RunState::StoppingPlain,
                        Some(TargetRunState::Destroyed),
                        now,
                    ),
                    Ok(Some(Action::Stop)),
                )
            }
        },
    }
}

/// How a reported state folds onto the machine's run states.
pub open spec fn spec_fold_observed(s: InstanceState, observed: ObservedState) -> RunState {
    match observed {
        ObservedState::Starting => RunState::Starting,
        ObservedState::Running => RunState::Running,
        ObservedState::Stopping => {
            if s.current.run_state == RunState::StoppingForReboot {
                RunState::StoppingForReboot
            } else {
                RunState::StoppingPlain
            }
        },
        ObservedState::Stopped => RunState::StoppedPlain,
        ObservedState::Repairing => RunState::Repairing,
        ObservedState::Failed => RunState::Failed,
        ObservedState::Destroyed => RunState::Destroyed,
    }
}

/// What one observation does: the record after the call and the follow-up
/// action, as a pure function of the record, the observation and the
/// timestamp.
pub open spec fn spec_observe_transition(
    s: InstanceState,
    observed: ObservedState,
    now: i64,
) -> (InstanceState, Option<Action>) {
    let pending_target = match s.pending {
        None => None,
        Some(p) => Some(p.run_state),
    };
    if pending_target == Some(TargetRunState::Running) && observed == ObservedState::Running {
        (spec_transition(s, RunState::Running, None, now), None)
    } else if pending_target == Some(TargetRunState::Stopped) && observed
        == ObservedState::Stopped {
        if s.current.run_state == RunState::StoppingForReboot {
            (
                spec_transition(s, RunState::Starting, Some(TargetRunState::Running), now),
                Some(Action::Run),
            )
        } else {
            (spec_transition(s, RunState::StoppedPlain, None, now), None)
        }
    } else if pending_target == Some(TargetRunState::Destroyed) && (observed
        == ObservedState::Stopped || observed == ObservedState::Destroyed) {
        (
            spec_transition(s, RunState::Destroyed, None, now),
            if observed == ObservedState::Stopped {
                Some(Action::Destroy)
            } else {
                None
            },
        )
    } else {
        let folded = spec_fold_observed(s, observed);
        if folded == s.current.run_state {
            (s, None)
        } else {
            (spec_transition(s, folded, pending_target, now), None)
        }
    }
}

/// Applies a sequence of reconciliation requests, each with its timestamp,
/// carrying the record through every outcome (an error leaves it unchanged).
pub open spec fn spec_apply_requests(
    s: InstanceState,
    requests: Seq<(TargetRunState, i64)>,
) -> InstanceState
    decreases requests.len(),
{
    if requests.len() == 0 {
        s
    } else {
        spec_apply_requests(
            spec_request_transition(s, requests[0].0, requests[0].1).0,
            requests.drop_first(),
        )
    }
}

/// Every request terminates in one of exactly three ways: a no-op that
/// leaves the record untouched, a single forward transition that increments
/// the generation by one, or an invalid-transition error that leaves the
/// record untouched. The machine is total over the state and target product.
pub proof fn lemma_request_total(s: InstanceState, t: TargetRunState, now: i64)
    requires
        s.current.gen.value < u64::MAX,
    ensures
        ({
            let (s2, r) = spec_request_transition(s, t, now);
            &&& r is Err ==> s2 == s && r->Err_0 is InvalidTransition
            &&& r is Ok ==> s2 == s || s2.current.gen.value == s.current.gen.value + 1
            &&& r is Err <==> request_is_invalid(s.current.run_state, t)
        }),
{
}

/// The machine is a pure function: requests against identical records with
/// the identical target and timestamp yield identical outcomes, so replaying
/// a request against an unpersisted record is safe.
pub proof fn lemma_request_deterministic(
    s1: InstanceState,
    s2: InstanceState,
    t: TargetRunState,
    now: i64,
)
    requires
        s1 == s2,
    ensures
        spec_request_transition(s1, t, now) == spec_request_transition(s2, t, now),
{
}

/// Over any sequence of requests the generation never decreases, and it
/// grows by at most one per request: each state-changing transition
/// increments it by exactly one and each no-op or error leaves it unchanged.
pub proof fn lemma_generation_monotonic(s: InstanceState, requests: Seq<(TargetRunState, i64)>)
    requires
        s.current.gen.value + requests.len() <= u64::MAX,
    ensures
        spec_apply_requests(s, requests).current.gen.value >= s.current.gen.value,
        spec_apply_requests(s, requests).current.gen.value <= s.current.gen.value
            + requests.len(),
    decreases requests.len(),
{
    if requests.len() > 0 {
        let s2 = spec_request_transition(s, requests[0].0, requests[0].1).0;
        lemma_request_total(s, requests[0].0, requests[0].1);
        lemma_generation_monotonic(s2, requests.drop_first());
    }
}

} // verus!
