//! Algorithm checkpoints and the deterministic recovery plan derived from
//! them.

use vstd::prelude::*;
use crate::algo_model::{
    spec_parent_terminal, spec_parent_validate, AlgoError, AlgoProgress, ParentOrder,
    ALGO_CHECKPOINT_SCHEMA_VERSION,
};

verus! {

broadcast use crate::algo_model::group_parent_order;

/// Recovery action recommended for an algorithm instance.
#[derive(Debug, Clone, Copy, PartialEq, Eq, Hash, Structural)]
#[non_exhaustive]
pub enum AlgoRecoveryAction {
    /// Resume planning after host reconciliation.
    Resume,
    /// Keep the parent paused until an operator or host policy resumes it.
    Pause,
    /// Mark parent complete because recovered progress reached target.
    CompleteParent,
    /// Escalate for risk/operator handling.
    EscalateRisk,
}

impl AlgoRecoveryAction {
    /// Wire code of the action (resume 1 through escalate 4).
    pub fn code(self) -> (r: u8)
        ensures
            r == (match self {
                AlgoRecoveryAction::Resume => 1u8,
                AlgoRecoveryAction::Pause => 2u8,
                AlgoRecoveryAction::CompleteParent => 3u8,
                AlgoRecoveryAction::EscalateRisk => 4u8,
            }),
    {
        match self {
            AlgoRecoveryAction::Resume => 1,
            AlgoRecoveryAction::Pause => 2,
            AlgoRecoveryAction::CompleteParent => 3,
            AlgoRecoveryAction::EscalateRisk => 4,
        }
    }
}

/// Deterministic checkpoint for one algorithm parent instance: only the
/// algorithm-owned state.
#[derive(Debug, Clone, Copy, PartialEq, Eq)]
pub struct AlgoCheckpoint {
    /// Checkpoint schema version.
    pub schema_version: u16,
    /// Checkpointed parent order.
    pub parent: ParentOrder,
    /// Checkpointed progress.
    pub progress: AlgoProgress,
    /// Next decision sequence to assign after recovery.
    pub next_decision_seq: u64,
    /// Last consumed input sequence.
    pub last_input_sequence: u64,
}

/// Progress that belongs to the parent and never exceeds its target, with
/// open quantity within the released quantity, and a non-zero next decision.
pub open spec fn spec_checkpoint_consistent(
    parent: ParentOrder,
    progress: AlgoProgress,
    next_decision_seq: u64,
) -> bool {
    &&& progress.parent_id@ == parent.spec_id()@
    &&& progress.target_qty == parent.spec_total_qty()
    &&& progress.released_qty.0 <= parent.spec_total_qty().0
    &&& progress.completed_qty.0 <= parent.spec_total_qty().0
    &&& progress.open_qty.0 <= progress.released_qty.0
    &&& next_decision_seq != 0
}

impl AlgoCheckpoint {
    /// Creates a checkpoint of the current schema; an invalid parent is its
    /// validation error, inconsistent progress or a zero next decision is
    /// `InvalidRecoveryState`.
    pub fn new(
        parent: ParentOrder,
        progress: AlgoProgress,
        next_decision_seq: u64,
        last_input_sequence: u64,
    ) -> (r: Result<Self, AlgoError>)
        ensures
            match spec_parent_validate(parent) {
                Err(e) => r == Err::<Self, AlgoError>(e),
                Ok(_) => if spec_checkpoint_consistent(parent, progress, next_decision_seq) {
                    r == Ok::<Self, AlgoError>(
                        AlgoCheckpoint {
                            schema_version: ALGO_CHECKPOINT_SCHEMA_VERSION,
                            parent,
                            progress,
                            next_decision_seq,
                            last_input_sequence,
                        },
                    )
                } else {
                    r == Err::<Self, AlgoError>(AlgoError::InvalidRecoveryState)
                },
            },
    {
        match parent.validate() {
            Err(e) => {
                return Err(e);
            },
            Ok(()) => {},
        }
        if !progress.parent_id.same_text(&parent.id()) || progress.target_qty.0
            != parent.total_qty().0 || progress.released_qty.0 > parent.total_qty().0
            || progress.completed_qty.0 > parent.total_qty().0 || progress.open_qty.0
            > progress.released_qty.0 || next_decision_seq == 0 {
            return Err(AlgoError::InvalidRecoveryState);
        }
        Ok(
            Self {
                schema_version: ALGO_CHECKPOINT_SCHEMA_VERSION,
                parent,
                progress,
                next_decision_seq,
                last_input_sequence,
            },
        )
    }

    /// Returns checkpoint schema version.
    pub fn schema_version(&self) -> (r: u16)
        ensures
            r == self.schema_version,
    {
        self.schema_version
    }

    /// Returns checkpointed parent order.
    pub fn parent(&self) -> (r: ParentOrder)
        ensures
            r == self.parent,
    {
        self.parent
    }

    /// Returns checkpointed progress.
    pub fn progress(&self) -> (r: AlgoProgress)
        ensures
            r == self.progress,
    {
        self.progress
    }

    /// Returns next decision sequence to assign after recovery.
    pub fn next_decision_seq(&self) -> (r: u64)
        ensures
            r == self.next_decision_seq,
    {
        self.next_decision_seq
    }

    /// Returns last consumed input sequence.
    pub fn last_input_sequence(&self) -> (r: u64)
        ensures
            r == self.last_input_sequence,
    {
        self.last_input_sequence
    }
}

/// Algorithm recovery policy.
#[derive(Debug, Clone, Copy, PartialEq, Eq)]
pub struct AlgoRecoveryPolicy {
    /// Recovered parents pause by default.
    pub pause_on_recovery: bool,
    /// OMS/venue reconciliation is required before resume.
    pub require_reconciliation: bool,
    /// Complete recovered progress completes the parent.
    pub complete_when_progress_complete: bool,
}

impl AlgoRecoveryPolicy {
    /// Creates recovery policy.
    pub fn new(
        pause_on_recovery: bool,
        require_reconciliation: bool,
        complete_when_progress_complete: bool,
    ) -> (r: Self)
        ensures
            r == (AlgoRecoveryPolicy {
                pause_on_recovery,
                require_reconciliation,
                complete_when_progress_complete,
            }),
    {
        Self { pause_on_recovery, require_reconciliation, complete_when_progress_complete }
    }

    /// Returns true when recovered parents should pause by default.
    pub fn pause_on_recovery(&self) -> (r: bool)
        ensures
            r == self.pause_on_recovery,
    {
        self.pause_on_recovery
    }

    /// Returns true when OMS/venue reconciliation is required before resume.
    pub fn require_reconciliation(&self) -> (r: bool)
        ensures
            r == self.require_reconciliation,
    {
        self.require_reconciliation
    }

    /// Returns true when complete recovered progress should complete parent.
    pub fn complete_when_progress_complete(&self) -> (r: bool)
        ensures
            r == self.complete_when_progress_complete,
    {
        self.complete_when_progress_complete
    }

    /// Returns a copy with pause-on-recovery behavior changed.
    pub fn with_pause_on_recovery(self, value: bool) -> (r: Self)
        ensures
            r == (AlgoRecoveryPolicy { pause_on_recovery: value, ..self }),
    {
        AlgoRecoveryPolicy { pause_on_recovery: value, ..self }
    }

    /// Returns a copy with reconciliation requirement changed.
    pub fn with_require_reconciliation(self, value: bool) -> (r: Self)
        ensures
            r == (AlgoRecoveryPolicy { require_reconciliation: value, ..self }),
    {
        AlgoRecoveryPolicy { require_reconciliation: value, ..self }
    }

    /// Returns a copy with complete-on-recovered-progress behavior changed.
    pub fn with_complete_when_progress_complete(self, value: bool) -> (r: Self)
        ensures
            r == (AlgoRecoveryPolicy { complete_when_progress_complete: value, ..self }),
    {
        AlgoRecoveryPolicy { complete_when_progress_complete: value, ..self }
    }
}

impl Default for AlgoRecoveryPolicy {
    fn default() -> (r: Self)
        ensures
            r == (AlgoRecoveryPolicy {
                pause_on_recovery: true,
                require_reconciliation: true,
                complete_when_progress_complete: true,
            }),
    {
        Self::new(true, true, true)
    }
}

/// Deterministic recovery plan derived from a checkpoint and policy.
#[derive(Debug, Clone, Copy, PartialEq, Eq)]
pub struct AlgoRecoveryPlan {
    /// Source checkpoint.
    pub checkpoint: AlgoCheckpoint,
    /// Recommended recovery action.
    pub action: AlgoRecoveryAction,
    /// First input sequence to replay after the checkpoint.
    pub replay_from_sequence: u64,
    /// Next decision sequence to assign.
    pub next_decision_seq: u64,
    /// OMS/venue reconciliation gates resume.
    pub reconciliation_required: bool,
}

/// The action a policy recommends for a checkpoint: complete when complete
/// progress may complete the parent, escalate a terminal parent, pause when
/// pausing or reconciliation is asked for, else resume.
pub open spec fn spec_recovery_action(
    checkpoint: AlgoCheckpoint,
    policy: AlgoRecoveryPolicy,
) -> AlgoRecoveryAction {
    if policy.complete_when_progress_complete && checkpoint.progress.completed_qty.0
        >= checkpoint.progress.target_qty.0 {
        AlgoRecoveryAction::CompleteParent
    } else if spec_parent_terminal(checkpoint.parent.spec_status()) {
        AlgoRecoveryAction::EscalateRisk
    } else if policy.pause_on_recovery || policy.require_reconciliation {
        AlgoRecoveryAction::Pause
    } else {
        AlgoRecoveryAction::Resume
    }
}

impl AlgoRecoveryPlan {
    /// Builds a recovery plan; a checkpoint of another schema or with a zero
    /// next decision is `InvalidRecoveryState`. Replay starts just after the
    /// last consumed input (saturating).
    pub fn new(checkpoint: AlgoCheckpoint, policy: AlgoRecoveryPolicy) -> (r: Result<
        Self,
        AlgoError,
    >)
        ensures
            if checkpoint.schema_version != ALGO_CHECKPOINT_SCHEMA_VERSION
                || checkpoint.next_decision_seq == 0 {
                r == Err::<Self, AlgoError>(AlgoError::InvalidRecoveryState)
            } else {
                r == Ok::<Self, AlgoError>(
                    AlgoRecoveryPlan {
                        checkpoint,
                        action: spec_recovery_action(checkpoint, policy),
                        replay_from_sequence: if checkpoint.last_input_sequence == u64::MAX {
                            u64::MAX
                        } else {
                            (checkpoint.last_input_sequence + 1) as u64
                        },
                        next_decision_seq: checkpoint.next_decision_seq,
                        reconciliation_required: policy.require_reconciliation,
                    },
                )
            },
    {
        if checkpoint.schema_version != ALGO_CHECKPOINT_SCHEMA_VERSION
            || checkpoint.next_decision_seq == 0 {
            return Err(AlgoError::InvalidRecoveryState);
        }
        let progress = checkpoint.progress;
        let reconciliation_required = policy.require_reconciliation;
        let action = if policy.complete_when_progress_complete && progress.is_complete() {
            AlgoRecoveryAction::CompleteParent
        } else if checkpoint.parent.status().is_terminal() {
            AlgoRecoveryAction::EscalateRisk
        } else if policy.pause_on_recovery || reconciliation_required {
            AlgoRecoveryAction::Pause
        } else {
            AlgoRecoveryAction::Resume
        };
        Ok(
            Self {
                checkpoint,
                action,
                replay_from_sequence: checkpoint.last_input_sequence.saturating_add(1),
                next_decision_seq: checkpoint.next_decision_seq,
                reconciliation_required,
            },
        )
    }

    /// Returns the source checkpoint.
    pub fn checkpoint(&self) -> (r: AlgoCheckpoint)
        ensures
            r == self.checkpoint,
    {
        self.checkpoint
    }

    /// Returns recommended recovery action.
    pub fn action(&self) -> (r: AlgoRecoveryAction)
        ensures
            r == self.action,
    {
        self.action
    }

    /// Returns first input sequence to replay after the checkpoint.
    pub fn replay_from_sequence(&self) -> (r: u64)
        ensures
            r == self.replay_from_sequence,
    {
        self.replay_from_sequence
    }

    /// Returns next decision sequence to assign.
    pub fn next_decision_seq(&self) -> (r: u64)
        ensures
            r == self.next_decision_seq,
    {
        self.next_decision_seq
    }

    /// Returns true when OMS/venue reconciliation should gate resume.
    pub fn reconciliation_required(&self) -> (r: bool)
        ensures
            r == self.reconciliation_required,
    {
        self.reconciliation_required
    }
}

/// A checkpoint that was accepted always yields a recovery plan: every
/// checkpoint `AlgoCheckpoint::new` returns is usable for recovery under
/// every policy, and the plan never resumes a parent that reconciliation
/// must gate.
pub proof fn law_accepted_checkpoint_recovers(
    parent: ParentOrder,
    progress: AlgoProgress,
    next_decision_seq: u64,
    last_input_sequence: u64,
    policy: AlgoRecoveryPolicy,
)
    requires
        spec_parent_validate(parent) is Ok,
        spec_checkpoint_consistent(parent, progress, next_decision_seq),
    ensures
        ({
            let c = AlgoCheckpoint {
                schema_version: ALGO_CHECKPOINT_SCHEMA_VERSION,
                parent,
                progress,
                next_decision_seq,
                last_input_sequence,
            };
            &&& c.schema_version == ALGO_CHECKPOINT_SCHEMA_VERSION
            &&& c.next_decision_seq != 0
            &&& policy.require_reconciliation ==> spec_recovery_action(c, policy)
                != AlgoRecoveryAction::Resume
        }),
{
}

} // verus!
