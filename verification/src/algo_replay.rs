//! Deterministic TWAP replay over sequenced inputs, with a regression hash
//! of every step.

use vstd::prelude::*;
use crate::algo_model::{
    spec_parent_status_code, spec_parent_validate, spec_progress_on_event, spec_release,
    AlgoAction, AlgoDecision, AlgoError, AlgoProgress, ChildOrderId, ParentOrder,
    ParentOrderStatus,
};
use crate::algo_slicing::{spec_twap_plan, TwapSlicePlanner};
use crate::algo_support::{fixed_id_with_index, spec_decimal_ascii};
use crate::arith::{clamp_u64, usize_to_u64};
use crate::ids::{ClientOrderId, ExecutionCoreError, FixedAscii, spec_ascii_id_error};
use crate::orders::{spec_order_status_code, ExecutionEvent, OrderQty};
use crate::wal::{FNV_OFFSET_BASIS, FNV_PRIME};

verus! {

broadcast use crate::algo_model::group_parent_order;

/// Replay event consumed by an algorithm harness.
#[derive(Debug, Clone, Copy, PartialEq, Eq)]
#[non_exhaustive]
#[allow(clippy::large_enum_variant)]
pub enum AlgoReplayEvent {
    /// Deterministic timer tick at `timestamp_ns`.
    Timer {
        /// Timer timestamp in nanoseconds.
        timestamp_ns: u64,
    },
    /// Canonical OMS execution event.
    Execution(ExecutionEvent),
    /// Parent lifecycle status update.
    ParentStatus {
        /// New parent status.
        status: ParentOrderStatus,
    },
}

/// Sequenced replay input.
#[derive(Debug, Clone, Copy, PartialEq, Eq)]
pub struct AlgoReplayInput {
    /// Input sequence.
    pub sequence: u64,
    /// Replay event.
    pub event: AlgoReplayEvent,
}

impl AlgoReplayInput {
    /// Creates a replay input.
    pub fn new(sequence: u64, event: AlgoReplayEvent) -> (r: Self)
        ensures
            r == (AlgoReplayInput { sequence, event }),
    {
        Self { sequence, event }
    }

    /// Returns the replay input sequence.
    pub fn sequence(&self) -> (r: u64)
        ensures
            r == self.sequence,
    {
        self.sequence
    }

    /// Returns the replay event.
    pub fn event(&self) -> (r: AlgoReplayEvent)
        ensures
            r == self.event,
    {
        self.event
    }
}

/// Deterministic child/client id generation prefixes for replay.
#[derive(Debug, Clone, Copy, PartialEq, Eq)]
pub struct AlgoReplayIdScheme {
    /// Child id prefix.
    pub child_prefix: FixedAscii<24>,
    /// Client order id prefix.
    pub client_prefix: FixedAscii<24>,
}

/// The generated identifier `prefix-index`, or `GeneratedIdentifierTooLong`
/// when it does not fit an order identifier.
pub open spec fn spec_replay_id(prefix: FixedAscii<24>, index: u64) -> Result<
    FixedAscii<40>,
    AlgoError,
> {
    let text = prefix.spec_bytes() + seq![45u8] + spec_decimal_ascii(index as nat);
    if text.len() > 40 {
        Err(AlgoError::GeneratedIdentifierTooLong)
    } else {
        Ok(FixedAscii::<40>::spec_from_bytes(text))
    }
}

impl AlgoReplayIdScheme {
    /// Creates replay id prefixes; a prefix that is too long or not ASCII is
    /// refused with that error (the child prefix checked first).
    pub fn new(child_prefix: &str, client_prefix: &str) -> (r: Result<Self, ExecutionCoreError>)
        ensures
            match spec_ascii_id_error(child_prefix, 24) {
                Some(e) => r == Err::<Self, ExecutionCoreError>(e),
                None => match spec_ascii_id_error(client_prefix, 24) {
                    Some(e) => r == Err::<Self, ExecutionCoreError>(e),
                    None => r matches Ok(s) && s.child_prefix@ == child_prefix@
                        && s.client_prefix@ == client_prefix@,
                },
            },
    {
        let child = match FixedAscii::<24>::new(child_prefix) {
            Err(e) => {
                return Err(e);
            },
            Ok(id) => id,
        };
        let client = match FixedAscii::<24>::new(client_prefix) {
            Err(e) => {
                return Err(e);
            },
            Ok(id) => id,
        };
        Ok(Self { child_prefix: child, client_prefix: client })
    }

    /// Returns the child id prefix.
    pub fn child_prefix(&self) -> (r: FixedAscii<24>)
        ensures
            r == self.child_prefix,
    {
        self.child_prefix
    }

    /// Returns the client order id prefix.
    pub fn client_prefix(&self) -> (r: FixedAscii<24>)
        ensures
            r == self.client_prefix,
    {
        self.client_prefix
    }

    /// The child identifier for replay index `index`.
    pub fn child_id(&self, index: u64) -> (r: Result<ChildOrderId, AlgoError>)
        ensures
            r == spec_replay_id(self.child_prefix, index),
    {
        fixed_id_with_index(self.child_prefix.as_str(), index)
    }

    /// The client order identifier for replay index `index`.
    pub fn client_order_id(&self, index: u64) -> (r: Result<ClientOrderId, AlgoError>)
        ensures
            r == spec_replay_id(self.client_prefix, index),
    {
        fixed_id_with_index(self.client_prefix.as_str(), index)
    }
}

impl Default for AlgoReplayIdScheme {
    /// The prefixes `child` and `cl`.
    fn default() -> (r: Self)
        ensures
            r.child_prefix.spec_bytes() == seq![99u8, 104u8, 105u8, 108u8, 100u8],
            r.client_prefix.spec_bytes() == seq![99u8, 108u8],
    {
        let child: [u8; 5] = [99, 104, 105, 108, 100];
        let client: [u8; 2] = [99, 108];
        Self {
            child_prefix: FixedAscii::from_ascii_bytes(child.as_slice()),
            client_prefix: FixedAscii::from_ascii_bytes(client.as_slice()),
        }
    }
}

/// Replay step emitted for one input event.
#[derive(Debug, PartialEq, Eq)]
pub struct AlgoReplayStep<const N: usize> {
    /// Replay input sequence.
    pub input_sequence: u64,
    /// Replay event.
    pub event: AlgoReplayEvent,
    /// Progress before applying the event.
    pub progress_before: AlgoProgress,
    /// Progress after applying the event and any generated decision.
    pub progress_after: AlgoProgress,
    /// Decision generated for this input.
    pub decision: AlgoDecision<N>,
}

impl<const N: usize> AlgoReplayStep<N> {
    /// Returns the replay input sequence.
    pub fn input_sequence(&self) -> (r: u64)
        ensures
            r == self.input_sequence,
    {
        self.input_sequence
    }

    /// Returns the replay event.
    pub fn event(&self) -> (r: AlgoReplayEvent)
        ensures
            r == self.event,
    {
        self.event
    }

    /// Returns progress before applying the event.
    pub fn progress_before(&self) -> (r: AlgoProgress)
        ensures
            r == self.progress_before,
    {
        self.progress_before
    }

    /// Returns progress after applying the event and any generated decision.
    pub fn progress_after(&self) -> (r: AlgoProgress)
        ensures
            r == self.progress_after,
    {
        self.progress_after
    }

    /// Returns the decision generated for this input.
    pub fn decision(&self) -> (r: &AlgoDecision<N>)
        ensures
            *r == self.decision,
    {
        &self.decision
    }
}

/// Summary returned by deterministic TWAP replay.
#[derive(Debug, Clone, Copy, PartialEq, Eq)]
pub struct AlgoReplaySummary {
    /// Replay input event count.
    pub input_events: u64,
    /// Emitted decision count.
    pub decisions: u64,
    /// Total emitted action count.
    pub actions: u64,
    /// Submitted child action count.
    pub submitted_children: u64,
    /// Final parent progress.
    pub final_progress: AlgoProgress,
    /// Deterministic replay hash for regression checks.
    pub deterministic_hash: u64,
}

impl AlgoReplaySummary {
    /// Returns replay input event count.
    pub fn input_events(&self) -> (r: u64)
        ensures
            r == self.input_events,
    {
        self.input_events
    }

    /// Returns emitted decision count.
    pub fn decisions(&self) -> (r: u64)
        ensures
            r == self.decisions,
    {
        self.decisions
    }

    /// Returns total emitted action count.
    pub fn actions(&self) -> (r: u64)
        ensures
            r == self.actions,
    {
        self.actions
    }

    /// Returns submitted child action count.
    pub fn submitted_children(&self) -> (r: u64)
        ensures
            r == self.submitted_children,
    {
        self.submitted_children
    }

    /// Returns final parent progress.
    pub fn final_progress(&self) -> (r: AlgoProgress)
        ensures
            r == self.final_progress,
    {
        self.final_progress
    }

    /// Returns deterministic replay hash for regression checks.
    pub fn deterministic_hash(&self) -> (r: u64)
        ensures
            r == self.deterministic_hash,
    {
        self.deterministic_hash
    }
}

/// One FNV-1a step.
pub open spec fn spec_fnv_step(h: u64, b: u64) -> u64 {
    (h ^ b).wrapping_mul(FNV_PRIME)
}

/// FNV-1a over the eight little-endian bytes of `v`, from `h`.
pub open spec fn spec_hash_u64(h: u64, v: u64) -> u64 {
    let h1 = spec_fnv_step(h, v & 0xff);
    let h2 = spec_fnv_step(h1, (v >> 8u64) & 0xff);
    let h3 = spec_fnv_step(h2, (v >> 16u64) & 0xff);
    let h4 = spec_fnv_step(h3, (v >> 24u64) & 0xff);
    let h5 = spec_fnv_step(h4, (v >> 32u64) & 0xff);
    let h6 = spec_fnv_step(h5, (v >> 40u64) & 0xff);
    let h7 = spec_fnv_step(h6, (v >> 48u64) & 0xff);
    spec_fnv_step(h7, (v >> 56u64) & 0xff)
}

/// Feeds the little-endian bytes of `v` into an FNV-1a hash.
pub fn hash_u64(hash: u64, value: u64) -> (r: u64)
    ensures
        r == spec_hash_u64(hash, value),
{
    let mut h = hash;
    h = (h ^ (value & 0xff)).wrapping_mul(FNV_PRIME);
    h = (h ^ ((value >> 8u64) & 0xff)).wrapping_mul(FNV_PRIME);
    h = (h ^ ((value >> 16u64) & 0xff)).wrapping_mul(FNV_PRIME);
    h = (h ^ ((value >> 24u64) & 0xff)).wrapping_mul(FNV_PRIME);
    h = (h ^ ((value >> 32u64) & 0xff)).wrapping_mul(FNV_PRIME);
    h = (h ^ ((value >> 40u64) & 0xff)).wrapping_mul(FNV_PRIME);
    h = (h ^ ((value >> 48u64) & 0xff)).wrapping_mul(FNV_PRIME);
    h = (h ^ ((value >> 56u64) & 0xff)).wrapping_mul(FNV_PRIME);
    h
}

/// Feeds the two's-complement bits of a signed value into the hash.
pub fn hash_i64(hash: u64, value: i64) -> (r: u64)
    ensures
        r == spec_hash_u64(hash, value as u64),
{
    hash_u64(hash, value as u64)
}

/// Hash of one replay step: the input sequence, the event (its tag then
/// timestamp, status and fill, or status), the progress quantities and the
/// number of actions.
pub open spec fn spec_hash_replay_step(
    hash: u64,
    sequence: u64,
    event: AlgoReplayEvent,
    progress: AlgoProgress,
    actions: nat,
) -> u64 {
    let h1 = spec_hash_u64(hash, sequence);
    let h2 = match event {
        AlgoReplayEvent::Timer { timestamp_ns } => spec_hash_u64(spec_hash_u64(h1, 1), timestamp_ns),
        AlgoReplayEvent::Execution(e) => spec_hash_u64(
            spec_hash_u64(spec_hash_u64(h1, 2), spec_order_status_code(e.order_status) as u64),
            e.last_qty.0 as u64,
        ),
        AlgoReplayEvent::ParentStatus { status } => spec_hash_u64(
            spec_hash_u64(h1, 3),
            spec_parent_status_code(status) as u64,
        ),
    };
    let h3 = spec_hash_u64(h2, progress.released_qty.0 as u64);
    let h4 = spec_hash_u64(h3, progress.completed_qty.0 as u64);
    let h5 = spec_hash_u64(h4, progress.open_qty.0 as u64);
    spec_hash_u64(h5, clamp_u64(actions as int) as u64)
}

/// Hashes one replay step.
pub fn hash_replay_step<const N: usize>(
    hash: u64,
    input_sequence: u64,
    event: AlgoReplayEvent,
    progress: &AlgoProgress,
    decision: &AlgoDecision<N>,
) -> (r: u64)
    ensures
        r == spec_hash_replay_step(
            hash,
            input_sequence,
            event,
            *progress,
            decision.spec_actions().len(),
        ),
{
    let mut h = hash_u64(hash, input_sequence);
    h = match event {
        AlgoReplayEvent::Timer { timestamp_ns } => hash_u64(hash_u64(h, 1), timestamp_ns),
        AlgoReplayEvent::Execution(e) => hash_i64(
            hash_u64(hash_u64(h, 2), e.order_status.code() as u64),
            e.last_qty.0,
        ),
        AlgoReplayEvent::ParentStatus { status } => hash_u64(
            hash_u64(h, 3),
            status.code() as u64,
        ),
    };
    h = hash_i64(h, progress.released_qty.0);
    h = hash_i64(h, progress.completed_qty.0);
    h = hash_i64(h, progress.open_qty.0);
    hash_u64(h, usize_to_u64(decision.len()))
}

/// What one replay step records: input sequence, event, progress before and
/// after, decision sequence and actions.
pub type ReplayStepView = (u64, AlgoReplayEvent, AlgoProgress, AlgoProgress, u64, Seq<AlgoAction>);

/// The record of a replay step.
pub open spec fn spec_step_view<const N: usize>(s: AlgoReplayStep<N>) -> ReplayStepView {
    (
        s.input_sequence,
        s.event,
        s.progress_before,
        s.progress_after,
        s.decision.spec_seq(),
        s.decision.spec_actions(),
    )
}

/// Replay state: active parent, progress, decision, action and submission
/// counts, hash, and the steps so far.
pub type ReplayState = (ParentOrder, AlgoProgress, u64, u64, u64, u64, Seq<ReplayStepView>);

/// `n + 1`, saturating.
pub open spec fn spec_inc_u64(n: u64) -> u64 {
    clamp_u64(n + 1) as u64
}

/// One event: a timer plans a TWAP slice with the next generated ids and
/// releases it; an execution event folds into progress; a status update
/// changes the active parent. The result is the active parent, progress,
/// submission count and decision actions.
pub open spec fn spec_replay_event(
    interval: u64,
    scheme: AlgoReplayIdScheme,
    cap: usize,
    active: ParentOrder,
    progress: AlgoProgress,
    submitted: u64,
    event: AlgoReplayEvent,
) -> Result<(ParentOrder, AlgoProgress, u64, Seq<AlgoAction>), AlgoError> {
    match event {
        AlgoReplayEvent::Timer { timestamp_ns } => {
            let next = spec_inc_u64(submitted);
            match spec_replay_id(scheme.child_prefix, next) {
                Err(e) => Err(e),
                Ok(child_id) => match spec_replay_id(scheme.client_prefix, next) {
                    Err(e) => Err(e),
                    Ok(client_id) => match spec_twap_plan(
                        interval,
                        active,
                        progress,
                        timestamp_ns,
                        child_id,
                        client_id,
                        timestamp_ns,
                    ) {
                        Err(e) => Err(e),
                        Ok(None) => Ok((active, progress, submitted, Seq::empty())),
                        Ok(Some(plan)) => if cap == 0 {
                            Err(AlgoError::DecisionFull { capacity: cap })
                        } else {
                            match spec_release(progress, plan) {
                                Err(e) => Err(e),
                                Ok(p) => Ok(
                                    (active, p, next, seq![AlgoAction::SubmitChild(plan)]),
                                ),
                            }
                        },
                    },
                },
            }
        },
        AlgoReplayEvent::Execution(e) => Ok(
            (active, spec_progress_on_event(progress, e), submitted, Seq::empty()),
        ),
        AlgoReplayEvent::ParentStatus { status } => Ok(
            (active.spec_with_status(status), progress, submitted, Seq::empty()),
        ),
    }
}

/// Replay over the first `k` inputs: the state, or the error that stopped
/// it with the steps recorded before.
pub open spec fn spec_replay_fold(
    interval: u64,
    scheme: AlgoReplayIdScheme,
    cap: usize,
    parent: ParentOrder,
    inputs: Seq<AlgoReplayInput>,
    k: int,
) -> Result<ReplayState, (AlgoError, Seq<ReplayStepView>)>
    decreases k,
{
    if k <= 0 {
        Ok(
            (
                parent,
                AlgoProgress {
                    parent_id: parent.spec_id(),
                    target_qty: parent.spec_total_qty(),
                    released_qty: OrderQty(0),
                    completed_qty: OrderQty(0),
                    open_qty: OrderQty(0),
                    rejected_children: 0,
                    terminal_children: 0,
                },
                0u64,
                0u64,
                0u64,
                FNV_OFFSET_BASIS,
                Seq::empty(),
            ),
        )
    } else {
        match spec_replay_fold(interval, scheme, cap, parent, inputs, k - 1) {
            Err(x) => Err(x),
            Ok((active, progress, decisions, actions, submitted, hash, steps)) => {
                let input = inputs[k - 1];
                match spec_replay_event(
                    interval,
                    scheme,
                    cap,
                    active,
                    progress,
                    submitted,
                    input.event,
                ) {
                    Err(e) => Err((e, steps)),
                    Ok((active2, progress2, submitted2, acts)) => Ok(
                        (
                            active2,
                            progress2,
                            spec_inc_u64(decisions),
                            clamp_u64(actions + acts.len()) as u64,
                            submitted2,
                            spec_hash_replay_step(
                                hash,
                                input.sequence,
                                input.event,
                                progress2,
                                acts.len(),
                            ),
                            steps.push(
                                (
                                    input.sequence,
                                    input.event,
                                    progress,
                                    progress2,
                                    spec_inc_u64(decisions),
                                    acts,
                                ),
                            ),
                        ),
                    ),
                }
            },
        }
    }
}

/// Once replay fails on a prefix it fails the same way on every longer
/// prefix.
proof fn lemma_replay_error_sticks(
    interval: u64,
    scheme: AlgoReplayIdScheme,
    cap: usize,
    parent: ParentOrder,
    inputs: Seq<AlgoReplayInput>,
    k: int,
    x: (AlgoError, Seq<ReplayStepView>),
)
    requires
        0 <= k <= inputs.len(),
        spec_replay_fold(interval, scheme, cap, parent, inputs, k) == Err::<
            ReplayState,
            (AlgoError, Seq<ReplayStepView>),
        >(x),
    ensures
        spec_replay_fold(interval, scheme, cap, parent, inputs, inputs.len() as int) == Err::<
            ReplayState,
            (AlgoError, Seq<ReplayStepView>),
        >(x),
    decreases inputs.len() - k,
{
    if k < inputs.len() {
        lemma_replay_error_sticks(interval, scheme, cap, parent, inputs, k + 1, x);
    }
}

/// The summary of a completed replay.
pub open spec fn spec_replay_summary(s: ReplayState, inputs: nat) -> AlgoReplaySummary {
    AlgoReplaySummary {
        input_events: clamp_u64(inputs as int) as u64,
        decisions: s.2,
        actions: s.3,
        submitted_children: s.4,
        final_progress: s.1,
        deterministic_hash: s.5,
    }
}

/// `out` holds exactly the recorded steps.
pub open spec fn spec_out_is<const N: usize>(
    out: Seq<AlgoReplayStep<N>>,
    steps: Seq<ReplayStepView>,
) -> bool {
    out.len() == steps.len() && forall|i: int|
        0 <= i < out.len() ==> spec_step_view(#[trigger] out[i]) == steps[i]
}

/// Runs one replay event.
fn replay_event<const N: usize>(
    planner: &TwapSlicePlanner,
    scheme: &AlgoReplayIdScheme,
    active: ParentOrder,
    progress: AlgoProgress,
    submitted: u64,
    event: AlgoReplayEvent,
    decision_seq: u64,
) -> (r: Result<(ParentOrder, AlgoProgress, u64, AlgoDecision<N>), AlgoError>)
    ensures
        match spec_replay_event(
            planner.spec_interval(),
            *scheme,
            N,
            active,
            progress,
            submitted,
            event,
        ) {
            Err(e) => r == Err::<(ParentOrder, AlgoProgress, u64, AlgoDecision<N>), AlgoError>(e),
            Ok((a, p, s, acts)) => r matches Ok((a2, p2, s2, d)) && a2 == a && p2 == p && s2 == s
                && d.spec_seq() == decision_seq && d.spec_actions() == acts,
        },
{
    let mut decision = AlgoDecision::<N>::new(decision_seq);
    match event {
        AlgoReplayEvent::Timer { timestamp_ns } => {
            let next = submitted.saturating_add(1);
            let child_id = match scheme.child_id(next) {
                Err(e) => {
                    return Err(e);
                },
                Ok(id) => id,
            };
            let client_id = match scheme.client_order_id(next) {
                Err(e) => {
                    return Err(e);
                },
                Ok(id) => id,
            };
            let planned = match planner.plan_due_slice(
                &active,
                progress,
                timestamp_ns,
                child_id,
                client_id,
                timestamp_ns,
            ) {
                Err(e) => {
                    return Err(e);
                },
                Ok(p) => p,
            };
            match planned {
                None => Ok((active, progress, submitted, decision)),
                Some(plan) => {
                    match decision.push(AlgoAction::SubmitChild(plan)) {
                        Err(e) => {
                            return Err(e);
                        },
                        Ok(()) => {},
                    }
                    let mut released = progress;
                    match released.on_child_released(&plan) {
                        Err(e) => {
                            return Err(e);
                        },
                        Ok(()) => {},
                    }
                    proof {
                        assert(decision.spec_actions() =~= seq![AlgoAction::SubmitChild(plan)]);
                    }
                    Ok((active, released, next, decision))
                },
            }
        },
        AlgoReplayEvent::Execution(e) => {
            let mut folded = progress;
            folded.on_execution_event(&e);
            Ok((active, folded, submitted, decision))
        },
        AlgoReplayEvent::ParentStatus { status } => Ok(
            (active.with_status(status), progress, submitted, decision),
        ),
    }
}

/// The replay outcome: an invalid parent is its error with the output
/// untouched; a failing input is its error with the steps before it
/// recorded; else the summary and all steps.
pub open spec fn spec_replay(
    interval: u64,
    scheme: AlgoReplayIdScheme,
    cap: usize,
    parent: ParentOrder,
    inputs: Seq<AlgoReplayInput>,
) -> Result<(AlgoReplaySummary, Seq<ReplayStepView>), (AlgoError, Option<Seq<ReplayStepView>>)> {
    match spec_parent_validate(parent) {
        Err(e) => Err((e, None)),
        Ok(_) => match spec_replay_fold(interval, scheme, cap, parent, inputs, inputs.len() as int) {
            Err((e, steps)) => Err((e, Some(steps))),
            Ok(s) => Ok((spec_replay_summary(s, inputs.len()), s.6)),
        },
    }
}

/// Replays TWAP planning over explicit deterministic inputs. `out` is
/// cleared and receives one step per input; allocation stays with the
/// caller.
pub fn replay_twap_into<const N: usize>(
    parent: ParentOrder,
    planner: TwapSlicePlanner,
    inputs: &[AlgoReplayInput],
    id_scheme: AlgoReplayIdScheme,
    out: &mut Vec<AlgoReplayStep<N>>,
) -> (r: Result<AlgoReplaySummary, AlgoError>)
    ensures
        match spec_replay(planner.spec_interval(), id_scheme, N, parent, inputs@) {
            Ok((summary, steps)) => r == Ok::<AlgoReplaySummary, AlgoError>(summary)
                && spec_out_is(final(out)@, steps),
            Err((e, None)) => r == Err::<AlgoReplaySummary, AlgoError>(e) && final(out)@ == old(
                out,
            )@,
            Err((e, Some(steps))) => r == Err::<AlgoReplaySummary, AlgoError>(e) && spec_out_is(
                final(out)@,
                steps,
            ),
        },
{
    match parent.validate() {
        Err(e) => {
            return Err(e);
        },
        Ok(()) => {},
    }
    out.clear();
    let ghost interval = planner.spec_interval();
    let mut active_parent = parent;
    let mut progress = AlgoProgress::new(parent.id(), parent.total_qty());
    let mut decisions: u64 = 0;
    let mut actions: u64 = 0;
    let mut submitted_children: u64 = 0;
    let mut hash: u64 = FNV_OFFSET_BASIS;
    let mut i: usize = 0;
    while i < inputs.len()
        invariant
            i <= inputs@.len(),
            interval == planner.spec_interval(),
            spec_parent_validate(parent) is Ok,
            spec_replay_fold(interval, id_scheme, N, parent, inputs@, i as int) == Ok::<
                ReplayState,
                (AlgoError, Seq<ReplayStepView>),
            >(
                (
                    active_parent,
                    progress,
                    decisions,
                    actions,
                    submitted_children,
                    hash,
                    spec_replay_fold(interval, id_scheme, N, parent, inputs@, i as int)->Ok_0.6,
                ),
            ),
            spec_out_is(
                out@,
                spec_replay_fold(interval, id_scheme, N, parent, inputs@, i as int)->Ok_0.6,
            ),
        decreases inputs@.len() - i,
    {
        let ghost steps = spec_replay_fold(interval, id_scheme, N, parent, inputs@, i as int)->Ok_0.6;
        let input = inputs[i];
        let before = progress;
        let decision_seq = decisions.saturating_add(1);
        let (next_parent, next_progress, next_submitted, decision) = match replay_event::<N>(
            &planner,
            &id_scheme,
            active_parent,
            progress,
            submitted_children,
            input.event,
            decision_seq,
        ) {
            Err(e) => {
                proof {
                    lemma_replay_error_sticks(
                        interval,
                        id_scheme,
                        N,
                        parent,
                        inputs@,
                        i as int + 1,
                        (e, steps),
                    );
                }
                return Err(e);
            },
            Ok(t) => t,
        };
        active_parent = next_parent;
        progress = next_progress;
        submitted_children = next_submitted;
        decisions = decisions.saturating_add(1);
        actions = actions.saturating_add(usize_to_u64(decision.len()));
        hash = hash_replay_step(hash, input.sequence, input.event, &progress, &decision);
        let ghost old_out = out@;
        out.push(
            AlgoReplayStep {
                input_sequence: input.sequence,
                event: input.event,
                progress_before: before,
                progress_after: progress,
                decision,
            },
        );
        proof {
            let next_steps = spec_replay_fold(
                interval,
                id_scheme,
                N,
                parent,
                inputs@,
                i as int + 1,
            )->Ok_0.6;
            assert forall|j: int| 0 <= j < out@.len() implies spec_step_view(#[trigger] out@[j])
                == next_steps[j] by {
                if j < old_out.len() {
                    assert(out@[j] == old_out[j]);
                }
            }
        }
        i = i + 1;
    }
    proof {
        assert(inputs@.len() == i);
    }
    Ok(
        AlgoReplaySummary {
            input_events: usize_to_u64(inputs.len()),
            decisions,
            actions,
            submitted_children,
            final_progress: progress,
            deterministic_hash: hash,
        },
    )
}

} // verus!
