//! Deterministic linear saga planning with typed inputs and outputs.
//!
//! Every transition is a pure function of the pinned definition, the current
//! projection and one input. Its meaning is stated over views
//! (`DefinitionView`, `ProjectionView`, `DecisionView`) by the `spec_*`
//! functions of this module, and each executable transition returns exactly
//! what its spec function describes.

use vstd::prelude::*;

use crate::domain::{
    opt_view, views, ActionView, ProcessAction, ProcessActionKind, ProcessScope, ScopeView,
    MAX_DEFINITION_STEPS,
};
use crate::ids::{ActionId, ContentDigest, DefinitionId, DefinitionVersion, LogicalTime, ProcessId, StepId, TenantId};
use crate::review::ManualReviewResolutionV1;
use crate::timers::TimerScheduleV1;

verus! {

/// Bounded deterministic exponential retry timing policy.
#[derive(Debug, Clone, Copy, PartialEq, Eq)]
pub struct RetryBackoffV1 {
    /// Delay for the first retry in logical milliseconds.
    pub base_delay_millis: u64,
    /// Maximum delay after exponential growth in logical milliseconds.
    pub max_delay_millis: u64,
}

/// Explicit retry bound for one action step.
#[derive(Debug, Clone, Copy, PartialEq, Eq)]
pub struct RetryPolicyV1 {
    /// Total number of permitted attempts, including the first attempt.
    pub max_attempts: u32,
    /// Optional deterministic exponential retry timing policy.
    pub backoff: Option<RetryBackoffV1>,
}

/// Declared action used to compensate a previously succeeded step.
#[derive(Debug, Clone, Copy, PartialEq, Eq)]
pub struct CompensationPlanV1 {
    /// Action category for the compensating effect.
    pub action_kind: ProcessActionKind,
    /// Digest of immutable compensation parameters.
    pub payload_digest: ContentDigest,
    /// Bounded retry behavior for the compensating action.
    pub retry_policy: RetryPolicyV1,
}

impl CompensationPlanV1 {
    /// Declares a canonical command compensation action.
    pub fn canonical_command(payload_digest: ContentDigest, retry_policy: RetryPolicyV1) -> (plan:
        Self)
        ensures
            plan == (CompensationPlanV1 {
                action_kind: ProcessActionKind::CanonicalCommand,
                payload_digest,
                retry_policy,
            }),
    {
        CompensationPlanV1 {
            action_kind: ProcessActionKind::CanonicalCommand,
            payload_digest,
            retry_policy,
        }
    }
}

/// `base` doubled `n` times.
pub open spec fn doubled(base: nat, n: nat) -> nat
    decreases n,
{
    if n == 0 {
        base
    } else {
        2 * doubled(base, (n - 1) as nat)
    }
}

/// The delay before the zero-based retry `ordinal`: the base delay doubled
/// once per earlier retry, capped at the maximum delay.
pub open spec fn retry_delay(backoff: RetryBackoffV1, ordinal: nat) -> nat {
    let grown = doubled(backoff.base_delay_millis as nat, ordinal);
    if grown <= backoff.max_delay_millis {
        grown
    } else {
        backoff.max_delay_millis as nat
    }
}

proof fn lemma_doubled_zero(n: nat)
    ensures
        doubled(0, n) == 0,
    decreases n,
{
    if n > 0 {
        lemma_doubled_zero((n - 1) as nat);
    }
}

proof fn lemma_doubled_monotone(base: nat, m: nat, n: nat)
    requires
        m <= n,
    ensures
        doubled(base, m) <= doubled(base, n),
    decreases n,
{
    if m < n {
        lemma_doubled_monotone(base, m, (n - 1) as nat);
    }
}

proof fn lemma_doubled_step(base: nat, n: nat)
    ensures
        doubled(base, n + 1) == 2 * doubled(base, n),
{
    assert(((n + 1) as nat - 1) as nat == n);
}

fn capped_delay(backoff: RetryBackoffV1, ordinal: u32) -> (delay: u64)
    ensures
        delay == retry_delay(backoff, ordinal as nat),
{
    let max = backoff.max_delay_millis;
    let mut delay = backoff.base_delay_millis;
    let mut i: u32 = 0;
    while i < ordinal && 0 < delay && delay < max
        invariant
            i <= ordinal,
            delay == doubled(backoff.base_delay_millis as nat, i as nat),
            max == backoff.max_delay_millis,
            delay <= u64::MAX,
        decreases ordinal - i,
    {
        proof {
            lemma_doubled_step(backoff.base_delay_millis as nat, i as nat);
        }
        if delay > max - delay {
            proof {
                lemma_doubled_monotone(
                    backoff.base_delay_millis as nat,
                    (i + 1) as nat,
                    ordinal as nat,
                );
            }
            return max;
        }
        delay = delay * 2;
        i = i + 1;
    }
    proof {
        if i < ordinal {
            if delay == 0 {
                assert(backoff.base_delay_millis == 0) by {
                    if backoff.base_delay_millis > 0 {
                        lemma_doubled_monotone(backoff.base_delay_millis as nat, 0, i as nat);
                    }
                }
                lemma_doubled_zero(ordinal as nat);
            } else {
                lemma_doubled_monotone(backoff.base_delay_millis as nat, i as nat, ordinal as nat);
            }
        }
    }
    if delay <= max {
        delay
    } else {
        max
    }
}

impl RetryBackoffV1 {
    /// Creates a bounded exponential retry timing policy; the first delay may
    /// not exceed the maximum delay.
    pub fn new(base_delay_millis: u64, max_delay_millis: u64) -> (result: Result<Self, EngineError>)
        requires
            base_delay_millis > 0,
            max_delay_millis > 0,
        ensures
            base_delay_millis > max_delay_millis ==> result == Err::<Self, EngineError>(
                EngineError::InvalidRetryBackoff,
            ),
            base_delay_millis <= max_delay_millis ==> result == Ok::<Self, EngineError>(
                RetryBackoffV1 { base_delay_millis, max_delay_millis },
            ),
    {
        if base_delay_millis > max_delay_millis {
            return Err(EngineError::InvalidRetryBackoff);
        }
        Ok(RetryBackoffV1 { base_delay_millis, max_delay_millis })
    }
}

/// The due time of the zero-based retry `ordinal` observed at `now`: none
/// without backoff, otherwise `now` plus the capped exponential delay, or an
/// overflow error when that sum exceeds the logical time range.
pub open spec fn spec_retry_due_at(policy: RetryPolicyV1, now: LogicalTime, ordinal: u32) -> Result<
    Option<LogicalTime>,
    EngineError,
> {
    match policy.backoff {
        None => Ok(None),
        Some(backoff) => {
            let due = now.0 + retry_delay(backoff, ordinal as nat);
            if due > u64::MAX {
                Err(EngineError::RetryDueTimeOverflow)
            } else {
                Ok(Some(LogicalTime(due as u64)))
            }
        },
    }
}

impl RetryPolicyV1 {
    /// Creates a retry policy with the given total attempt bound.
    pub fn new(max_attempts: u32) -> (policy: Self)
        requires
            max_attempts > 0,
        ensures
            policy == (RetryPolicyV1 { max_attempts, backoff: None }),
    {
        RetryPolicyV1 { max_attempts, backoff: None }
    }

    /// Creates a policy permitting exactly one attempt and no retry.
    pub fn no_retry() -> (policy: Self)
        ensures
            policy == (RetryPolicyV1 { max_attempts: 1, backoff: None }),
    {
        RetryPolicyV1 { max_attempts: 1, backoff: None }
    }

    /// Attaches deterministic retry timing to a bounded attempt policy.
    pub fn with_backoff(self, backoff: RetryBackoffV1) -> (policy: Self)
        ensures
            policy == (RetryPolicyV1 { backoff: Some(backoff), ..self }),
    {
        RetryPolicyV1 { backoff: Some(backoff), ..self }
    }

    /// Calculates the due time for a zero-based retry ordinal. No wall clock
    /// is read here.
    pub fn retry_due_at(&self, now: LogicalTime, retry_ordinal: u32) -> (result: Result<
        Option<LogicalTime>,
        EngineError,
    >)
        ensures
            result == spec_retry_due_at(*self, now, retry_ordinal),
    {
        match self.backoff {
            None => Ok(None),
            Some(backoff) => {
                let delay = capped_delay(backoff, retry_ordinal);
                match now.0.checked_add(delay) {
                    Some(due_at) => Ok(Some(LogicalTime(due_at))),
                    None => Err(EngineError::RetryDueTimeOverflow),
                }
            },
        }
    }
}

/// The view of a declared step.
pub ghost struct StepView {
    pub step_id: Seq<char>,
    pub action_kind: ProcessActionKind,
    pub payload_digest: ContentDigest,
    pub retry_policy: RetryPolicyV1,
    pub compensation: Option<CompensationPlanV1>,
}

/// A declared process step.
#[derive(Debug, PartialEq, Eq)]
pub struct StepPlanV1 {
    /// Stable step identity from the pinned definition.
    pub step_id: StepId,
    /// The action category dispatched for this step.
    pub action_kind: ProcessActionKind,
    /// Digest of immutable action parameters.
    pub payload_digest: ContentDigest,
    /// Bounded retry behavior for this step.
    pub retry_policy: RetryPolicyV1,
    /// Optional compensating action to run after a known terminal forward failure.
    pub compensation: Option<CompensationPlanV1>,
}

impl View for StepPlanV1 {
    type V = StepView;

    open spec fn view(&self) -> StepView {
        StepView {
            step_id: self.step_id@,
            action_kind: self.action_kind,
            payload_digest: self.payload_digest,
            retry_policy: self.retry_policy,
            compensation: self.compensation,
        }
    }
}

impl Clone for StepPlanV1 {
    fn clone(&self) -> (copy: Self)
        ensures
            copy == *self,
    {
        StepPlanV1 {
            step_id: self.step_id.clone(),
            action_kind: self.action_kind,
            payload_digest: self.payload_digest,
            retry_policy: self.retry_policy,
            compensation: self.compensation,
        }
    }
}

impl StepPlanV1 {
    /// Declares a canonical-command step with a typed retry bound.
    pub fn canonical_command(
        step_id: StepId,
        payload_digest: ContentDigest,
        retry_policy: RetryPolicyV1,
    ) -> (step: Self)
        ensures
            step == (StepPlanV1 {
                step_id,
                action_kind: ProcessActionKind::CanonicalCommand,
                payload_digest,
                retry_policy,
                compensation: None,
            }),
    {
        StepPlanV1 {
            step_id,
            action_kind: ProcessActionKind::CanonicalCommand,
            payload_digest,
            retry_policy,
            compensation: None,
        }
    }

    /// Attaches the compensating action declared for this forward step.
    pub fn with_compensation(self, compensation: CompensationPlanV1) -> (step: Self)
        ensures
            step == (StepPlanV1 { compensation: Some(compensation), ..self }),
    {
        StepPlanV1 { compensation: Some(compensation), ..self }
    }
}

/// The view of a linear definition.
pub ghost struct DefinitionView {
    pub definition_id: Seq<char>,
    pub definition_version: Seq<char>,
    pub definition_digest: ContentDigest,
    pub steps: Seq<StepView>,
}

/// A deterministic, ordered saga definition.
#[derive(Debug, PartialEq, Eq)]
pub struct LinearSagaDefinitionV1 {
    /// Stable immutable definition identity.
    pub definition_id: DefinitionId,
    /// Pinned definition version selected when this process starts.
    pub definition_version: DefinitionVersion,
    /// Digest of the exact definition semantics used for replay.
    pub definition_digest: ContentDigest,
    /// Steps execute in vector order.
    pub steps: Vec<StepPlanV1>,
}

impl View for LinearSagaDefinitionV1 {
    type V = DefinitionView;

    open spec fn view(&self) -> DefinitionView {
        DefinitionView {
            definition_id: self.definition_id@,
            definition_version: self.definition_version@,
            definition_digest: self.definition_digest,
            steps: views(self.steps@),
        }
    }
}

impl LinearSagaDefinitionV1 {
    /// Creates an ordered linear-saga definition.
    pub fn new(
        definition_id: DefinitionId,
        definition_version: DefinitionVersion,
        definition_digest: ContentDigest,
        steps: Vec<StepPlanV1>,
    ) -> (definition: Self)
        ensures
            definition == (LinearSagaDefinitionV1 {
                definition_id,
                definition_version,
                definition_digest,
                steps,
            }),
    {
        LinearSagaDefinitionV1 { definition_id, definition_version, definition_digest, steps }
    }

    /// Validates the definition's executable invariant: non-empty, within
    /// the step bound, and without a repeated step identity.
    pub fn validate(&self) -> (result: Result<(), EngineError>)
        ensures
            result == spec_validate_definition(self@),
    {
        if self.steps.len() == 0 {
            return Err(EngineError::EmptyDefinition);
        }
        if self.steps.len() > MAX_DEFINITION_STEPS {
            return Err(EngineError::DefinitionStepLimitExceeded);
        }
        if steps_have_duplicate(&self.steps) {
            return Err(EngineError::DuplicateStepId);
        }
        Ok(())
    }
}

/// Whether two steps declare the same step identity.
pub open spec fn steps_have_duplicate_id(steps: Seq<StepView>) -> bool {
    exists|i: int, j: int|
        0 <= i < j < steps.len() && #[trigger] steps[i].step_id == #[trigger] steps[j].step_id
}

/// The outcome of validating a definition view.
pub open spec fn spec_validate_definition(d: DefinitionView) -> Result<(), EngineError> {
    if d.steps.len() == 0 {
        Err(EngineError::EmptyDefinition)
    } else if d.steps.len() > MAX_DEFINITION_STEPS {
        Err(EngineError::DefinitionStepLimitExceeded)
    } else if steps_have_duplicate_id(d.steps) {
        Err(EngineError::DuplicateStepId)
    } else {
        Ok(())
    }
}

pub(crate) fn steps_have_duplicate(steps: &Vec<StepPlanV1>) -> (found: bool)
    ensures
        found == steps_have_duplicate_id(views(steps@)),
{
    let ghost sv = views(steps@);
    assert(sv.len() == steps@.len());
    let mut i: usize = 0;
    while i < steps.len()
        invariant
            0 <= i <= steps.len(),
            sv == views(steps@),
            sv.len() == steps@.len(),
            forall|a: int, b: int| 0 <= a < i && a < b < sv.len() ==> sv[a].step_id != sv[b].step_id,
        decreases steps.len() - i,
    {
        let mut j: usize = i + 1;
        while j < steps.len()
            invariant
                i < steps.len(),
                i + 1 <= j <= steps.len(),
                sv == views(steps@),
                sv.len() == steps@.len(),
                forall|a: int, b: int|
                    0 <= a < i && a < b < sv.len() ==> sv[a].step_id != sv[b].step_id,
                forall|b: int| i < b < j ==> sv[i as int].step_id != sv[b].step_id,
            decreases steps.len() - j,
        {
            assert(sv[i as int] == steps@[i as int]@);
            assert(sv[j as int] == steps@[j as int]@);
            if steps[i].step_id == steps[j].step_id {
                assert(sv[i as int].step_id == sv[j as int].step_id);
                return true;
            }
            j = j + 1;
        }
        i = i + 1;
    }
    false
}

/// Process lifecycle status.
#[derive(Debug, Clone, Copy, PartialEq, Eq, Structural)]
pub enum SagaStatusV1 {
    /// A step is pending or executing.
    Running,
    /// Every declared step succeeded.
    Completed,
    /// A terminal result requires human intervention.
    Escalated,
    /// An authorized manual-review resolution cancelled the process.
    Cancelled,
    /// Every required compensation action completed in reverse success order.
    Compensated,
    /// A compensating action is currently pending or executing.
    Compensating,
}

/// The view of a replayable projection.
pub ghost struct ProjectionView {
    pub definition_id: Seq<char>,
    pub definition_version: Seq<char>,
    pub definition_digest: ContentDigest,
    pub next_step_index: usize,
    pub current_attempt: u32,
    pub retry_due_at: Option<LogicalTime>,
    pub active_action_id: Option<Seq<char>>,
    pub issued_action_ids: Seq<Seq<char>>,
    pub compensable_step_indices: Seq<usize>,
    pub status: SagaStatusV1,
}

/// A replayable process projection.
#[derive(Debug, PartialEq, Eq)]
pub struct LinearSagaProjectionV1 {
    /// Pinned immutable definition identity for this process instance.
    pub definition_id: DefinitionId,
    /// Pinned immutable definition version for this process instance.
    pub definition_version: DefinitionVersion,
    /// Pinned exact definition semantics digest for this process instance.
    pub definition_digest: ContentDigest,
    /// Index of the current step.
    pub next_step_index: usize,
    /// Zero-based attempt for the current step.
    pub current_attempt: u32,
    /// Due time while a retry timer is pending; no effect may run before it fires.
    pub retry_due_at: Option<LogicalTime>,
    /// Stable identity of the action whose result may advance this projection.
    pub active_action_id: Option<ActionId>,
    /// Every action identity issued by this process, in durable decision order.
    pub issued_action_ids: Vec<ActionId>,
    /// Succeeded forward steps with declared compensation, in success order.
    pub compensable_step_indices: Vec<usize>,
    /// Terminal/non-terminal process status.
    pub status: SagaStatusV1,
}

impl View for LinearSagaProjectionV1 {
    type V = ProjectionView;

    open spec fn view(&self) -> ProjectionView {
        ProjectionView {
            definition_id: self.definition_id@,
            definition_version: self.definition_version@,
            definition_digest: self.definition_digest,
            next_step_index: self.next_step_index,
            current_attempt: self.current_attempt,
            retry_due_at: self.retry_due_at,
            active_action_id: opt_view(self.active_action_id),
            issued_action_ids: views(self.issued_action_ids@),
            compensable_step_indices: self.compensable_step_indices@,
            status: self.status,
        }
    }
}

pub(crate) fn clone_optional_action_id(id: &Option<ActionId>) -> (copy: Option<ActionId>)
    ensures
        copy == *id,
{
    match id {
        Some(a) => Some(a.clone()),
        None => None,
    }
}

impl Clone for LinearSagaProjectionV1 {
    fn clone(&self) -> (copy: Self)
        ensures
            copy@ == self@,
    {
        let issued = self.issued_action_ids.clone();
        assert(issued@ == self.issued_action_ids@);
        let compensable = self.compensable_step_indices.clone();
        assert(compensable@ == self.compensable_step_indices@);
        LinearSagaProjectionV1 {
            definition_id: self.definition_id.clone(),
            definition_version: self.definition_version.clone(),
            definition_digest: self.definition_digest,
            next_step_index: self.next_step_index,
            current_attempt: self.current_attempt,
            retry_due_at: self.retry_due_at,
            active_action_id: clone_optional_action_id(&self.active_action_id),
            issued_action_ids: issued,
            compensable_step_indices: compensable,
            status: self.status,
        }
    }
}

/// Observed terminal action result supplied as data to the pure engine.
#[derive(Debug, Clone, Copy, PartialEq, Eq, Structural)]
pub enum ActionResultV1 {
    /// The current action completed successfully.
    Succeeded,
    /// The action failed and may be retried with a new idempotent attempt.
    RetryableFailure,
    /// The action failed permanently and requires escalation.
    TerminalFailure,
    /// External outcome is ambiguous and must be reconciled before retry.
    Unknown,
}

/// An action result correlated to the independently idempotent action that
/// produced it.
#[derive(Debug, PartialEq, Eq)]
pub struct ActionResultObservationV1 {
    /// The action identity reported by the external effect boundary.
    pub action_id: ActionId,
    /// The classified external result.
    pub result: ActionResultV1,
}

impl Clone for ActionResultObservationV1 {
    fn clone(&self) -> (copy: Self)
        ensures
            copy == *self,
    {
        ActionResultObservationV1 { action_id: self.action_id.clone(), result: self.result }
    }
}

impl ActionResultObservationV1 {
    /// Records a successful result for `action_id`.
    pub fn succeeded(action_id: ActionId) -> (observation: Self)
        ensures
            observation == (ActionResultObservationV1 {
                action_id,
                result: ActionResultV1::Succeeded,
            }),
    {
        ActionResultObservationV1 { action_id, result: ActionResultV1::Succeeded }
    }

    /// Records a retryable failure for `action_id`.
    pub fn retryable_failure(action_id: ActionId) -> (observation: Self)
        ensures
            observation == (ActionResultObservationV1 {
                action_id,
                result: ActionResultV1::RetryableFailure,
            }),
    {
        ActionResultObservationV1 { action_id, result: ActionResultV1::RetryableFailure }
    }

    /// Records an ambiguous result for `action_id`.
    pub fn unknown(action_id: ActionId) -> (observation: Self)
        ensures
            observation == (ActionResultObservationV1 { action_id, result: ActionResultV1::Unknown }),
    {
        ActionResultObservationV1 { action_id, result: ActionResultV1::Unknown }
    }

    /// Records a known terminal failure for `action_id`.
    pub fn terminal_failure(action_id: ActionId) -> (observation: Self)
        ensures
            observation == (ActionResultObservationV1 {
                action_id,
                result: ActionResultV1::TerminalFailure,
            }),
    {
        ActionResultObservationV1 { action_id, result: ActionResultV1::TerminalFailure }
    }
}

/// Typed input accepted by the pure linear-saga decision function.
#[derive(Debug, PartialEq, Eq)]
#[allow(inconsistent_fields)]
pub enum LinearSagaInputV1 {
    /// Start a previously absent process with its first action identity.
    Start {
        /// Fresh independently idempotent first action identity.
        action_id: ActionId,
    },
    /// Apply a durably observed action result to an existing projection.
    ActionResult {
        /// Correlated immutable effect result.
        observation: ActionResultObservationV1,
        /// Already-persisted fresh identity for a following action or retry.
        next_action_id: Option<ActionId>,
    },
    /// Record a retryable effect failure and durably plan its timer action.
    RetryTimerScheduled {
        /// Correlated retryable result for the active effect action.
        observation: ActionResultObservationV1,
        /// Fresh timer action identity.
        next_action_id: Option<ActionId>,
        /// Logical time at which the retryable result was durably observed.
        observed_at: LogicalTime,
    },
    /// Deliver one due retry timer firing and plan its next effect action.
    RetryTimerFired {
        /// Active timer action identity.
        timer_action_id: ActionId,
        /// Logical time at which the timer was delivered.
        fired_at: LogicalTime,
        /// Fresh independently idempotent identity for the retry effect action.
        next_action_id: ActionId,
    },
    /// Apply an already-authorized immutable manual-review resolution.
    ManualResolution {
        /// Typed resolution recorded by the manual-review port.
        resolution: ManualReviewResolutionV1,
        /// Fresh action identity when the resolution resumes work.
        next_action_id: Option<ActionId>,
    },
}

/// One immutable event from the linear engine's ordered process log.
#[derive(Debug, PartialEq, Eq)]
#[allow(inconsistent_fields)]
pub enum LinearSagaEventV1 {
    /// The durable process-start record and its first planned action identity.
    Started {
        /// Immutable definition identity selected when this process began.
        definition_id: DefinitionId,
        /// Immutable definition version selected when this process began.
        definition_version: DefinitionVersion,
        /// Exact definition semantics selected when this process began.
        definition_digest: ContentDigest,
        /// Identity for the first independently idempotent action.
        action_id: ActionId,
    },
    /// A recorded, correlated action result and the identity already planned
    /// for the next action, if that transition needs one.
    ActionResultObserved {
        /// Result accepted from the effect/canonical evidence boundary.
        observation: ActionResultObservationV1,
        /// Persisted identity for the following action or retry.
        next_action_id: Option<ActionId>,
    },
    /// A retryable effect result was recorded with a durable timer decision.
    RetryTimerScheduled {
        /// Correlated retryable result for the active effect action.
        observation: ActionResultObservationV1,
        /// Persisted timer action identity.
        next_action_id: Option<ActionId>,
        /// Logical time at which the retryable result was durably observed.
        observed_at: LogicalTime,
    },
    /// A due retry timer fired and unlocked its retry effect action.
    RetryTimerFired {
        /// Active timer action identity.
        timer_action_id: ActionId,
        /// Logical time at which the timer was delivered.
        fired_at: LogicalTime,
        /// Persisted fresh identity for the retry effect action.
        next_action_id: ActionId,
    },
    /// An authorized immutable manual-review resolution was accepted.
    ManualResolutionApplied {
        /// Typed operator resolution.
        resolution: ManualReviewResolutionV1,
        /// Persisted fresh action identity when the resolution resumes work.
        next_action_id: Option<ActionId>,
    },
}

impl Clone for LinearSagaEventV1 {
    fn clone(&self) -> (copy: Self)
        ensures
            copy == *self,
    {
        match self {
            LinearSagaEventV1::Started {
                definition_id,
                definition_version,
                definition_digest,
                action_id,
            } => LinearSagaEventV1::Started {
                definition_id: definition_id.clone(),
                definition_version: definition_version.clone(),
                definition_digest: *definition_digest,
                action_id: action_id.clone(),
            },
            LinearSagaEventV1::ActionResultObserved { observation, next_action_id } => {
                LinearSagaEventV1::ActionResultObserved {
                    observation: observation.clone(),
                    next_action_id: clone_optional_action_id(next_action_id),
                }
            },
            LinearSagaEventV1::RetryTimerScheduled { observation, next_action_id, observed_at } => {
                LinearSagaEventV1::RetryTimerScheduled {
                    observation: observation.clone(),
                    next_action_id: clone_optional_action_id(next_action_id),
                    observed_at: *observed_at,
                }
            },
            LinearSagaEventV1::RetryTimerFired { timer_action_id, fired_at, next_action_id } => {
                LinearSagaEventV1::RetryTimerFired {
                    timer_action_id: timer_action_id.clone(),
                    fired_at: *fired_at,
                    next_action_id: next_action_id.clone(),
                }
            },
            LinearSagaEventV1::ManualResolutionApplied { resolution, next_action_id } => {
                LinearSagaEventV1::ManualResolutionApplied {
                    resolution: *resolution,
                    next_action_id: clone_optional_action_id(next_action_id),
                }
            },
        }
    }
}

impl LinearSagaEventV1 {
    /// Records a start event pinned to the exact definition used by the process.
    pub fn started(definition: &LinearSagaDefinitionV1, action_id: ActionId) -> (event: Self)
        ensures
            event == (LinearSagaEventV1::Started {
                definition_id: definition.definition_id,
                definition_version: definition.definition_version,
                definition_digest: definition.definition_digest,
                action_id,
            }),
    {
        LinearSagaEventV1::Started {
            definition_id: definition.definition_id.clone(),
            definition_version: definition.definition_version.clone(),
            definition_digest: definition.definition_digest,
            action_id,
        }
    }
}

/// One sequenced immutable event from a process outcome log.
#[derive(Debug, PartialEq, Eq)]
pub struct LinearSagaEventEnvelopeV1 {
    /// Zero-based, contiguous event sequence for one process.
    pub sequence: u64,
    /// The event recorded at `sequence`.
    pub event: LinearSagaEventV1,
}

/// The view of a decision.
pub ghost struct DecisionView {
    pub projection: ProjectionView,
    pub next_action: Option<ActionView>,
}

/// A deterministic decision from a transition.
#[derive(Debug, PartialEq, Eq)]
pub struct SagaDecisionV1 {
    /// Resulting replayable projection.
    pub projection: LinearSagaProjectionV1,
    /// At most one next action for this linear reference engine.
    pub next_action: Option<ProcessAction>,
}

impl View for SagaDecisionV1 {
    type V = DecisionView;

    open spec fn view(&self) -> DecisionView {
        DecisionView { projection: self.projection@, next_action: opt_view(self.next_action) }
    }
}

impl SagaDecisionV1 {
    /// Returns the durable timer schedule required for a pending retry: the
    /// next action with the projection's due time, when both are present.
    ///
    /// The outer application must atomically persist this decision before it
    /// asks a scheduler to deliver the timer action.
    pub fn retry_timer_schedule(&self) -> (schedule: Option<TimerScheduleV1>)
        ensures
            schedule is Some <==> (self.next_action is Some && self.projection.retry_due_at is Some),
            schedule matches Some(s) ==> s.action == self.next_action.unwrap() && s.due_at
                == self.projection.retry_due_at.unwrap(),
    {
        match (&self.next_action, self.projection.retry_due_at) {
            (Some(action), Some(due_at)) => Some(TimerScheduleV1 { action: action.clone(), due_at }),
            _ => None,
        }
    }
}

/// The view of a decision result.
pub open spec fn decision_result(r: Result<SagaDecisionV1, EngineError>) -> Result<
    DecisionView,
    EngineError,
> {
    match r {
        Ok(d) => Ok(d@),
        Err(e) => Err(e),
    }
}

/// Engine invariant failure.
#[derive(Debug, Clone, Copy, PartialEq, Eq, Structural)]
pub enum EngineError {
    /// A retry backoff's first delay exceeds its configured maximum delay.
    InvalidRetryBackoff,
    /// A calculated retry due time exceeds the logical time range.
    RetryDueTimeOverflow,
    /// A definition has no executable steps.
    EmptyDefinition,
    /// A definition exceeds the bounded executable step limit.
    DefinitionStepLimitExceeded,
    /// A definition declares the same step identity more than once.
    DuplicateStepId,
    /// A projection points outside the pinned definition.
    InvalidProjection,
    /// A transition was requested after a terminal state.
    TerminalProjection,
    /// Retrying the action would overflow its bounded attempt number.
    AttemptOverflow,
    /// The observed result does not belong to the projection's active action.
    UnexpectedAction,
    /// A non-terminal transition did not receive an ID for its next action.
    MissingNextAction,
    /// A transition attempted to reuse an action identity from this process.
    ReusedActionId,
    /// An ordered log had no durable start record.
    MissingStart,
    /// An ordered log attempted to start an existing process again.
    DuplicateStart,
    /// An event log is not zero-based and contiguous.
    InvalidEventSequence,
    /// The event sequence cannot be advanced without overflow.
    EventSequenceOverflow,
    /// The supplied definition does not match the process's pinned definition.
    DefinitionMismatch,
    /// A result input requires a projection rebuilt from durable outcomes.
    MissingProjection,
    /// A start input may not replace an existing projection.
    StartWithProjection,
    /// A backoff-enabled retry must be recorded through a timer decision.
    RetryTimerRequired,
    /// A retry timer was requested for a policy without backoff timing.
    RetryTimerNotConfigured,
    /// A retry timer was requested although the retry budget is exhausted.
    RetryTimerNotRequired,
    /// A non-retryable result attempted to schedule a retry timer.
    RetryTimerRequiresRetryableFailure,
    /// A normal action-result transition attempted to consume a pending timer.
    RetryTimerMustFire,
    /// A timer firing did not match the pending timer action.
    UnexpectedRetryTimer,
    /// A timer firing was delivered before its durable due time.
    RetryTimerFiredEarly,
    /// A manual resolution was supplied for a process that is not escalated.
    ManualResolutionRequiresEscalation,
}

// ---------------------------------------------------------------------------
// The meaning of every transition, over views.
// ---------------------------------------------------------------------------

/// Whether the projection is pinned to exactly this definition.
pub open spec fn pinned_to(d: DefinitionView, p: ProjectionView) -> bool {
    &&& p.definition_id == d.definition_id
    &&& p.definition_version == d.definition_version
    &&& p.definition_digest == d.definition_digest
}

/// The step, kind and payload the projection's active action runs: the
/// current step's timer while a retry is pending, the most recent
/// compensable step's compensation while compensating, otherwise the current
/// step.
pub open spec fn spec_action_parts(d: DefinitionView, p: ProjectionView) -> Result<
    (Seq<char>, ProcessActionKind, ContentDigest),
    EngineError,
> {
    if p.retry_due_at is Some {
        if p.next_step_index < d.steps.len() {
            let step = d.steps[p.next_step_index as int];
            Ok((step.step_id, ProcessActionKind::Timer, step.payload_digest))
        } else {
            Err(EngineError::InvalidProjection)
        }
    } else if p.status == SagaStatusV1::Compensating {
        if p.compensable_step_indices.len() == 0 {
            Err(EngineError::InvalidProjection)
        } else {
            let index = p.compensable_step_indices.last();
            if index < d.steps.len() {
                match d.steps[index as int].compensation {
                    Some(c) => Ok((d.steps[index as int].step_id, c.action_kind, c.payload_digest)),
                    None => Err(EngineError::InvalidProjection),
                }
            } else {
                Err(EngineError::InvalidProjection)
            }
        }
    } else {
        if p.next_step_index < d.steps.len() {
            let step = d.steps[p.next_step_index as int];
            Ok((step.step_id, step.action_kind, step.payload_digest))
        } else {
            Err(EngineError::InvalidProjection)
        }
    }
}

/// The action planned for the projection's active action identity, scoped
/// to the tenant, process and the projection's pinned definition.
pub open spec fn spec_action_for(
    d: DefinitionView,
    p: ProjectionView,
    tenant: Seq<char>,
    process: Seq<char>,
) -> Result<ActionView, EngineError> {
    match spec_action_parts(d, p) {
        Err(e) => Err(e),
        Ok(parts) => match p.active_action_id {
            None => Err(EngineError::InvalidProjection),
            Some(action_id) => Ok(
                ActionView {
                    scope: ScopeView {
                        tenant_id: tenant,
                        process_id: process,
                        definition_id: p.definition_id,
                        definition_version: p.definition_version,
                        definition_digest: p.definition_digest,
                    },
                    action_id,
                    step_id: parts.0,
                    attempt: p.current_attempt,
                    kind: parts.1,
                    payload_digest: parts.2,
                },
            ),
        },
    }
}

/// A fresh identity for the next action: it must be supplied and never
/// issued before by this process.
pub open spec fn spec_fresh_action_id(p: ProjectionView, next: Option<Seq<char>>) -> Result<
    Seq<char>,
    EngineError,
> {
    match next {
        None => Err(EngineError::MissingNextAction),
        Some(a) => if p.issued_action_ids.contains(a) {
            Err(EngineError::ReusedActionId)
        } else {
            Ok(a)
        },
    }
}

/// The decision that continues with `p` and plans its active action.
pub open spec fn spec_continue(
    d: DefinitionView,
    p: ProjectionView,
    tenant: Seq<char>,
    process: Seq<char>,
) -> Result<DecisionView, EngineError> {
    match spec_action_for(d, p, tenant, process) {
        Ok(action) => Ok(DecisionView { projection: p, next_action: Some(action) }),
        Err(e) => Err(e),
    }
}

/// The decision that stops at `p` with no action.
pub open spec fn spec_stop(p: ProjectionView) -> Result<DecisionView, EngineError> {
    Ok(DecisionView { projection: p, next_action: None })
}

/// `p` at a terminal or paused status: no active action.
pub open spec fn spec_terminal(
    p: ProjectionView,
    next_step_index: usize,
    compensable: Seq<usize>,
    status: SagaStatusV1,
) -> ProjectionView {
    ProjectionView {
        next_step_index,
        active_action_id: None,
        compensable_step_indices: compensable,
        status,
        ..p
    }
}

/// `p` with a freshly issued active action.
pub open spec fn spec_issue(p: ProjectionView, action_id: Seq<char>) -> ProjectionView {
    ProjectionView {
        active_action_id: Some(action_id),
        issued_action_ids: p.issued_action_ids.push(action_id),
        ..p
    }
}

/// Starting a process: a valid definition, step zero, attempt zero, the
/// first action issued and planned.
pub open spec fn spec_start(
    d: DefinitionView,
    tenant: Seq<char>,
    process: Seq<char>,
    action_id: Seq<char>,
) -> Result<DecisionView, EngineError> {
    match spec_validate_definition(d) {
        Err(e) => Err(e),
        Ok(_) => spec_continue(
            d,
            ProjectionView {
                definition_id: d.definition_id,
                definition_version: d.definition_version,
                definition_digest: d.definition_digest,
                next_step_index: 0,
                current_attempt: 0,
                retry_due_at: None,
                active_action_id: Some(action_id),
                issued_action_ids: seq![action_id],
                compensable_step_indices: Seq::empty(),
                status: SagaStatusV1::Running,
            },
            tenant,
            process,
        ),
    }
}

/// Entering compensation: with nothing to compensate the process escalates;
/// otherwise the most recent compensable step's compensation is planned.
pub open spec fn spec_begin_compensation(
    d: DefinitionView,
    p: ProjectionView,
    tenant: Seq<char>,
    process: Seq<char>,
    next: Option<Seq<char>>,
) -> Result<DecisionView, EngineError> {
    if p.compensable_step_indices.len() == 0 {
        spec_stop(spec_terminal(p, p.next_step_index, Seq::empty(), SagaStatusV1::Escalated))
    } else {
        match spec_fresh_action_id(p, next) {
            Err(e) => Err(e),
            Ok(a) => spec_continue(
                d,
                spec_issue(
                    ProjectionView { current_attempt: 0, status: SagaStatusV1::Compensating, ..p },
                    a,
                ),
                tenant,
                process,
            ),
        }
    }
}

/// A forward step's result: success advances (or completes after the last
/// step), a retryable failure retries within its attempt budget and
/// compensates once exhausted, a known terminal failure compensates, and an
/// unknown result escalates without any new action.
pub open spec fn spec_forward_result(
    d: DefinitionView,
    p: ProjectionView,
    tenant: Seq<char>,
    process: Seq<char>,
    result: ActionResultV1,
    next: Option<Seq<char>>,
) -> Result<DecisionView, EngineError> {
    match result {
        ActionResultV1::Succeeded => {
            if p.next_step_index >= d.steps.len() {
                Err(EngineError::InvalidProjection)
            } else {
                let step = d.steps[p.next_step_index as int];
                let compensable = if step.compensation is Some {
                    p.compensable_step_indices.push(p.next_step_index)
                } else {
                    p.compensable_step_indices
                };
                let next_step_index = (p.next_step_index + 1) as usize;
                if next_step_index == d.steps.len() {
                    spec_stop(
                        spec_terminal(p, next_step_index, compensable, SagaStatusV1::Completed),
                    )
                } else {
                    match spec_fresh_action_id(p, next) {
                        Err(e) => Err(e),
                        Ok(a) => spec_continue(
                            d,
                            spec_issue(
                                ProjectionView {
                                    next_step_index,
                                    current_attempt: 0,
                                    compensable_step_indices: compensable,
                                    status: SagaStatusV1::Running,
                                    ..p
                                },
                                a,
                            ),
                            tenant,
                            process,
                        ),
                    }
                }
            }
        },
        ActionResultV1::RetryableFailure => {
            if p.next_step_index >= d.steps.len() {
                Err(EngineError::InvalidProjection)
            } else if p.current_attempt == u32::MAX {
                Err(EngineError::AttemptOverflow)
            } else {
                let step = d.steps[p.next_step_index as int];
                let attempt = (p.current_attempt + 1) as u32;
                if attempt >= step.retry_policy.max_attempts {
                    spec_begin_compensation(d, p, tenant, process, next)
                } else if step.retry_policy.backoff is Some {
                    Err(EngineError::RetryTimerRequired)
                } else {
                    match spec_fresh_action_id(p, next) {
                        Err(e) => Err(e),
                        Ok(a) => spec_continue(
                            d,
                            spec_issue(
                                ProjectionView {
                                    current_attempt: attempt,
                                    status: SagaStatusV1::Running,
                                    ..p
                                },
                                a,
                            ),
                            tenant,
                            process,
                        ),
                    }
                }
            }
        },
        ActionResultV1::TerminalFailure => spec_begin_compensation(d, p, tenant, process, next),
        ActionResultV1::Unknown => spec_stop(
            spec_terminal(
                p,
                p.next_step_index,
                p.compensable_step_indices,
                SagaStatusV1::Escalated,
            ),
        ),
    }
}

/// The compensation plan of the most recent compensable step.
pub open spec fn spec_compensation_for(d: DefinitionView, p: ProjectionView) -> Result<
    CompensationPlanV1,
    EngineError,
> {
    if p.compensable_step_indices.len() == 0 {
        Err(EngineError::InvalidProjection)
    } else {
        let index = p.compensable_step_indices.last();
        if index < d.steps.len() {
            match d.steps[index as int].compensation {
                Some(c) => Ok(c),
                None => Err(EngineError::InvalidProjection),
            }
        } else {
            Err(EngineError::InvalidProjection)
        }
    }
}

/// A compensating action's result: success pops that step (compensated
/// after the last one, otherwise the next most recent is planned), a
/// retryable failure retries within the compensation's budget and escalates
/// once exhausted, and a terminal or unknown result escalates.
pub open spec fn spec_compensation_result(
    d: DefinitionView,
    p: ProjectionView,
    tenant: Seq<char>,
    process: Seq<char>,
    result: ActionResultV1,
    next: Option<Seq<char>>,
) -> Result<DecisionView, EngineError> {
    match spec_compensation_for(d, p) {
        Err(e) => Err(e),
        Ok(compensation) => match result {
            ActionResultV1::Succeeded => {
                let remaining = p.compensable_step_indices.drop_last();
                if remaining.len() == 0 {
                    spec_stop(
                        spec_terminal(p, p.next_step_index, remaining, SagaStatusV1::Compensated),
                    )
                } else {
                    match spec_fresh_action_id(p, next) {
                        Err(e) => Err(e),
                        Ok(a) => spec_continue(
                            d,
                            spec_issue(
                                ProjectionView {
                                    current_attempt: 0,
                                    compensable_step_indices: remaining,
                                    status: SagaStatusV1::Compensating,
                                    ..p
                                },
                                a,
                            ),
                            tenant,
                            process,
                        ),
                    }
                }
            },
            ActionResultV1::RetryableFailure => {
                if p.current_attempt == u32::MAX {
                    Err(EngineError::AttemptOverflow)
                } else {
                    let attempt = (p.current_attempt + 1) as u32;
                    if attempt >= compensation.retry_policy.max_attempts {
                        spec_stop(
                            spec_terminal(
                                p,
                                p.next_step_index,
                                p.compensable_step_indices,
                                SagaStatusV1::Escalated,
                            ),
                        )
                    } else if compensation.retry_policy.backoff is Some {
                        Err(EngineError::RetryTimerRequired)
                    } else {
                        match spec_fresh_action_id(p, next) {
                            Err(e) => Err(e),
                            Ok(a) => spec_continue(
                                d,
                                spec_issue(
                                    ProjectionView {
                                        current_attempt: attempt,
                                        status: SagaStatusV1::Compensating,
                                        ..p
                                    },
                                    a,
                                ),
                                tenant,
                                process,
                            ),
                        }
                    }
                }
            },
            _ => spec_stop(
                spec_terminal(
                    p,
                    p.next_step_index,
                    p.compensable_step_indices,
                    SagaStatusV1::Escalated,
                ),
            ),
        },
    }
}

/// Applying an observed result: the definition must be valid and pinned,
/// the process running or compensating, the step in range, the result for
/// the active action, and no retry timer pending.
pub open spec fn spec_apply_action_result(
    d: DefinitionView,
    p: ProjectionView,
    tenant: Seq<char>,
    process: Seq<char>,
    observed: Seq<char>,
    result: ActionResultV1,
    next: Option<Seq<char>>,
) -> Result<DecisionView, EngineError> {
    if spec_validate_definition(d) is Err {
        Err(spec_validate_definition(d)->Err_0)
    } else if !pinned_to(d, p) {
        Err(EngineError::DefinitionMismatch)
    } else if p.status != SagaStatusV1::Running && p.status != SagaStatusV1::Compensating {
        Err(EngineError::TerminalProjection)
    } else if p.next_step_index >= d.steps.len() {
        Err(EngineError::InvalidProjection)
    } else if p.active_action_id != Some(observed) {
        Err(EngineError::UnexpectedAction)
    } else if p.retry_due_at is Some {
        Err(EngineError::RetryTimerMustFire)
    } else if p.status == SagaStatusV1::Running {
        spec_forward_result(d, p, tenant, process, result, next)
    } else {
        spec_compensation_result(d, p, tenant, process, result, next)
    }
}

/// Recording a retryable failure behind a durable retry timer: the timer
/// action is planned for the current step, due at the backoff delay after
/// `observed_at`, and no effect runs until it fires.
pub open spec fn spec_schedule_retry_timer(
    d: DefinitionView,
    p: ProjectionView,
    tenant: Seq<char>,
    process: Seq<char>,
    observed: Seq<char>,
    result: ActionResultV1,
    next: Option<Seq<char>>,
    observed_at: LogicalTime,
) -> Result<DecisionView, EngineError> {
    if spec_validate_definition(d) is Err {
        Err(spec_validate_definition(d)->Err_0)
    } else if !pinned_to(d, p) {
        Err(EngineError::DefinitionMismatch)
    } else if p.status != SagaStatusV1::Running {
        Err(EngineError::TerminalProjection)
    } else if p.next_step_index >= d.steps.len() {
        Err(EngineError::InvalidProjection)
    } else if p.active_action_id != Some(observed) {
        Err(EngineError::UnexpectedAction)
    } else if p.retry_due_at is Some {
        Err(EngineError::RetryTimerMustFire)
    } else if result != ActionResultV1::RetryableFailure {
        Err(EngineError::RetryTimerRequiresRetryableFailure)
    } else {
        let step = d.steps[p.next_step_index as int];
        if step.retry_policy.backoff is None {
            Err(EngineError::RetryTimerNotConfigured)
        } else if p.current_attempt == u32::MAX {
            Err(EngineError::AttemptOverflow)
        } else if (p.current_attempt + 1) as u32 >= step.retry_policy.max_attempts {
            Err(EngineError::RetryTimerNotRequired)
        } else {
            match spec_retry_due_at(step.retry_policy, observed_at, p.current_attempt) {
                Err(e) => Err(e),
                Ok(None) => Err(EngineError::RetryTimerNotConfigured),
                Ok(Some(due_at)) => match spec_fresh_action_id(p, next) {
                    Err(e) => Err(e),
                    Ok(a) => spec_continue(
                        d,
                        spec_issue(
                            ProjectionView {
                                current_attempt: (p.current_attempt + 1) as u32,
                                retry_due_at: Some(due_at),
                                ..p
                            },
                            a,
                        ),
                        tenant,
                        process,
                    ),
                },
            }
        }
    }
}

/// Delivering a due retry timer: it must be the active timer action, fire
/// no earlier than its due time, and unlock a fresh retry action.
pub open spec fn spec_fire_retry_timer(
    d: DefinitionView,
    p: ProjectionView,
    tenant: Seq<char>,
    process: Seq<char>,
    timer_action_id: Seq<char>,
    fired_at: LogicalTime,
    next: Seq<char>,
) -> Result<DecisionView, EngineError> {
    if spec_validate_definition(d) is Err {
        Err(spec_validate_definition(d)->Err_0)
    } else if !pinned_to(d, p) {
        Err(EngineError::DefinitionMismatch)
    } else if p.status != SagaStatusV1::Running {
        Err(EngineError::TerminalProjection)
    } else if p.next_step_index >= d.steps.len() {
        Err(EngineError::InvalidProjection)
    } else if p.active_action_id != Some(timer_action_id) {
        Err(EngineError::UnexpectedRetryTimer)
    } else {
        match p.retry_due_at {
            None => Err(EngineError::UnexpectedRetryTimer),
            Some(due_at) => if fired_at.0 < due_at.0 {
                Err(EngineError::RetryTimerFiredEarly)
            } else {
                match spec_fresh_action_id(p, Some(next)) {
                    Err(e) => Err(e),
                    Ok(a) => spec_continue(
                        d,
                        spec_issue(ProjectionView { retry_due_at: None, ..p }, a),
                        tenant,
                        process,
                    ),
                }
            },
        }
    }
}

/// Applying an authorized manual resolution to an escalated process: retry
/// resumes the current step, compensate starts compensation (or cancels
/// when nothing is compensable), cancel cancels, escalate keeps the
/// projection unchanged.
pub open spec fn spec_apply_manual_resolution(
    d: DefinitionView,
    p: ProjectionView,
    tenant: Seq<char>,
    process: Seq<char>,
    resolution: ManualReviewResolutionV1,
    next: Option<Seq<char>>,
) -> Result<DecisionView, EngineError> {
    if spec_validate_definition(d) is Err {
        Err(spec_validate_definition(d)->Err_0)
    } else if !pinned_to(d, p) {
        Err(EngineError::DefinitionMismatch)
    } else if p.status != SagaStatusV1::Escalated {
        Err(EngineError::ManualResolutionRequiresEscalation)
    } else if p.next_step_index >= d.steps.len() {
        Err(EngineError::InvalidProjection)
    } else {
        match resolution {
            ManualReviewResolutionV1::RetryAction => match spec_fresh_action_id(p, next) {
                Err(e) => Err(e),
                Ok(a) => spec_continue(
                    d,
                    spec_issue(ProjectionView { status: SagaStatusV1::Running, ..p }, a),
                    tenant,
                    process,
                ),
            },
            ManualReviewResolutionV1::Compensate => {
                if p.compensable_step_indices.len() == 0 {
                    spec_stop(
                        spec_terminal(p, p.next_step_index, Seq::empty(), SagaStatusV1::Cancelled),
                    )
                } else {
                    match spec_fresh_action_id(p, next) {
                        Err(e) => Err(e),
                        Ok(a) => spec_continue(
                            d,
                            spec_issue(
                                ProjectionView {
                                    current_attempt: 0,
                                    status: SagaStatusV1::Compensating,
                                    ..p
                                },
                                a,
                            ),
                            tenant,
                            process,
                        ),
                    }
                }
            },
            ManualReviewResolutionV1::Cancel => spec_stop(
                spec_terminal(
                    p,
                    p.next_step_index,
                    p.compensable_step_indices,
                    SagaStatusV1::Cancelled,
                ),
            ),
            ManualReviewResolutionV1::Escalate => spec_stop(p),
        }
    }
}

// ---------------------------------------------------------------------------
// Executable transitions.
// ---------------------------------------------------------------------------

fn same_action_id(active: &Option<ActionId>, observed: &ActionId) -> (same: bool)
    ensures
        same == (opt_view(*active) == Some(observed@)),
{
    match active {
        Some(a) => *a == *observed,
        None => false,
    }
}

fn check_pinned(definition: &LinearSagaDefinitionV1, projection: &LinearSagaProjectionV1) -> (pinned:
    bool)
    ensures
        pinned == pinned_to(definition@, projection@),
{
    projection.definition_id == definition.definition_id && projection.definition_version
        == definition.definition_version && projection.definition_digest
        == definition.definition_digest
}

pub(crate) fn issued_contains(issued: &Vec<ActionId>, action_id: &ActionId) -> (found: bool)
    ensures
        found == views(issued@).contains(action_id@),
{
    let ghost iv = views(issued@);
    let mut i: usize = 0;
    while i < issued.len()
        invariant
            0 <= i <= issued.len(),
            iv == views(issued@),
            iv.len() == issued@.len(),
            forall|j: int| 0 <= j < i ==> iv[j] != action_id@,
        decreases issued.len() - i,
    {
        assert(iv[i as int] == issued@[i as int]@);
        if issued[i] == *action_id {
            assert(iv[i as int] == action_id@);
            return true;
        }
        i = i + 1;
    }
    false
}

fn fresh_action_id(projection: &LinearSagaProjectionV1, next_action_id: Option<ActionId>) -> (result:
    Result<ActionId, EngineError>)
    ensures
        match result {
            Ok(a) => spec_fresh_action_id(projection@, opt_view(next_action_id)) == Ok::<
                Seq<char>,
                EngineError,
            >(a@),
            Err(e) => spec_fresh_action_id(projection@, opt_view(next_action_id)) == Err::<
                Seq<char>,
                EngineError,
            >(e),
        },
{
    match next_action_id {
        None => Err(EngineError::MissingNextAction),
        Some(action_id) => {
            if issued_contains(&projection.issued_action_ids, &action_id) {
                Err(EngineError::ReusedActionId)
            } else {
                Ok(action_id)
            }
        },
    }
}

fn issued_ids_after(projection: &LinearSagaProjectionV1, action_id: ActionId) -> (ids: Vec<ActionId>)
    ensures
        views(ids@) == views(projection.issued_action_ids@).push(action_id@),
{
    let mut ids = projection.issued_action_ids.clone();
    assert(ids@ == projection.issued_action_ids@);
    let ghost before = ids@;
    ids.push(action_id);
    assert(views(ids@) =~= views(before).push(action_id@));
    ids
}

fn terminal_projection(
    projection: &LinearSagaProjectionV1,
    next_step_index: usize,
    compensable_step_indices: Vec<usize>,
    status: SagaStatusV1,
) -> (terminal: LinearSagaProjectionV1)
    ensures
        terminal@ == spec_terminal(
            projection@,
            next_step_index,
            compensable_step_indices@,
            status,
        ),
{
    let copy = projection.clone();
    LinearSagaProjectionV1 {
        next_step_index,
        active_action_id: None,
        compensable_step_indices,
        status,
        ..copy
    }
}

/// `projection` with `action_id` issued and active, and the given position,
/// attempt, compensable steps, pending timer and status.
fn issued_projection(
    projection: &LinearSagaProjectionV1,
    action_id: ActionId,
    next_step_index: usize,
    current_attempt: u32,
    retry_due_at: Option<LogicalTime>,
    compensable_step_indices: Vec<usize>,
    status: SagaStatusV1,
) -> (issued: LinearSagaProjectionV1)
    ensures
        issued@ == spec_issue(
            ProjectionView {
                next_step_index,
                current_attempt,
                retry_due_at,
                compensable_step_indices: compensable_step_indices@,
                status,
                ..projection@
            },
            action_id@,
        ),
{
    let copy = projection.clone();
    let active = action_id.clone();
    let ids = issued_ids_after(projection, action_id);
    LinearSagaProjectionV1 {
        next_step_index,
        current_attempt,
        retry_due_at,
        active_action_id: Some(active),
        issued_action_ids: ids,
        compensable_step_indices,
        status,
        ..copy
    }
}

fn action_for(
    definition: &LinearSagaDefinitionV1,
    projection: &LinearSagaProjectionV1,
    tenant_id: TenantId,
    process_id: ProcessId,
) -> (result: Result<ProcessAction, EngineError>)
    ensures
        match result {
            Ok(a) => spec_action_for(definition@, projection@, tenant_id@, process_id@) == Ok::<
                ActionView,
                EngineError,
            >(a@),
            Err(e) => spec_action_for(definition@, projection@, tenant_id@, process_id@) == Err::<
                ActionView,
                EngineError,
            >(e),
        },
{
    let ghost d = definition@;
    assert(d.steps.len() == definition.steps@.len());
    let step_id;
    let action_kind;
    let payload_digest;
    if projection.retry_due_at.is_some() {
        if projection.next_step_index >= definition.steps.len() {
            return Err(EngineError::InvalidProjection);
        }
        let step = &definition.steps[projection.next_step_index];
        assert(d.steps[projection.next_step_index as int] == step@);
        step_id = step.step_id.clone();
        action_kind = ProcessActionKind::Timer;
        payload_digest = step.payload_digest;
    } else if projection.status == SagaStatusV1::Compensating {
        let count = projection.compensable_step_indices.len();
        if count == 0 {
            return Err(EngineError::InvalidProjection);
        }
        let index = projection.compensable_step_indices[count - 1];
        if index >= definition.steps.len() {
            return Err(EngineError::InvalidProjection);
        }
        let step = &definition.steps[index];
        assert(d.steps[index as int] == step@);
        match step.compensation {
            Some(compensation) => {
                step_id = step.step_id.clone();
                action_kind = compensation.action_kind;
                payload_digest = compensation.payload_digest;
            },
            None => {
                return Err(EngineError::InvalidProjection);
            },
        }
    } else {
        if projection.next_step_index >= definition.steps.len() {
            return Err(EngineError::InvalidProjection);
        }
        let step = &definition.steps[projection.next_step_index];
        assert(d.steps[projection.next_step_index as int] == step@);
        step_id = step.step_id.clone();
        action_kind = step.action_kind;
        payload_digest = step.payload_digest;
    }
    let action_id = match &projection.active_action_id {
        Some(a) => a.clone(),
        None => {
            return Err(EngineError::InvalidProjection);
        },
    };
    let scope = ProcessScope::new(
        tenant_id,
        process_id,
        projection.definition_id.clone(),
        projection.definition_version.clone(),
        projection.definition_digest,
    );
    Ok(
        ProcessAction::new(
            scope,
            action_id,
            step_id,
            projection.current_attempt,
            action_kind,
            payload_digest,
        ),
    )
}

/// Plans the decision that continues with `projection`.
fn continue_with(
    definition: &LinearSagaDefinitionV1,
    projection: LinearSagaProjectionV1,
    tenant_id: TenantId,
    process_id: ProcessId,
) -> (result: Result<SagaDecisionV1, EngineError>)
    ensures
        decision_result(result) == spec_continue(
            definition@,
            projection@,
            tenant_id@,
            process_id@,
        ),
{
    match action_for(definition, &projection, tenant_id, process_id) {
        Ok(action) => Ok(SagaDecisionV1 { projection, next_action: Some(action) }),
        Err(e) => Err(e),
    }
}

/// Makes one deterministic, side-effect-free linear-saga decision.
///
/// The outer application must durably record the accepted input and resulting
/// decision before dispatching `next_action`. This function neither reads time
/// nor performs I/O.
pub fn decide(
    definition: &LinearSagaDefinitionV1,
    projection: Option<&LinearSagaProjectionV1>,
    tenant_id: TenantId,
    process_id: ProcessId,
    input: &LinearSagaInputV1,
) -> (result: Result<SagaDecisionV1, EngineError>)
    ensures
        decision_result(result) == match input {
            LinearSagaInputV1::Start { action_id } => match projection {
                Some(_) => Err(EngineError::StartWithProjection),
                None => spec_start(definition@, tenant_id@, process_id@, action_id@),
            },
            LinearSagaInputV1::ActionResult { observation, next_action_id } => match projection {
                None => Err(EngineError::MissingProjection),
                Some(p) => spec_apply_action_result(
                    definition@,
                    p@,
                    tenant_id@,
                    process_id@,
                    observation.action_id@,
                    observation.result,
                    opt_view(*next_action_id),
                ),
            },
            LinearSagaInputV1::RetryTimerScheduled { observation, next_action_id, observed_at } => {
                match projection {
                    None => Err(EngineError::MissingProjection),
                    Some(p) => spec_schedule_retry_timer(
                        definition@,
                        p@,
                        tenant_id@,
                        process_id@,
                        observation.action_id@,
                        observation.result,
                        opt_view(*next_action_id),
                        *observed_at,
                    ),
                }
            },
            LinearSagaInputV1::RetryTimerFired { timer_action_id, fired_at, next_action_id } => {
                match projection {
                    None => Err(EngineError::MissingProjection),
                    Some(p) => spec_fire_retry_timer(
                        definition@,
                        p@,
                        tenant_id@,
                        process_id@,
                        timer_action_id@,
                        *fired_at,
                        next_action_id@,
                    ),
                }
            },
            LinearSagaInputV1::ManualResolution { resolution, next_action_id } => match projection {
                None => Err(EngineError::MissingProjection),
                Some(p) => spec_apply_manual_resolution(
                    definition@,
                    p@,
                    tenant_id@,
                    process_id@,
                    *resolution,
                    opt_view(*next_action_id),
                ),
            },
        },
{
    match input {
        LinearSagaInputV1::Start { action_id } => {
            if projection.is_some() {
                return Err(EngineError::StartWithProjection);
            }
            start(definition, tenant_id, process_id, action_id.clone())
        },
        LinearSagaInputV1::ActionResult { observation, next_action_id } => match projection {
            None => Err(EngineError::MissingProjection),
            Some(p) => apply_action_result(
                definition,
                p,
                tenant_id,
                process_id,
                observation,
                clone_optional_action_id(next_action_id),
            ),
        },
        LinearSagaInputV1::RetryTimerScheduled { observation, next_action_id, observed_at } => {
            match projection {
                None => Err(EngineError::MissingProjection),
                Some(p) => schedule_retry_timer(
                    definition,
                    p,
                    tenant_id,
                    process_id,
                    observation,
                    clone_optional_action_id(next_action_id),
                    *observed_at,
                ),
            }
        },
        LinearSagaInputV1::RetryTimerFired { timer_action_id, fired_at, next_action_id } => {
            match projection {
                None => Err(EngineError::MissingProjection),
                Some(p) => fire_retry_timer(
                    definition,
                    p,
                    tenant_id,
                    process_id,
                    timer_action_id,
                    *fired_at,
                    next_action_id.clone(),
                ),
            }
        },
        LinearSagaInputV1::ManualResolution { resolution, next_action_id } => match projection {
            None => Err(EngineError::MissingProjection),
            Some(p) => apply_manual_resolution(
                definition,
                p,
                tenant_id,
                process_id,
                *resolution,
                clone_optional_action_id(next_action_id),
            ),
        },
    }
}

/// Plans the first durable action for a newly created process.
pub fn start(
    definition: &LinearSagaDefinitionV1,
    tenant_id: TenantId,
    process_id: ProcessId,
    action_id: ActionId,
) -> (result: Result<SagaDecisionV1, EngineError>)
    ensures
        decision_result(result) == spec_start(definition@, tenant_id@, process_id@, action_id@),
{
    match definition.validate() {
        Err(e) => {
            return Err(e);
        },
        Ok(()) => {},
    }
    let active = action_id.clone();
    let mut issued: Vec<ActionId> = Vec::new();
    issued.push(action_id);
    let projection = LinearSagaProjectionV1 {
        definition_id: definition.definition_id.clone(),
        definition_version: definition.definition_version.clone(),
        definition_digest: definition.definition_digest,
        next_step_index: 0,
        current_attempt: 0,
        retry_due_at: None,
        active_action_id: Some(active),
        issued_action_ids: issued,
        compensable_step_indices: Vec::new(),
        status: SagaStatusV1::Running,
    };
    assert(projection@.issued_action_ids =~= seq![active@]);
    assert(projection@.compensable_step_indices =~= Seq::<usize>::empty());
    continue_with(definition, projection, tenant_id, process_id)
}

/// Applies one observed action result and plans the next action when safe.
///
/// An unknown result deliberately escalates: retries require reconciliation
/// evidence and cannot be inferred by this pure function.
pub fn apply_action_result(
    definition: &LinearSagaDefinitionV1,
    projection: &LinearSagaProjectionV1,
    tenant_id: TenantId,
    process_id: ProcessId,
    observation: &ActionResultObservationV1,
    next_action_id: Option<ActionId>,
) -> (result: Result<SagaDecisionV1, EngineError>)
    ensures
        decision_result(result) == spec_apply_action_result(
            definition@,
            projection@,
            tenant_id@,
            process_id@,
            observation.action_id@,
            observation.result,
            opt_view(next_action_id),
        ),
{
    match definition.validate() {
        Err(e) => {
            return Err(e);
        },
        Ok(()) => {},
    }
    if !check_pinned(definition, projection) {
        return Err(EngineError::DefinitionMismatch);
    }
    if projection.status != SagaStatusV1::Running && projection.status
        != SagaStatusV1::Compensating {
        return Err(EngineError::TerminalProjection);
    }
    if projection.next_step_index >= definition.steps.len() {
        return Err(EngineError::InvalidProjection);
    }
    if !same_action_id(&projection.active_action_id, &observation.action_id) {
        return Err(EngineError::UnexpectedAction);
    }
    if projection.retry_due_at.is_some() {
        return Err(EngineError::RetryTimerMustFire);
    }
    if projection.status == SagaStatusV1::Running {
        apply_forward_result(
            definition,
            projection,
            tenant_id,
            process_id,
            observation.result,
            next_action_id,
        )
    } else {
        apply_compensation_result(
            definition,
            projection,
            tenant_id,
            process_id,
            observation.result,
            next_action_id,
        )
    }
}

/// Records a retryable result and plans a durable timer instead of dispatching
/// the retry effect immediately.
pub fn schedule_retry_timer(
    definition: &LinearSagaDefinitionV1,
    projection: &LinearSagaProjectionV1,
    tenant_id: TenantId,
    process_id: ProcessId,
    observation: &ActionResultObservationV1,
    next_action_id: Option<ActionId>,
    observed_at: LogicalTime,
) -> (result: Result<SagaDecisionV1, EngineError>)
    ensures
        decision_result(result) == spec_schedule_retry_timer(
            definition@,
            projection@,
            tenant_id@,
            process_id@,
            observation.action_id@,
            observation.result,
            opt_view(next_action_id),
            observed_at,
        ),
{
    match definition.validate() {
        Err(e) => {
            return Err(e);
        },
        Ok(()) => {},
    }
    if !check_pinned(definition, projection) {
        return Err(EngineError::DefinitionMismatch);
    }
    if projection.status != SagaStatusV1::Running {
        return Err(EngineError::TerminalProjection);
    }
    if projection.next_step_index >= definition.steps.len() {
        return Err(EngineError::InvalidProjection);
    }
    if !same_action_id(&projection.active_action_id, &observation.action_id) {
        return Err(EngineError::UnexpectedAction);
    }
    if projection.retry_due_at.is_some() {
        return Err(EngineError::RetryTimerMustFire);
    }
    if observation.result != ActionResultV1::RetryableFailure {
        return Err(EngineError::RetryTimerRequiresRetryableFailure);
    }
    let step = &definition.steps[projection.next_step_index];
    assert(definition@.steps[projection.next_step_index as int] == step@);
    if step.retry_policy.backoff.is_none() {
        return Err(EngineError::RetryTimerNotConfigured);
    }
    let current_attempt = match projection.current_attempt.checked_add(1) {
        Some(attempt) => attempt,
        None => {
            return Err(EngineError::AttemptOverflow);
        },
    };
    if current_attempt >= step.retry_policy.max_attempts {
        return Err(EngineError::RetryTimerNotRequired);
    }
    let due_at = match step.retry_policy.retry_due_at(observed_at, projection.current_attempt) {
        Err(e) => {
            return Err(e);
        },
        Ok(None) => {
            return Err(EngineError::RetryTimerNotConfigured);
        },
        Ok(Some(due_at)) => due_at,
    };
    let action_id = match fresh_action_id(projection, next_action_id) {
        Err(e) => {
            return Err(e);
        },
        Ok(a) => a,
    };
    let timer = issued_projection(
        projection,
        action_id,
        projection.next_step_index,
        current_attempt,
        Some(due_at),
        projection.compensable_step_indices.clone(),
        projection.status,
    );
    continue_with(definition, timer, tenant_id, process_id)
}

/// Delivers a due retry timer and unlocks the independently idempotent retry
/// effect action.
pub fn fire_retry_timer(
    definition: &LinearSagaDefinitionV1,
    projection: &LinearSagaProjectionV1,
    tenant_id: TenantId,
    process_id: ProcessId,
    timer_action_id: &ActionId,
    fired_at: LogicalTime,
    next_action_id: ActionId,
) -> (result: Result<SagaDecisionV1, EngineError>)
    ensures
        decision_result(result) == spec_fire_retry_timer(
            definition@,
            projection@,
            tenant_id@,
            process_id@,
            timer_action_id@,
            fired_at,
            next_action_id@,
        ),
{
    match definition.validate() {
        Err(e) => {
            return Err(e);
        },
        Ok(()) => {},
    }
    if !check_pinned(definition, projection) {
        return Err(EngineError::DefinitionMismatch);
    }
    if projection.status != SagaStatusV1::Running {
        return Err(EngineError::TerminalProjection);
    }
    if projection.next_step_index >= definition.steps.len() {
        return Err(EngineError::InvalidProjection);
    }
    if !same_action_id(&projection.active_action_id, timer_action_id) {
        return Err(EngineError::UnexpectedRetryTimer);
    }
    let due_at = match projection.retry_due_at {
        None => {
            return Err(EngineError::UnexpectedRetryTimer);
        },
        Some(due_at) => due_at,
    };
    if fired_at.0 < due_at.0 {
        return Err(EngineError::RetryTimerFiredEarly);
    }
    let action_id = match fresh_action_id(projection, Some(next_action_id)) {
        Err(e) => {
            return Err(e);
        },
        Ok(a) => a,
    };
    let retry = issued_projection(
        projection,
        action_id,
        projection.next_step_index,
        projection.current_attempt,
        None,
        projection.compensable_step_indices.clone(),
        projection.status,
    );
    continue_with(definition, retry, tenant_id, process_id)
}

/// Applies an already-authorized manual-review resolution to an escalated
/// process.
///
/// Authorization, attribution, and evidence retention are enforced by the
/// outer manual-review port before this pure transition is called.
pub fn apply_manual_resolution(
    definition: &LinearSagaDefinitionV1,
    projection: &LinearSagaProjectionV1,
    tenant_id: TenantId,
    process_id: ProcessId,
    resolution: ManualReviewResolutionV1,
    next_action_id: Option<ActionId>,
) -> (result: Result<SagaDecisionV1, EngineError>)
    ensures
        decision_result(result) == spec_apply_manual_resolution(
            definition@,
            projection@,
            tenant_id@,
            process_id@,
            resolution,
            opt_view(next_action_id),
        ),
{
    match definition.validate() {
        Err(e) => {
            return Err(e);
        },
        Ok(()) => {},
    }
    if !check_pinned(definition, projection) {
        return Err(EngineError::DefinitionMismatch);
    }
    if projection.status != SagaStatusV1::Escalated {
        return Err(EngineError::ManualResolutionRequiresEscalation);
    }
    if projection.next_step_index >= definition.steps.len() {
        return Err(EngineError::InvalidProjection);
    }
    match resolution {
        ManualReviewResolutionV1::RetryAction => {
            let action_id = match fresh_action_id(projection, next_action_id) {
                Err(e) => {
                    return Err(e);
                },
                Ok(a) => a,
            };
            let resumed = issued_projection(
                projection,
                action_id,
                projection.next_step_index,
                projection.current_attempt,
                projection.retry_due_at,
                projection.compensable_step_indices.clone(),
                SagaStatusV1::Running,
            );
            continue_with(definition, resumed, tenant_id, process_id)
        },
        ManualReviewResolutionV1::Compensate => {
            if projection.compensable_step_indices.len() == 0 {
                let terminal = terminal_projection(
                    projection,
                    projection.next_step_index,
                    Vec::new(),
                    SagaStatusV1::Cancelled,
                );
                assert(terminal@.compensable_step_indices =~= Seq::<usize>::empty());
                return Ok(SagaDecisionV1 { projection: terminal, next_action: None });
            }
            let action_id = match fresh_action_id(projection, next_action_id) {
                Err(e) => {
                    return Err(e);
                },
                Ok(a) => a,
            };
            let compensating = issued_projection(
                projection,
                action_id,
                projection.next_step_index,
                0,
                projection.retry_due_at,
                projection.compensable_step_indices.clone(),
                SagaStatusV1::Compensating,
            );
            continue_with(definition, compensating, tenant_id, process_id)
        },
        ManualReviewResolutionV1::Cancel => {
            let terminal = terminal_projection(
                projection,
                projection.next_step_index,
                projection.compensable_step_indices.clone(),
                SagaStatusV1::Cancelled,
            );
            Ok(SagaDecisionV1 { projection: terminal, next_action: None })
        },
        ManualReviewResolutionV1::Escalate => {
            Ok(SagaDecisionV1 { projection: projection.clone(), next_action: None })
        },
    }
}

fn begin_compensation(
    definition: &LinearSagaDefinitionV1,
    projection: &LinearSagaProjectionV1,
    tenant_id: TenantId,
    process_id: ProcessId,
    next_action_id: Option<ActionId>,
) -> (result: Result<SagaDecisionV1, EngineError>)
    ensures
        decision_result(result) == spec_begin_compensation(
            definition@,
            projection@,
            tenant_id@,
            process_id@,
            opt_view(next_action_id),
        ),
{
    if projection.compensable_step_indices.len() == 0 {
        let terminal = terminal_projection(
            projection,
            projection.next_step_index,
            Vec::new(),
            SagaStatusV1::Escalated,
        );
        assert(terminal@.compensable_step_indices =~= Seq::<usize>::empty());
        return Ok(SagaDecisionV1 { projection: terminal, next_action: None });
    }
    let action_id = match fresh_action_id(projection, next_action_id) {
        Err(e) => {
            return Err(e);
        },
        Ok(a) => a,
    };
    let compensating = issued_projection(
        projection,
        action_id,
        projection.next_step_index,
        0,
        projection.retry_due_at,
        projection.compensable_step_indices.clone(),
        SagaStatusV1::Compensating,
    );
    continue_with(definition, compensating, tenant_id, process_id)
}

fn apply_forward_result(
    definition: &LinearSagaDefinitionV1,
    projection: &LinearSagaProjectionV1,
    tenant_id: TenantId,
    process_id: ProcessId,
    result: ActionResultV1,
    next_action_id: Option<ActionId>,
) -> (decision: Result<SagaDecisionV1, EngineError>)
    ensures
        decision_result(decision) == spec_forward_result(
            definition@,
            projection@,
            tenant_id@,
            process_id@,
            result,
            opt_view(next_action_id),
        ),
{
    match result {
        ActionResultV1::Succeeded => {
            if projection.next_step_index >= definition.steps.len() {
                return Err(EngineError::InvalidProjection);
            }
            let step = &definition.steps[projection.next_step_index];
            assert(definition@.steps[projection.next_step_index as int] == step@);
            let mut compensable = projection.compensable_step_indices.clone();
            if step.compensation.is_some() {
                compensable.push(projection.next_step_index);
            }
            let next_step_index = projection.next_step_index + 1;
            if next_step_index == definition.steps.len() {
                let terminal = terminal_projection(
                    projection,
                    next_step_index,
                    compensable,
                    SagaStatusV1::Completed,
                );
                return Ok(SagaDecisionV1 { projection: terminal, next_action: None });
            }
            let action_id = match fresh_action_id(projection, next_action_id) {
                Err(e) => {
                    return Err(e);
                },
                Ok(a) => a,
            };
            let next = issued_projection(
                projection,
                action_id,
                next_step_index,
                0,
                projection.retry_due_at,
                compensable,
                SagaStatusV1::Running,
            );
            continue_with(definition, next, tenant_id, process_id)
        },
        ActionResultV1::RetryableFailure => {
            if projection.next_step_index >= definition.steps.len() {
                return Err(EngineError::InvalidProjection);
            }
            let step = &definition.steps[projection.next_step_index];
            assert(definition@.steps[projection.next_step_index as int] == step@);
            let current_attempt = match projection.current_attempt.checked_add(1) {
                Some(attempt) => attempt,
                None => {
                    return Err(EngineError::AttemptOverflow);
                },
            };
            if current_attempt >= step.retry_policy.max_attempts {
                return begin_compensation(
                    definition,
                    projection,
                    tenant_id,
                    process_id,
                    next_action_id,
                );
            }
            if step.retry_policy.backoff.is_some() {
                return Err(EngineError::RetryTimerRequired);
            }
            let action_id = match fresh_action_id(projection, next_action_id) {
                Err(e) => {
                    return Err(e);
                },
                Ok(a) => a,
            };
            let retry = issued_projection(
                projection,
                action_id,
                projection.next_step_index,
                current_attempt,
                projection.retry_due_at,
                projection.compensable_step_indices.clone(),
                SagaStatusV1::Running,
            );
            continue_with(definition, retry, tenant_id, process_id)
        },
        ActionResultV1::TerminalFailure => begin_compensation(
            definition,
            projection,
            tenant_id,
            process_id,
            next_action_id,
        ),
        ActionResultV1::Unknown => {
            let terminal = terminal_projection(
                projection,
                projection.next_step_index,
                projection.compensable_step_indices.clone(),
                SagaStatusV1::Escalated,
            );
            Ok(SagaDecisionV1 { projection: terminal, next_action: None })
        },
    }
}

fn compensation_for(definition: &LinearSagaDefinitionV1, projection: &LinearSagaProjectionV1) -> (result:
    Result<CompensationPlanV1, EngineError>)
    ensures
        result == spec_compensation_for(definition@, projection@),
{
    let count = projection.compensable_step_indices.len();
    if count == 0 {
        return Err(EngineError::InvalidProjection);
    }
    let index = projection.compensable_step_indices[count - 1];
    if index >= definition.steps.len() {
        return Err(EngineError::InvalidProjection);
    }
    let step = &definition.steps[index];
    assert(definition@.steps[index as int] == step@);
    match step.compensation {
        Some(compensation) => Ok(compensation),
        None => Err(EngineError::InvalidProjection),
    }
}

fn apply_compensation_result(
    definition: &LinearSagaDefinitionV1,
    projection: &LinearSagaProjectionV1,
    tenant_id: TenantId,
    process_id: ProcessId,
    result: ActionResultV1,
    next_action_id: Option<ActionId>,
) -> (decision: Result<SagaDecisionV1, EngineError>)
    ensures
        decision_result(decision) == spec_compensation_result(
            definition@,
            projection@,
            tenant_id@,
            process_id@,
            result,
            opt_view(next_action_id),
        ),
{
    let compensation = match compensation_for(definition, projection) {
        Err(e) => {
            return Err(e);
        },
        Ok(c) => c,
    };
    match result {
        ActionResultV1::Succeeded => {
            let mut remaining = projection.compensable_step_indices.clone();
            let _ = remaining.pop();
            assert(remaining@ =~= projection.compensable_step_indices@.drop_last());
            if remaining.len() == 0 {
                let terminal = terminal_projection(
                    projection,
                    projection.next_step_index,
                    remaining,
                    SagaStatusV1::Compensated,
                );
                return Ok(SagaDecisionV1 { projection: terminal, next_action: None });
            }
            let action_id = match fresh_action_id(projection, next_action_id) {
                Err(e) => {
                    return Err(e);
                },
                Ok(a) => a,
            };
            let next = issued_projection(
                projection,
                action_id,
                projection.next_step_index,
                0,
                projection.retry_due_at,
                remaining,
                SagaStatusV1::Compensating,
            );
            continue_with(definition, next, tenant_id, process_id)
        },
        ActionResultV1::RetryableFailure => {
            let current_attempt = match projection.current_attempt.checked_add(1) {
                Some(attempt) => attempt,
                None => {
                    return Err(EngineError::AttemptOverflow);
                },
            };
            if current_attempt >= compensation.retry_policy.max_attempts {
                let terminal = terminal_projection(
                    projection,
                    projection.next_step_index,
                    projection.compensable_step_indices.clone(),
                    SagaStatusV1::Escalated,
                );
                return Ok(SagaDecisionV1 { projection: terminal, next_action: None });
            }
            if compensation.retry_policy.backoff.is_some() {
                return Err(EngineError::RetryTimerRequired);
            }
            let action_id = match fresh_action_id(projection, next_action_id) {
                Err(e) => {
                    return Err(e);
                },
                Ok(a) => a,
            };
            let retry = issued_projection(
                projection,
                action_id,
                projection.next_step_index,
                current_attempt,
                projection.retry_due_at,
                projection.compensable_step_indices.clone(),
                SagaStatusV1::Compensating,
            );
            continue_with(definition, retry, tenant_id, process_id)
        },
        ActionResultV1::TerminalFailure | ActionResultV1::Unknown => {
            let terminal = terminal_projection(
                projection,
                projection.next_step_index,
                projection.compensable_step_indices.clone(),
                SagaStatusV1::Escalated,
            );
            Ok(SagaDecisionV1 { projection: terminal, next_action: None })
        },
    }
}

// ---------------------------------------------------------------------------
// Replay of the immutable process log.
// ---------------------------------------------------------------------------

/// Lifts a transition's decision into the replay state.
pub open spec fn replay_lift(r: Result<DecisionView, EngineError>) -> Result<
    Option<DecisionView>,
    EngineError,
> {
    match r {
        Ok(d) => Ok(Some(d)),
        Err(e) => Err(e),
    }
}

/// One replay step: the start record must come first and carry the pinned
/// definition; every later event is the live transition it records, applied
/// to the projection rebuilt so far.
pub open spec fn spec_replay_step(
    d: DefinitionView,
    tenant: Seq<char>,
    process: Seq<char>,
    current: Option<DecisionView>,
    event: LinearSagaEventV1,
) -> Result<Option<DecisionView>, EngineError> {
    match event {
        LinearSagaEventV1::Started {
            definition_id,
            definition_version,
            definition_digest,
            action_id,
        } => if current is Some {
            Err(EngineError::DuplicateStart)
        } else if definition_id@ != d.definition_id || definition_version@ != d.definition_version
            || definition_digest != d.definition_digest {
            Err(EngineError::DefinitionMismatch)
        } else {
            replay_lift(spec_start(d, tenant, process, action_id@))
        },
        LinearSagaEventV1::ActionResultObserved { observation, next_action_id } => match current {
            None => Err(EngineError::MissingStart),
            Some(c) => replay_lift(
                spec_apply_action_result(
                    d,
                    c.projection,
                    tenant,
                    process,
                    observation.action_id@,
                    observation.result,
                    opt_view(next_action_id),
                ),
            ),
        },
        LinearSagaEventV1::RetryTimerScheduled { observation, next_action_id, observed_at } =>
            match current {
            None => Err(EngineError::MissingStart),
            Some(c) => replay_lift(
                spec_schedule_retry_timer(
                    d,
                    c.projection,
                    tenant,
                    process,
                    observation.action_id@,
                    observation.result,
                    opt_view(next_action_id),
                    observed_at,
                ),
            ),
        },
        LinearSagaEventV1::RetryTimerFired { timer_action_id, fired_at, next_action_id } =>
            match current {
            None => Err(EngineError::MissingStart),
            Some(c) => replay_lift(
                spec_fire_retry_timer(
                    d,
                    c.projection,
                    tenant,
                    process,
                    timer_action_id@,
                    fired_at,
                    next_action_id@,
                ),
            ),
        },
        LinearSagaEventV1::ManualResolutionApplied { resolution, next_action_id } =>
            match current {
            None => Err(EngineError::MissingStart),
            Some(c) => replay_lift(
                spec_apply_manual_resolution(
                    d,
                    c.projection,
                    tenant,
                    process,
                    resolution,
                    opt_view(next_action_id),
                ),
            ),
        },
    }
}

/// The replay state after the first `n` events: the first failing event's
/// error, or the decision rebuilt so far (`None` before any start).
pub open spec fn spec_replay_prefix(
    d: DefinitionView,
    tenant: Seq<char>,
    process: Seq<char>,
    events: Seq<LinearSagaEventV1>,
    n: nat,
) -> Result<Option<DecisionView>, EngineError>
    decreases n,
{
    if n == 0 {
        Ok(None)
    } else {
        match spec_replay_prefix(d, tenant, process, events, (n - 1) as nat) {
            Err(e) => Err(e),
            Ok(current) => spec_replay_step(d, tenant, process, current, events[n - 1]),
        }
    }
}

/// The decision rebuilt from a whole log.
pub open spec fn spec_replay(
    d: DefinitionView,
    tenant: Seq<char>,
    process: Seq<char>,
    events: Seq<LinearSagaEventV1>,
) -> Result<DecisionView, EngineError> {
    match spec_replay_prefix(d, tenant, process, events, events.len()) {
        Err(e) => Err(e),
        Ok(None) => Err(EngineError::MissingStart),
        Ok(Some(decision)) => Ok(decision),
    }
}

fn replay_step(
    definition: &LinearSagaDefinitionV1,
    tenant_id: &TenantId,
    process_id: &ProcessId,
    current: Option<SagaDecisionV1>,
    event: &LinearSagaEventV1,
) -> (result: Result<Option<SagaDecisionV1>, EngineError>)
    ensures
        match result {
            Ok(next) => spec_replay_step(
                definition@,
                tenant_id@,
                process_id@,
                opt_view(current),
                *event,
            ) == Ok::<Option<DecisionView>, EngineError>(opt_view(next)),
            Err(e) => spec_replay_step(
                definition@,
                tenant_id@,
                process_id@,
                opt_view(current),
                *event,
            ) == Err::<Option<DecisionView>, EngineError>(e),
        },
{
    let r = match event {
        LinearSagaEventV1::Started {
            definition_id,
            definition_version,
            definition_digest,
            action_id,
        } => {
            if current.is_some() {
                return Err(EngineError::DuplicateStart);
            }
            if !(*definition_id == definition.definition_id) || !(*definition_version
                == definition.definition_version) || !(*definition_digest
                == definition.definition_digest) {
                return Err(EngineError::DefinitionMismatch);
            }
            start(definition, tenant_id.clone(), process_id.clone(), action_id.clone())
        },
        LinearSagaEventV1::ActionResultObserved { observation, next_action_id } => {
            match current {
                None => {
                    return Err(EngineError::MissingStart);
                },
                Some(c) => apply_action_result(
                    definition,
                    &c.projection,
                    tenant_id.clone(),
                    process_id.clone(),
                    observation,
                    clone_optional_action_id(next_action_id),
                ),
            }
        },
        LinearSagaEventV1::RetryTimerScheduled { observation, next_action_id, observed_at } => {
            match current {
                None => {
                    return Err(EngineError::MissingStart);
                },
                Some(c) => schedule_retry_timer(
                    definition,
                    &c.projection,
                    tenant_id.clone(),
                    process_id.clone(),
                    observation,
                    clone_optional_action_id(next_action_id),
                    *observed_at,
                ),
            }
        },
        LinearSagaEventV1::RetryTimerFired { timer_action_id, fired_at, next_action_id } => {
            match current {
                None => {
                    return Err(EngineError::MissingStart);
                },
                Some(c) => fire_retry_timer(
                    definition,
                    &c.projection,
                    tenant_id.clone(),
                    process_id.clone(),
                    timer_action_id,
                    *fired_at,
                    next_action_id.clone(),
                ),
            }
        },
        LinearSagaEventV1::ManualResolutionApplied { resolution, next_action_id } => {
            match current {
                None => {
                    return Err(EngineError::MissingStart);
                },
                Some(c) => apply_manual_resolution(
                    definition,
                    &c.projection,
                    tenant_id.clone(),
                    process_id.clone(),
                    *resolution,
                    clone_optional_action_id(next_action_id),
                ),
            }
        },
    };
    match r {
        Ok(decision) => Ok(Some(decision)),
        Err(e) => Err(e),
    }
}

/// Rebuilds the current decision from an ordered immutable process log.
///
/// The returned action, if any, is only the final pending action. Calling this
/// function does not perform I/O or authorize a dispatcher to resend an
/// earlier effect; an outer durable worker must reconcile and dispatch it.
/// The log must start with one start record pinned to `definition`; every
/// later event must be a transition the live engine accepts.
pub fn replay(
    definition: &LinearSagaDefinitionV1,
    tenant_id: &TenantId,
    process_id: &ProcessId,
    events: &[LinearSagaEventV1],
) -> (result: Result<SagaDecisionV1, EngineError>)
    ensures
        decision_result(result) == spec_replay(definition@, tenant_id@, process_id@, events@),
{
    let mut decision: Option<SagaDecisionV1> = None;
    let mut i: usize = 0;
    while i < events.len()
        invariant
            0 <= i <= events.len(),
            spec_replay_prefix(definition@, tenant_id@, process_id@, events@, i as nat) == Ok::<
                Option<DecisionView>,
                EngineError,
            >(opt_view(decision)),
        decreases events.len() - i,
    {
        match replay_step(definition, tenant_id, process_id, decision, &events[i]) {
            Err(e) => {
                proof {
                    lemma_replay_error_persists(
                        definition@,
                        tenant_id@,
                        process_id@,
                        events@,
                        (i + 1) as nat,
                        events@.len(),
                    );
                }
                return Err(e);
            },
            Ok(next) => {
                decision = next;
            },
        }
        i = i + 1;
    }
    match decision {
        Some(d) => Ok(d),
        None => Err(EngineError::MissingStart),
    }
}

/// Once a replay prefix fails, every longer prefix fails with the same error.
pub proof fn lemma_replay_error_persists(
    d: DefinitionView,
    tenant: Seq<char>,
    process: Seq<char>,
    events: Seq<LinearSagaEventV1>,
    m: nat,
    n: nat,
)
    requires
        m <= n,
        spec_replay_prefix(d, tenant, process, events, m) is Err,
    ensures
        spec_replay_prefix(d, tenant, process, events, n) == spec_replay_prefix(
            d,
            tenant,
            process,
            events,
            m,
        ),
    decreases n - m,
{
    if m < n {
        lemma_replay_error_persists(d, tenant, process, events, m, (n - 1) as nat);
    }
}


/// Whether every envelope carries its zero-based position as its sequence.
pub open spec fn sequence_is_contiguous(envelopes: Seq<LinearSagaEventEnvelopeV1>) -> bool {
    forall|i: int| 0 <= i < envelopes.len() ==> #[trigger] envelopes[i].sequence == i
}

/// The events carried by a sequence of envelopes, in order.
pub open spec fn envelope_events(envelopes: Seq<LinearSagaEventEnvelopeV1>) -> Seq<
    LinearSagaEventV1,
> {
    envelopes.map_values(|e: LinearSagaEventEnvelopeV1| e.event)
}

/// Rebuilds a decision after validating a contiguous ordered event log.
///
/// The first event must have sequence zero and every following event must
/// increment by one; otherwise the log is refused before any event is
/// evaluated. This function does not write, dispatch, or otherwise mutate
/// external state.
pub fn replay_ordered(
    definition: &LinearSagaDefinitionV1,
    tenant_id: &TenantId,
    process_id: &ProcessId,
    envelopes: &[LinearSagaEventEnvelopeV1],
) -> (result: Result<SagaDecisionV1, EngineError>)
    ensures
        decision_result(result) == if sequence_is_contiguous(envelopes@) {
            spec_replay(definition@, tenant_id@, process_id@, envelope_events(envelopes@))
        } else {
            Err(EngineError::InvalidEventSequence)
        },
{
    let mut expected_sequence: u64 = 0;
    let mut events: Vec<LinearSagaEventV1> = Vec::with_capacity(envelopes.len());
    let mut i: usize = 0;
    while i < envelopes.len()
        invariant
            0 <= i <= envelopes.len(),
            expected_sequence == i,
            forall|k: int| 0 <= k < i ==> #[trigger] envelopes@[k].sequence == k,
            events@ == envelope_events(envelopes@.subrange(0, i as int)),
        decreases envelopes.len() - i,
    {
        if envelopes[i].sequence != expected_sequence {
            return Err(EngineError::InvalidEventSequence);
        }
        expected_sequence = match expected_sequence.checked_add(1) {
            Some(next) => next,
            None => {
                return Err(EngineError::EventSequenceOverflow);
            },
        };
        events.push(envelopes[i].event.clone());
        proof {
            assert(envelope_events(envelopes@.subrange(0, i + 1)) =~= envelope_events(
                envelopes@.subrange(0, i as int),
            ).push(envelopes@[i as int].event));
        }
        i = i + 1;
    }
    proof {
        assert(envelopes@.subrange(0, envelopes@.len() as int) =~= envelopes@);
    }
    replay(definition, tenant_id, process_id, events.as_slice())
}


// ---------------------------------------------------------------------------
// Laws of the linear engine.
// ---------------------------------------------------------------------------

proof fn lemma_replay_prefix_extends(
    d: DefinitionView,
    tenant: Seq<char>,
    process: Seq<char>,
    events: Seq<LinearSagaEventV1>,
    event: LinearSagaEventV1,
    n: nat,
)
    requires
        n <= events.len(),
    ensures
        spec_replay_prefix(d, tenant, process, events.push(event), n) == spec_replay_prefix(
            d,
            tenant,
            process,
            events,
            n,
        ),
    decreases n,
{
    if n > 0 {
        lemma_replay_prefix_extends(d, tenant, process, events, event, (n - 1) as nat);
        assert(events.push(event)[n - 1] == events[n - 1]);
    }
}

/// Replaying a log made of the start record of `definition` rebuilds
/// exactly the decision the live engine makes when it starts the process.
pub proof fn lemma_replay_of_start_record(
    definition: LinearSagaDefinitionV1,
    tenant: Seq<char>,
    process: Seq<char>,
    action_id: ActionId,
)
    ensures
        spec_replay(
            definition@,
            tenant,
            process,
            seq![
                LinearSagaEventV1::Started {
                    definition_id: definition.definition_id,
                    definition_version: definition.definition_version,
                    definition_digest: definition.definition_digest,
                    action_id,
                },
            ],
        ) == spec_start(definition@, tenant, process, action_id@),
{
    let events = seq![
        LinearSagaEventV1::Started {
            definition_id: definition.definition_id,
            definition_version: definition.definition_version,
            definition_digest: definition.definition_digest,
            action_id,
        },
    ];
    assert(spec_replay_prefix(definition@, tenant, process, events, 0) == Ok::<
        Option<DecisionView>,
        EngineError,
    >(None));
    assert(spec_replay_prefix(definition@, tenant, process, events, 1) == spec_replay_step(
        definition@,
        tenant,
        process,
        None,
        events[0],
    ));
}

/// Replaying one more recorded event after a log that replays successfully
/// applies to the replayed projection exactly the live transition that the
/// event records; a second start record is refused. Live execution and
/// replay after a restart therefore converge on every log.
pub proof fn lemma_replay_applies_live_transition(
    d: DefinitionView,
    tenant: Seq<char>,
    process: Seq<char>,
    events: Seq<LinearSagaEventV1>,
    event: LinearSagaEventV1,
)
    requires
        spec_replay(d, tenant, process, events) is Ok,
    ensures
        ({
            let current = spec_replay(d, tenant, process, events)->Ok_0.projection;
            spec_replay(d, tenant, process, events.push(event)) == match event {
                LinearSagaEventV1::Started { .. } => Err(EngineError::DuplicateStart),
                LinearSagaEventV1::ActionResultObserved { observation, next_action_id } =>
                    spec_apply_action_result(
                    d,
                    current,
                    tenant,
                    process,
                    observation.action_id@,
                    observation.result,
                    opt_view(next_action_id),
                ),
                LinearSagaEventV1::RetryTimerScheduled {
                    observation,
                    next_action_id,
                    observed_at,
                } => spec_schedule_retry_timer(
                    d,
                    current,
                    tenant,
                    process,
                    observation.action_id@,
                    observation.result,
                    opt_view(next_action_id),
                    observed_at,
                ),
                LinearSagaEventV1::RetryTimerFired { timer_action_id, fired_at, next_action_id } =>
                    spec_fire_retry_timer(
                    d,
                    current,
                    tenant,
                    process,
                    timer_action_id@,
                    fired_at,
                    next_action_id@,
                ),
                LinearSagaEventV1::ManualResolutionApplied { resolution, next_action_id } =>
                    spec_apply_manual_resolution(
                    d,
                    current,
                    tenant,
                    process,
                    resolution,
                    opt_view(next_action_id),
                ),
            }
        }),
{
    let n = events.len();
    lemma_replay_prefix_extends(d, tenant, process, events, event, n);
    let extended = events.push(event);
    assert(extended.len() == n + 1);
    assert(extended[n as int] == event);
    assert(spec_replay_prefix(d, tenant, process, extended, (n + 1) as nat) == match spec_replay_prefix(
        d,
        tenant,
        process,
        extended,
        n,
    ) {
        Err(e) => Err(e),
        Ok(current) => spec_replay_step(d, tenant, process, current, extended[n as int]),
    });
}

/// A result observed for any action other than the projection's active one
/// never advances the process.
pub proof fn lemma_only_the_active_action_advances(
    d: DefinitionView,
    p: ProjectionView,
    tenant: Seq<char>,
    process: Seq<char>,
    observed: Seq<char>,
    result: ActionResultV1,
    next: Option<Seq<char>>,
)
    ensures
        spec_apply_action_result(d, p, tenant, process, observed, result, next) is Ok
            ==> p.active_action_id == Some(observed),
{
}

/// An unknown result never plans another action: the process escalates and
/// waits for reconciliation instead of retrying blindly.
pub proof fn lemma_unknown_result_escalates_without_action(
    d: DefinitionView,
    p: ProjectionView,
    tenant: Seq<char>,
    process: Seq<char>,
    observed: Seq<char>,
    next: Option<Seq<char>>,
)
    ensures
        spec_apply_action_result(d, p, tenant, process, observed, ActionResultV1::Unknown, next) matches Ok(
            decision,
        ) ==> decision.next_action is None && decision.projection.status == SagaStatusV1::Escalated,
{
}

/// A known terminal failure of a forward step compensates the most recently
/// succeeded compensable step first (last in, first out): the process turns
/// to compensating and plans that step's compensation.
pub proof fn lemma_terminal_failure_compensates_last_succeeded_step(
    d: DefinitionView,
    p: ProjectionView,
    tenant: Seq<char>,
    process: Seq<char>,
    observed: Seq<char>,
    next: Option<Seq<char>>,
)
    requires
        p.status == SagaStatusV1::Running,
        p.compensable_step_indices.len() > 0,
    ensures
        spec_apply_action_result(
            d,
            p,
            tenant,
            process,
            observed,
            ActionResultV1::TerminalFailure,
            next,
        ) matches Ok(decision) ==> {
            let index = p.compensable_step_indices.last();
            &&& decision.projection.status == SagaStatusV1::Compensating
            &&& decision.projection.compensable_step_indices == p.compensable_step_indices
            &&& decision.next_action is Some
            &&& d.steps[index as int].compensation is Some
            &&& decision.next_action->0.kind == d.steps[index as int].compensation->0.action_kind
            &&& decision.next_action->0.payload_digest
                == d.steps[index as int].compensation->0.payload_digest
            &&& decision.next_action->0.step_id == d.steps[index as int].step_id
        },
{
}

/// A retryable failure within the attempt budget of a step without backoff
/// retries the same step with the next attempt number, under a fresh
/// action identity.
pub proof fn lemma_retry_advances_the_attempt(
    d: DefinitionView,
    p: ProjectionView,
    tenant: Seq<char>,
    process: Seq<char>,
    observed: Seq<char>,
    next: Option<Seq<char>>,
)
    requires
        p.status == SagaStatusV1::Running,
        p.next_step_index < d.steps.len(),
        p.current_attempt < u32::MAX,
        p.current_attempt + 1 < d.steps[p.next_step_index as int].retry_policy.max_attempts,
        d.steps[p.next_step_index as int].retry_policy.backoff is None,
    ensures
        spec_apply_action_result(
            d,
            p,
            tenant,
            process,
            observed,
            ActionResultV1::RetryableFailure,
            next,
        ) matches Ok(decision) ==> {
            &&& decision.projection.next_step_index == p.next_step_index
            &&& decision.projection.current_attempt == p.current_attempt + 1
            &&& decision.next_action is Some
            &&& decision.next_action->0.attempt == p.current_attempt + 1
            &&& Some(decision.next_action->0.action_id) == next
        },
{
}

/// Retries are bounded: a retryable failure that exhausts the step's attempt
/// budget never runs the step again. The process compensates its most recent
/// compensable step, or escalates with no action when there is none.
pub proof fn lemma_exhausted_retry_budget_stops_retrying(
    d: DefinitionView,
    p: ProjectionView,
    tenant: Seq<char>,
    process: Seq<char>,
    observed: Seq<char>,
    next: Option<Seq<char>>,
)
    requires
        p.status == SagaStatusV1::Running,
        p.next_step_index < d.steps.len(),
        p.current_attempt + 1 >= d.steps[p.next_step_index as int].retry_policy.max_attempts,
    ensures
        spec_apply_action_result(
            d,
            p,
            tenant,
            process,
            observed,
            ActionResultV1::RetryableFailure,
            next,
        ) matches Ok(decision) ==> {
            &&& decision.projection.status != SagaStatusV1::Running
            &&& p.compensable_step_indices.len() == 0 ==> decision.projection.status
                == SagaStatusV1::Escalated && decision.next_action is None
            &&& p.compensable_step_indices.len() > 0 ==> decision.projection.status
                == SagaStatusV1::Compensating && decision.next_action is Some
                && decision.next_action->0.step_id
                == d.steps[p.compensable_step_indices.last() as int].step_id
        },
{
}

/// Whether `decision` keeps the issued identities of `p`, or issues exactly
/// the fresh identity `next` (never issued before) as its new active action.
pub open spec fn issues_only_fresh_identity(
    p: ProjectionView,
    next: Option<Seq<char>>,
    decision: DecisionView,
) -> bool {
    ||| (decision.next_action is None && decision.projection.issued_action_ids
        == p.issued_action_ids)
    ||| ({
        &&& next is Some
        &&& !p.issued_action_ids.contains(next->0)
        &&& decision.projection.issued_action_ids == p.issued_action_ids.push(next->0)
        &&& decision.projection.active_action_id == Some(next->0)
        &&& decision.next_action is Some
        &&& decision.next_action->0.action_id == next->0
    })
}

/// Whether no action identity was issued twice.
pub open spec fn issued_identities_distinct(p: ProjectionView) -> bool {
    forall|i: int, j: int|
        0 <= i < j < p.issued_action_ids.len() ==> p.issued_action_ids[i]
            != p.issued_action_ids[j]
}

/// Issuing only fresh identities keeps every issued identity distinct.
pub proof fn lemma_fresh_issue_keeps_identities_distinct(
    p: ProjectionView,
    next: Option<Seq<char>>,
    decision: DecisionView,
)
    requires
        issued_identities_distinct(p),
        issues_only_fresh_identity(p, next, decision),
    ensures
        issued_identities_distinct(decision.projection),
{
    if decision.projection.issued_action_ids != p.issued_action_ids {
        let a = next->0;
        let issued = decision.projection.issued_action_ids;
        assert forall|i: int, j: int| 0 <= i < j < issued.len() implies issued[i] != issued[j] by {
            if j == issued.len() - 1 {
                assert(issued[j] == a);
                assert(issued[i] == p.issued_action_ids[i]);
                if issued[i] == a {
                    assert(p.issued_action_ids.contains(a));
                }
            }
        }
    }
}

/// Every accepted transition — an action result, a scheduled or fired retry
/// timer, a manual resolution — either issues no action or issues the fresh
/// identity it was given: no action identity of a process is ever reused.
pub proof fn lemma_transitions_never_reuse_an_identity(
    d: DefinitionView,
    p: ProjectionView,
    tenant: Seq<char>,
    process: Seq<char>,
    observed: Seq<char>,
    result: ActionResultV1,
    next: Option<Seq<char>>,
    at: LogicalTime,
    resolution: ManualReviewResolutionV1,
    fresh: Seq<char>,
)
    ensures
        spec_apply_action_result(d, p, tenant, process, observed, result, next) matches Ok(
            decision,
        ) ==> issues_only_fresh_identity(p, next, decision),
        spec_schedule_retry_timer(d, p, tenant, process, observed, result, next, at) matches Ok(
            decision,
        ) ==> issues_only_fresh_identity(p, next, decision),
        spec_fire_retry_timer(d, p, tenant, process, observed, at, fresh) matches Ok(decision)
            ==> issues_only_fresh_identity(p, Some(fresh), decision),
        spec_apply_manual_resolution(d, p, tenant, process, resolution, next) matches Ok(decision)
            ==> issues_only_fresh_identity(p, next, decision),
{
}

/// The capped exponential retry delay never decreases from one retry to
/// the next and never exceeds the maximum delay; the first retry waits the
/// base delay.
pub proof fn lemma_retry_delay_is_monotone_and_capped(backoff: RetryBackoffV1, m: nat, n: nat)
    requires
        m <= n,
        backoff.base_delay_millis <= backoff.max_delay_millis,
    ensures
        retry_delay(backoff, m) <= retry_delay(backoff, n),
        retry_delay(backoff, n) <= backoff.max_delay_millis,
        retry_delay(backoff, 0) == backoff.base_delay_millis,
{
    lemma_doubled_monotone(backoff.base_delay_millis as nat, m, n);
}


/// A planned forward action (running, no retry timer pending) runs exactly
/// the definition's step at the projection's step index: that step's
/// identity, action kind and payload digest, at the projection's attempt and
/// under its active action identity, scoped to the pinned definition.
pub proof fn lemma_forward_action_runs_the_declared_step(
    d: DefinitionView,
    p: ProjectionView,
    tenant: Seq<char>,
    process: Seq<char>,
)
    requires
        p.status == SagaStatusV1::Running,
        p.retry_due_at is None,
    ensures
        spec_action_for(d, p, tenant, process) matches Ok(action) ==> {
            &&& p.next_step_index < d.steps.len()
            &&& action.step_id == d.steps[p.next_step_index as int].step_id
            &&& action.kind == d.steps[p.next_step_index as int].action_kind
            &&& action.payload_digest == d.steps[p.next_step_index as int].payload_digest
            &&& action.attempt == p.current_attempt
            &&& Some(action.action_id) == p.active_action_id
            &&& action.scope.tenant_id == tenant && action.scope.process_id == process
            &&& action.scope.definition_digest == p.definition_digest
        },
{
}

/// Starting a process plans the first declared step, with that step's own
/// action kind and payload digest, at attempt zero under the given identity.
pub proof fn lemma_start_plans_the_first_declared_step(
    d: DefinitionView,
    tenant: Seq<char>,
    process: Seq<char>,
    action_id: Seq<char>,
)
    ensures
        spec_start(d, tenant, process, action_id) matches Ok(decision) ==> {
            &&& d.steps.len() > 0
            &&& decision.projection.status == SagaStatusV1::Running
            &&& decision.next_action matches Some(action) && action.step_id == d.steps[0].step_id
                && action.kind == d.steps[0].action_kind && action.payload_digest
                == d.steps[0].payload_digest && action.attempt == 0 && action.action_id
                == action_id
        },
{
}

/// Whenever a result moves a running process on to a forward action, that
/// action runs the definition's step at the new step index with the step's
/// declared kind and payload digest.
pub proof fn lemma_result_plans_declared_forward_steps(
    d: DefinitionView,
    p: ProjectionView,
    tenant: Seq<char>,
    process: Seq<char>,
    observed: Seq<char>,
    result: ActionResultV1,
    next: Option<Seq<char>>,
)
    ensures
        spec_apply_action_result(d, p, tenant, process, observed, result, next) matches Ok(decision)
            ==> (decision.next_action matches Some(action) ==> {
            let step = d.steps[decision.projection.next_step_index as int];
            decision.projection.status == SagaStatusV1::Running ==> {
            &&& decision.projection.next_step_index < d.steps.len()
            &&& action.step_id == step.step_id
            &&& action.kind == step.action_kind
            &&& action.payload_digest == step.payload_digest
            &&& action.attempt == decision.projection.current_attempt
            }
        }),
{
}

/// A known terminal or unknown result of a compensating action never claims
/// the compensation done: the process escalates for an operator with no
/// further action and keeps every step still to be compensated.
pub proof fn lemma_failed_compensation_escalates(
    d: DefinitionView,
    p: ProjectionView,
    tenant: Seq<char>,
    process: Seq<char>,
    observed: Seq<char>,
    result: ActionResultV1,
    next: Option<Seq<char>>,
)
    requires
        p.status == SagaStatusV1::Compensating,
        result == ActionResultV1::TerminalFailure || result == ActionResultV1::Unknown,
    ensures
        spec_apply_action_result(d, p, tenant, process, observed, result, next) matches Ok(decision)
            ==> {
            &&& decision.projection.status == SagaStatusV1::Escalated
            &&& decision.next_action is None
            &&& decision.projection.compensable_step_indices == p.compensable_step_indices
        },
{
}

/// A process is reported compensated only when the compensation of its last
/// remaining compensable step has just succeeded: every earlier compensation
/// succeeded before, and nothing is left to compensate.
pub proof fn lemma_compensated_only_after_every_compensation_succeeded(
    d: DefinitionView,
    p: ProjectionView,
    tenant: Seq<char>,
    process: Seq<char>,
    observed: Seq<char>,
    result: ActionResultV1,
    next: Option<Seq<char>>,
)
    ensures
        spec_apply_action_result(d, p, tenant, process, observed, result, next) matches Ok(decision)
            ==> (decision.projection.status == SagaStatusV1::Compensated ==> {
            &&& p.status == SagaStatusV1::Compensating
            &&& result == ActionResultV1::Succeeded
            &&& p.compensable_step_indices.len() == 1
            &&& decision.projection.compensable_step_indices.len() == 0
            &&& decision.next_action is None
        }),
{
}

/// Escalating an escalated process to a higher authority changes nothing:
/// the projection is returned exactly as it was and no action is planned.
pub proof fn lemma_escalate_resolution_keeps_the_process(
    d: DefinitionView,
    p: ProjectionView,
    tenant: Seq<char>,
    process: Seq<char>,
    next: Option<Seq<char>>,
)
    ensures
        spec_apply_manual_resolution(
            d,
            p,
            tenant,
            process,
            ManualReviewResolutionV1::Escalate,
            next,
        ) matches Ok(decision) ==> decision.projection == p && decision.next_action is None
            && p.status == SagaStatusV1::Escalated,
{
}

/// A manual resolution cancels the process only when an operator chose to
/// cancel, or chose to compensate a process with nothing to compensate.
pub proof fn lemma_only_cancel_resolutions_cancel(
    d: DefinitionView,
    p: ProjectionView,
    tenant: Seq<char>,
    process: Seq<char>,
    resolution: ManualReviewResolutionV1,
    next: Option<Seq<char>>,
)
    ensures
        spec_apply_manual_resolution(d, p, tenant, process, resolution, next) matches Ok(decision)
            ==> (decision.projection.status == SagaStatusV1::Cancelled ==> (resolution
            == ManualReviewResolutionV1::Cancel || (resolution
            == ManualReviewResolutionV1::Compensate && p.compensable_step_indices.len() == 0))),
{
}

/// A retry timer is only scheduled while the step's attempt budget allows
/// another attempt: the scheduled attempt is the next one and stays below
/// the step's maximum number of attempts.
pub proof fn lemma_retry_timer_stays_within_the_attempt_budget(
    d: DefinitionView,
    p: ProjectionView,
    tenant: Seq<char>,
    process: Seq<char>,
    observed: Seq<char>,
    result: ActionResultV1,
    next: Option<Seq<char>>,
    observed_at: LogicalTime,
)
    ensures
        spec_schedule_retry_timer(d, p, tenant, process, observed, result, next, observed_at)
            matches Ok(decision) ==> {
            let max_attempts = d.steps[p.next_step_index as int].retry_policy.max_attempts;
            &&& p.next_step_index < d.steps.len()
            &&& p.current_attempt + 1 < max_attempts
            &&& decision.projection.current_attempt == p.current_attempt + 1
            &&& decision.projection.current_attempt < max_attempts
            &&& decision.projection.retry_due_at is Some
            &&& decision.next_action matches Some(timer) && timer.kind == ProcessActionKind::Timer
                && timer.attempt < max_attempts
        },
{
}

/// Firing a retry timer resumes the same step at the attempt that was
/// scheduled, so the retried attempt also stays below the step's budget
/// whenever the schedule did.
pub proof fn lemma_fired_retry_keeps_the_scheduled_attempt(
    d: DefinitionView,
    p: ProjectionView,
    tenant: Seq<char>,
    process: Seq<char>,
    timer_action_id: Seq<char>,
    fired_at: LogicalTime,
    next: Seq<char>,
)
    ensures
        spec_fire_retry_timer(d, p, tenant, process, timer_action_id, fired_at, next) matches Ok(
            decision,
        ) ==> {
            &&& decision.projection.current_attempt == p.current_attempt
            &&& decision.projection.next_step_index == p.next_step_index
            &&& decision.projection.retry_due_at is None
            &&& decision.next_action matches Some(action) && action.attempt == p.current_attempt
                && action.step_id == d.steps[p.next_step_index as int].step_id
                && action.kind == d.steps[p.next_step_index as int].action_kind
                && action.payload_digest == d.steps[p.next_step_index as int].payload_digest
        },
{
}

/// A process is reported completed only when its last declared step has
/// just succeeded while running forward, with no further action.
pub proof fn lemma_completed_only_after_the_last_step_succeeds(
    d: DefinitionView,
    p: ProjectionView,
    tenant: Seq<char>,
    process: Seq<char>,
    observed: Seq<char>,
    result: ActionResultV1,
    next: Option<Seq<char>>,
)
    ensures
        spec_apply_action_result(d, p, tenant, process, observed, result, next) matches Ok(decision)
            ==> (decision.projection.status == SagaStatusV1::Completed ==> {
            &&& p.status == SagaStatusV1::Running
            &&& result == ActionResultV1::Succeeded
            &&& p.next_step_index + 1 == d.steps.len()
            &&& decision.projection.next_step_index == d.steps.len()
            &&& decision.next_action is None
        }),
{
}

/// Retries stay within their budgets: after a retryable failure, a process
/// that keeps running retries its step at an attempt below the step's
/// maximum, and one that keeps compensating retries the compensation at an
/// attempt below the compensation's maximum.
pub proof fn lemma_retries_stay_within_their_budgets(
    d: DefinitionView,
    p: ProjectionView,
    tenant: Seq<char>,
    process: Seq<char>,
    observed: Seq<char>,
    next: Option<Seq<char>>,
)
    ensures
        spec_apply_action_result(
            d,
            p,
            tenant,
            process,
            observed,
            ActionResultV1::RetryableFailure,
            next,
        ) matches Ok(decision) ==> {
            &&& (p.status == SagaStatusV1::Running && decision.projection.status
                == SagaStatusV1::Running) ==> decision.projection.current_attempt
                < d.steps[p.next_step_index as int].retry_policy.max_attempts
                && decision.projection.current_attempt == p.current_attempt + 1
            &&& (p.status == SagaStatusV1::Compensating && decision.projection.status
                == SagaStatusV1::Compensating) ==> (spec_compensation_for(d, p) matches Ok(c)
                && decision.projection.current_attempt < c.retry_policy.max_attempts
                && decision.projection.current_attempt == p.current_attempt + 1)
        },
{
}

} // verus!
