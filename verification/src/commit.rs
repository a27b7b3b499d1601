//! Atomic process commits, bounded outcome replay pages, and the ordered
//! outcome-log accumulator.
//!
//! A commit is one local transaction of an optional deduplicated input, a
//! contiguous run of outcomes in one pinned scope, and the independently
//! idempotent actions planned with them.

use vstd::prelude::*;

use crate::domain::{CausationId, ProcessAction, ProcessInput, ProcessInputKind, ProcessOutcome, ProcessScope, ScopeView};
use crate::ids::{CanonicalEventId, InputId, OutcomeId};

verus! {

/// Maximum append-only outcomes accepted in one atomic process commit.
pub const MAX_OUTCOMES_PER_ATOMIC_COMMIT: usize = 128;

/// Maximum independently idempotent actions accepted in one atomic commit.
pub const MAX_ACTIONS_PER_ATOMIC_COMMIT: usize = 128;

/// Maximum immutable outcomes returned by one bounded replay-read request.
pub const MAX_OUTCOMES_PER_READ_PAGE: u16 = 512;

/// Maximum immutable outcomes retained by one in-memory replay accumulator.
/// Durable adapters may page larger histories through [`OutcomeReplayPageV1`].
pub const MAX_OUTCOMES_PER_REPLAY_LOG: usize = 4096;

/// Typed validation failure for one atomic process commit request.
#[derive(Debug, Clone, Copy, PartialEq, Eq, Structural)]
pub enum CommitValidationError {
    /// A commit must contain at least one durable outcome.
    EmptyOutcomes,
    /// The deduplicated input is malformed.
    InvalidInputSchema,
    /// An outcome does not use the expected contiguous sequence.
    NonContiguousSequence,
    /// A commit attempted to append too many outcomes at once.
    OutcomeLimitExceeded,
    /// A commit contains the same immutable outcome identity more than once.
    DuplicateOutcomeId,
    /// An outcome is malformed.
    InvalidOutcomeSchema,
    /// An outgoing action is malformed.
    InvalidActionSchema,
    /// One outcome is for a different pinned process-definition scope.
    OutcomeScopeMismatch,
    /// One outgoing action is for a different pinned process-definition scope.
    ActionScopeMismatch,
    /// A commit attempted to enqueue too many actions at once.
    ActionLimitExceeded,
    /// A commit contains the same independently idempotent action identity twice.
    DuplicateActionId,
    /// A commit contains two action identities for the same semantic effect.
    DuplicateActionEffectKey,
    /// The deduplicated input is for a different tenant or process.
    InputScopeMismatch,
    /// Canonical source-event deduplication requires an inbox input in the same commit.
    CanonicalSourceWithoutInput,
    /// A canonical source-event key may only deduplicate a canonical-event input.
    CanonicalSourceWithWrongInputKind,
    /// An atomically accepted input must causally explain at least one appended outcome.
    InputNotCausallyRecorded,
    /// Advancing the expected outcome sequence would overflow.
    SequenceOverflow,
}

/// Typed validation failure for a bounded immutable outcome replay page.
#[derive(Debug, Clone, Copy, PartialEq, Eq, Structural)]
pub enum OutcomePageValidationError {
    /// A requested page exceeds the contract's bounded outcome limit.
    LimitExceeded,
    /// One returned outcome is malformed.
    InvalidOutcomeSchema,
    /// One returned outcome does not match the page's pinned process scope.
    OutcomeScopeMismatch,
    /// Returned outcomes do not begin at the requested sequence and remain contiguous.
    NonContiguousSequence,
    /// The supplied continuation does not immediately follow the page's final outcome.
    InvalidContinuation,
    /// Advancing a page sequence would overflow.
    SequenceOverflow,
}

/// Validation failure while constructing an ordered outcome-log view.
#[derive(Debug, Clone, Copy, PartialEq, Eq, Structural)]
pub enum OutcomeLogValidationError {
    /// The outcome does not belong to the accumulator's pinned scope.
    ScopeMismatch,
    /// The outcome sequence is not the next contiguous sequence.
    NonContiguousSequence,
    /// The immutable outcome identity was already observed in this log.
    DuplicateOutcomeId,
    /// The bounded in-memory log limit would be exceeded.
    LimitExceeded,
    /// The outcome is malformed.
    InvalidOutcome,
    /// Advancing the sequence would overflow.
    SequenceOverflow,
}

// ---------------------------------------------------------------------------
// Bounded replay reads.
// ---------------------------------------------------------------------------

/// A bounded request to read immutable outcomes for deterministic replay.
#[derive(Debug, PartialEq, Eq)]
pub struct OutcomeReplayRequestV1 {
    /// Immutable process and definition scope being replayed.
    pub scope: ProcessScope,
    /// First per-process outcome sequence requested.
    pub from_sequence: u64,
    /// Maximum records accepted in this page (positive).
    pub limit: u16,
}

impl OutcomeReplayRequestV1 {
    /// A request is valid while its page size is within the read bound.
    pub open spec fn spec_validate(self) -> Result<(), OutcomePageValidationError> {
        if self.limit > MAX_OUTCOMES_PER_READ_PAGE {
            Err(OutcomePageValidationError::LimitExceeded)
        } else {
            Ok(())
        }
    }

    /// Creates a bounded immutable outcome replay request for a positive
    /// page size.
    pub fn new(scope: ProcessScope, from_sequence: u64, limit: u16) -> (result: Result<
        Self,
        OutcomePageValidationError,
    >)
        requires
            limit > 0,
        ensures
            limit > MAX_OUTCOMES_PER_READ_PAGE ==> result == Err::<Self, OutcomePageValidationError>(
                OutcomePageValidationError::LimitExceeded,
            ),
            limit <= MAX_OUTCOMES_PER_READ_PAGE ==> result == Ok::<Self, OutcomePageValidationError>(
                OutcomeReplayRequestV1 { scope, from_sequence, limit },
            ),
    {
        let request = OutcomeReplayRequestV1 { scope, from_sequence, limit };
        match request.validate() {
            Err(e) => Err(e),
            Ok(()) => Ok(request),
        }
    }

    /// Validates the bounded replay page size.
    pub fn validate(&self) -> (result: Result<(), OutcomePageValidationError>)
        ensures
            result == self.spec_validate(),
    {
        if self.limit > MAX_OUTCOMES_PER_READ_PAGE {
            Err(OutcomePageValidationError::LimitExceeded)
        } else {
            Ok(())
        }
    }
}

/// One bounded immutable outcome page returned for deterministic replay.
#[derive(Debug, PartialEq, Eq)]
pub struct OutcomeReplayPageV1 {
    /// Immutable process and definition scope shared by every returned outcome.
    pub scope: ProcessScope,
    /// First per-process outcome sequence returned in this page.
    pub from_sequence: u64,
    /// Ordered immutable outcomes, bounded by [`MAX_OUTCOMES_PER_READ_PAGE`].
    pub outcomes: Vec<ProcessOutcome>,
    /// Immediate continuation when more immutable outcomes exist.
    pub next_sequence: Option<u64>,
}

/// The failure of the outcome at position `i` of a page starting at `from`,
/// if it fails: another scope, a sequence other than `from + i`, or a
/// sequence that cannot be advanced.
pub open spec fn page_outcome_error(
    scope: ScopeView,
    from: u64,
    outcomes: Seq<ProcessOutcome>,
    i: int,
) -> Option<OutcomePageValidationError> {
    if outcomes[i].scope_view() != scope {
        Some(OutcomePageValidationError::OutcomeScopeMismatch)
    } else if outcomes[i].sequence != from + i {
        Some(OutcomePageValidationError::NonContiguousSequence)
    } else if from + i + 1 > u64::MAX {
        Some(OutcomePageValidationError::SequenceOverflow)
    } else {
        None
    }
}

/// The failure of the first failing outcome among the first `n`.
pub open spec fn first_page_error(
    scope: ScopeView,
    from: u64,
    outcomes: Seq<ProcessOutcome>,
    n: nat,
) -> Option<OutcomePageValidationError>
    decreases n,
{
    if n == 0 {
        None
    } else {
        match first_page_error(scope, from, outcomes, (n - 1) as nat) {
            Some(e) => Some(e),
            None => page_outcome_error(scope, from, outcomes, n - 1),
        }
    }
}

impl OutcomeReplayPageV1 {
    /// The outcome of validating a page: bounded size, every outcome in the
    /// page's scope at its contiguous sequence, and a continuation only after
    /// a non-empty page, exactly at the sequence after its last outcome.
    pub open spec fn spec_validate(self) -> Result<(), OutcomePageValidationError> {
        if self.outcomes@.len() > MAX_OUTCOMES_PER_READ_PAGE {
            Err(OutcomePageValidationError::LimitExceeded)
        } else {
            match first_page_error(
                self.scope@,
                self.from_sequence,
                self.outcomes@,
                self.outcomes@.len(),
            ) {
                Some(e) => Err(e),
                None => if self.outcomes@.len() == 0 && self.next_sequence is Some {
                    Err(OutcomePageValidationError::InvalidContinuation)
                } else if self.next_sequence matches Some(next) && next != self.from_sequence
                    + self.outcomes@.len() {
                    Err(OutcomePageValidationError::InvalidContinuation)
                } else {
                    Ok(())
                },
            }
        }
    }

    /// Creates and validates a bounded replay page.
    pub fn new(
        scope: ProcessScope,
        from_sequence: u64,
        outcomes: Vec<ProcessOutcome>,
        next_sequence: Option<u64>,
    ) -> (result: Result<Self, OutcomePageValidationError>)
        ensures
            match result {
                Ok(page) => page == (OutcomeReplayPageV1 {
                    scope,
                    from_sequence,
                    outcomes,
                    next_sequence,
                }) && page.spec_validate() is Ok,
                Err(e) => (OutcomeReplayPageV1 {
                    scope,
                    from_sequence,
                    outcomes,
                    next_sequence,
                }).spec_validate() == Err::<(), OutcomePageValidationError>(e),
            },
    {
        let page = OutcomeReplayPageV1 { scope, from_sequence, outcomes, next_sequence };
        match page.validate() {
            Err(e) => Err(e),
            Ok(()) => Ok(page),
        }
    }

    /// Validates exact scope, ordering, bounded size, and continuation.
    pub fn validate(&self) -> (result: Result<(), OutcomePageValidationError>)
        ensures
            result == self.spec_validate(),
    {
        if self.outcomes.len() > MAX_OUTCOMES_PER_READ_PAGE as usize {
            return Err(OutcomePageValidationError::LimitExceeded);
        }
        let mut expected_sequence: u64 = self.from_sequence;
        let mut i: usize = 0;
        while i < self.outcomes.len()
            invariant
                0 <= i <= self.outcomes.len(),
                self.outcomes.len() <= MAX_OUTCOMES_PER_READ_PAGE,
                expected_sequence == self.from_sequence + i,
                first_page_error(self.scope@, self.from_sequence, self.outcomes@, i as nat)
                    is None,
            decreases self.outcomes.len() - i,
        {
            let outcome = &self.outcomes[i];
            if outcome.validate().is_err() {
                return Err(OutcomePageValidationError::InvalidOutcomeSchema);
            }
            if !(outcome.tenant_id == self.scope.tenant_id) || !(outcome.process_id
                == self.scope.process_id) || !(outcome.definition_id == self.scope.definition_id)
                || !(outcome.definition_version == self.scope.definition_version) || !(
            outcome.definition_digest == self.scope.definition_digest) {
                proof {
                    lemma_first_page_error_persists(
                        self.scope@,
                        self.from_sequence,
                        self.outcomes@,
                        (i + 1) as nat,
                        self.outcomes@.len(),
                    );
                }
                return Err(OutcomePageValidationError::OutcomeScopeMismatch);
            }
            if outcome.sequence != expected_sequence {
                proof {
                    lemma_first_page_error_persists(
                        self.scope@,
                        self.from_sequence,
                        self.outcomes@,
                        (i + 1) as nat,
                        self.outcomes@.len(),
                    );
                }
                return Err(OutcomePageValidationError::NonContiguousSequence);
            }
            expected_sequence = match expected_sequence.checked_add(1) {
                Some(next) => next,
                None => {
                    proof {
                        lemma_first_page_error_persists(
                            self.scope@,
                            self.from_sequence,
                            self.outcomes@,
                            (i + 1) as nat,
                            self.outcomes@.len(),
                        );
                    }
                    return Err(OutcomePageValidationError::SequenceOverflow);
                },
            };
            i = i + 1;
        }
        if self.outcomes.len() == 0 && self.next_sequence.is_some() {
            return Err(OutcomePageValidationError::InvalidContinuation);
        }
        match self.next_sequence {
            Some(next) => {
                if next != expected_sequence {
                    return Err(OutcomePageValidationError::InvalidContinuation);
                }
            },
            None => {},
        }
        Ok(())
    }
}

/// Once some outcome among the first `m` fails, the first failure among any
/// longer prefix is the same.
pub proof fn lemma_first_page_error_persists(
    scope: ScopeView,
    from: u64,
    outcomes: Seq<ProcessOutcome>,
    m: nat,
    n: nat,
)
    requires
        m <= n,
        first_page_error(scope, from, outcomes, m) is Some,
    ensures
        first_page_error(scope, from, outcomes, n) == first_page_error(scope, from, outcomes, m),
    decreases n - m,
{
    if m < n {
        lemma_first_page_error_persists(scope, from, outcomes, m, (n - 1) as nat);
    }
}

// ---------------------------------------------------------------------------
// Atomic commits.
// ---------------------------------------------------------------------------

/// Atomically persisted input, outcomes, and outgoing actions for one process.
///
/// An adapter must either make every field durable in one local transaction or
/// make none of them durable. `input`, when present, is the immutable inbox key
/// that is deduplicated in that same transaction.
#[derive(Debug, Clone, PartialEq, Eq)]
pub struct AtomicProcessCommitV1 {
    /// Expected first outcome sequence for optimistic concurrency.
    pub expected_sequence: u64,
    /// Optional immutable input accepted by the durable inbox.
    pub input: Option<ProcessInput>,
    /// Verified canonical source event deduplicated with this input, when this
    /// commit advances from a committed-event delivery. The store must
    /// deduplicate it in the same transaction as `input`, outcomes, and
    /// actions, so one source event cannot advance the process twice.
    pub canonical_source_event_id: Option<CanonicalEventId>,
    /// Contiguous append-only process outcomes.
    pub outcomes: Vec<ProcessOutcome>,
    /// Independently idempotent outgoing actions persisted with the outcomes.
    pub actions: Vec<ProcessAction>,
}

/// Whether a later outcome of the batch repeats the identity of outcome `i`.
pub open spec fn outcome_id_repeated_after(outcomes: Seq<ProcessOutcome>, i: int) -> bool {
    exists|j: int| i < j < outcomes.len() && #[trigger] outcomes[j].outcome_id@ == outcomes[i].outcome_id@
}

/// Whether a later action of the batch repeats the identity of action `i`.
pub open spec fn action_id_repeated_after(actions: Seq<ProcessAction>, i: int) -> bool {
    exists|j: int| i < j < actions.len() && #[trigger] actions[j].action_id@ == actions[i].action_id@
}

/// Whether a later action of the batch has the effect key of action `i`.
pub open spec fn effect_key_repeated_after(actions: Seq<ProcessAction>, i: int) -> bool {
    exists|j: int|
        i < j < actions.len() && #[trigger] actions[j].spec_effect_key()@
            == actions[i].spec_effect_key()@
}

/// Whether an outcome records the input `input_id` as its cause.
pub open spec fn caused_by_input(outcome: ProcessOutcome, input_id: InputId) -> bool {
    outcome.causation_id matches CausationId::Input(id) && id@ == input_id@
}

/// The failure of outcome `i` of a commit, if it fails: a scope other than
/// the first outcome's, a sequence other than `expected + i`, an identity
/// repeated later in the batch, or a sequence that cannot be advanced.
pub open spec fn commit_outcome_error(c: AtomicProcessCommitV1, i: int) -> Option<
    CommitValidationError,
> {
    let outcome = c.outcomes@[i];
    if outcome.scope_view() != c.outcomes@[0].scope_view() {
        Some(CommitValidationError::OutcomeScopeMismatch)
    } else if outcome.sequence != c.expected_sequence + i {
        Some(CommitValidationError::NonContiguousSequence)
    } else if outcome_id_repeated_after(c.outcomes@, i) {
        Some(CommitValidationError::DuplicateOutcomeId)
    } else if c.expected_sequence + i + 1 > u64::MAX {
        Some(CommitValidationError::SequenceOverflow)
    } else {
        None
    }
}

/// The failure of the first failing outcome among the first `n`.
pub open spec fn first_commit_outcome_error(c: AtomicProcessCommitV1, n: nat) -> Option<
    CommitValidationError,
>
    decreases n,
{
    if n == 0 {
        None
    } else {
        match first_commit_outcome_error(c, (n - 1) as nat) {
            Some(e) => Some(e),
            None => commit_outcome_error(c, n - 1),
        }
    }
}

/// The failure of action `i` of a commit, if it fails: a scope other than
/// the first outcome's, or an identity or effect key repeated later.
pub open spec fn commit_action_error(c: AtomicProcessCommitV1, i: int) -> Option<
    CommitValidationError,
> {
    if c.actions@[i].scope_view() != c.outcomes@[0].scope_view() {
        Some(CommitValidationError::ActionScopeMismatch)
    } else if action_id_repeated_after(c.actions@, i) {
        Some(CommitValidationError::DuplicateActionId)
    } else if effect_key_repeated_after(c.actions@, i) {
        Some(CommitValidationError::DuplicateActionEffectKey)
    } else {
        None
    }
}

/// The failure of the first failing action among the first `n`.
pub open spec fn first_commit_action_error(c: AtomicProcessCommitV1, n: nat) -> Option<
    CommitValidationError,
>
    decreases n,
{
    if n == 0 {
        None
    } else {
        match first_commit_action_error(c, (n - 1) as nat) {
            Some(e) => Some(e),
            None => commit_action_error(c, n - 1),
        }
    }
}

/// Once some element among the first `m` fails, the first failure among any
/// longer prefix is the same.
pub proof fn lemma_first_commit_error_persists(c: AtomicProcessCommitV1, m: nat, n: nat)
    requires
        m <= n,
    ensures
        first_commit_outcome_error(c, m) is Some ==> first_commit_outcome_error(c, n)
            == first_commit_outcome_error(c, m),
        first_commit_action_error(c, m) is Some ==> first_commit_action_error(c, n)
            == first_commit_action_error(c, m),
    decreases n - m,
{
    if m < n {
        lemma_first_commit_error_persists(c, m, (n - 1) as nat);
    }
}

impl AtomicProcessCommitV1 {
    /// The outcome of validating a commit: a bounded, non-empty, contiguous
    /// run of distinct outcomes in the first outcome's scope; a bounded set
    /// of actions in that scope with distinct identities and effect keys; an
    /// input of that tenant and process; a canonical source event only with
    /// a canonical-event input; and an input that causes some outcome.
    pub open spec fn spec_validate(self) -> Result<(), CommitValidationError> {
        let n = self.outcomes@.len();
        if n == 0 {
            Err(CommitValidationError::EmptyOutcomes)
        } else if n > MAX_OUTCOMES_PER_ATOMIC_COMMIT {
            Err(CommitValidationError::OutcomeLimitExceeded)
        } else if first_commit_outcome_error(self, n) is Some {
            Err(first_commit_outcome_error(self, n)->0)
        } else if self.actions@.len() > MAX_ACTIONS_PER_ATOMIC_COMMIT {
            Err(CommitValidationError::ActionLimitExceeded)
        } else if first_commit_action_error(self, self.actions@.len()) is Some {
            Err(first_commit_action_error(self, self.actions@.len())->0)
        } else if self.input matches Some(input) && (input.tenant_id@
            != self.outcomes@[0].tenant_id@ || input.process_id@
            != self.outcomes@[0].process_id@) {
            Err(CommitValidationError::InputScopeMismatch)
        } else if self.canonical_source_event_id is Some && self.input is None {
            Err(CommitValidationError::CanonicalSourceWithoutInput)
        } else if self.canonical_source_event_id is Some && self.input->0.kind
            != ProcessInputKind::CanonicalEvent {
            Err(CommitValidationError::CanonicalSourceWithWrongInputKind)
        } else if self.input matches Some(input) && !(exists|k: int|
            0 <= k < n && #[trigger] caused_by_input(self.outcomes@[k], input.input_id)) {
            Err(CommitValidationError::InputNotCausallyRecorded)
        } else {
            Ok(())
        }
    }

    /// Creates and validates a single atomic process commit request with no
    /// canonical source event.
    pub fn new(
        expected_sequence: u64,
        input: Option<ProcessInput>,
        outcomes: Vec<ProcessOutcome>,
        actions: Vec<ProcessAction>,
    ) -> (result: Result<Self, CommitValidationError>)
        ensures
            match result {
                Ok(commit) => commit == (AtomicProcessCommitV1 {
                    expected_sequence,
                    input,
                    canonical_source_event_id: None,
                    outcomes,
                    actions,
                }) && commit.spec_validate() is Ok,
                Err(e) => (AtomicProcessCommitV1 {
                    expected_sequence,
                    input,
                    canonical_source_event_id: None,
                    outcomes,
                    actions,
                }).spec_validate() == Err::<(), CommitValidationError>(e),
            },
    {
        let commit = AtomicProcessCommitV1 {
            expected_sequence,
            input,
            canonical_source_event_id: None,
            outcomes,
            actions,
        };
        match commit.validate() {
            Err(e) => Err(e),
            Ok(()) => Ok(commit),
        }
    }

    /// Binds this commit to a previously verified canonical source event.
    pub fn with_canonical_source_event(self, source_event_id: CanonicalEventId) -> (commit: Self)
        ensures
            commit == (AtomicProcessCommitV1 {
                canonical_source_event_id: Some(source_event_id),
                ..self
            }),
    {
        AtomicProcessCommitV1 { canonical_source_event_id: Some(source_event_id), ..self }
    }

    /// Validates outcome order and a single pinned process-definition scope.
    pub fn validate(&self) -> (result: Result<(), CommitValidationError>)
        ensures
            result == self.spec_validate(),
    {
        let n = self.outcomes.len();
        if n == 0 {
            return Err(CommitValidationError::EmptyOutcomes);
        }
        if n > MAX_OUTCOMES_PER_ATOMIC_COMMIT {
            return Err(CommitValidationError::OutcomeLimitExceeded);
        }
        let first_outcome = &self.outcomes[0];
        let expected_scope = first_outcome.scope();
        let mut expected_sequence: u64 = self.expected_sequence;
        let mut i: usize = 0;
        while i < n
            invariant
                0 <= i <= n,
                n == self.outcomes@.len(),
                n <= MAX_OUTCOMES_PER_ATOMIC_COMMIT,
                *first_outcome == self.outcomes@[0],
                expected_scope@ == self.outcomes@[0].scope_view(),
                expected_sequence == self.expected_sequence + i,
                first_commit_outcome_error(*self, i as nat) is None,
            decreases n - i,
        {
            let outcome = &self.outcomes[i];
            if outcome.validate().is_err() {
                return Err(CommitValidationError::InvalidOutcomeSchema);
            }
            let failure = if outcome.validate_for_scope(&expected_scope).is_err() {
                Some(CommitValidationError::OutcomeScopeMismatch)
            } else if outcome.sequence != expected_sequence {
                Some(CommitValidationError::NonContiguousSequence)
            } else if outcome_id_repeats(&self.outcomes, i) {
                Some(CommitValidationError::DuplicateOutcomeId)
            } else if expected_sequence == u64::MAX {
                Some(CommitValidationError::SequenceOverflow)
            } else {
                None
            };
            assert(failure == commit_outcome_error(*self, i as int));
            match failure {
                Some(e) => {
                    proof {
                        lemma_first_commit_error_persists(*self, (i + 1) as nat, n as nat);
                    }
                    return Err(e);
                },
                None => {},
            }
            expected_sequence = expected_sequence + 1;
            i = i + 1;
        }
        let m = self.actions.len();
        if m > MAX_ACTIONS_PER_ATOMIC_COMMIT {
            return Err(CommitValidationError::ActionLimitExceeded);
        }
        let mut k: usize = 0;
        while k < m
            invariant
                0 <= k <= m,
                m == self.actions@.len(),
                n == self.outcomes@.len(),
                n > 0,
                *first_outcome == self.outcomes@[0],
                n <= MAX_OUTCOMES_PER_ATOMIC_COMMIT,
                m <= MAX_ACTIONS_PER_ATOMIC_COMMIT,
                first_commit_outcome_error(*self, n as nat) is None,
                first_commit_action_error(*self, k as nat) is None,
            decreases m - k,
        {
            let action = &self.actions[k];
            if action.validate().is_err() {
                return Err(CommitValidationError::InvalidActionSchema);
            }
            let failure = if !(action.tenant_id == first_outcome.tenant_id) || !(action.process_id
                == first_outcome.process_id) || !(action.definition_id
                == first_outcome.definition_id) || !(action.definition_version
                == first_outcome.definition_version) || !(action.definition_digest
                == first_outcome.definition_digest) {
                Some(CommitValidationError::ActionScopeMismatch)
            } else if action_id_repeats(&self.actions, k) {
                Some(CommitValidationError::DuplicateActionId)
            } else if effect_key_repeats(&self.actions, k) {
                Some(CommitValidationError::DuplicateActionEffectKey)
            } else {
                None
            };
            assert(failure == commit_action_error(*self, k as int));
            match failure {
                Some(e) => {
                    proof {
                        lemma_first_commit_error_persists(*self, (k + 1) as nat, m as nat);
                    }
                    return Err(e);
                },
                None => {},
            }
            k = k + 1;
        }
        match &self.input {
            Some(input) => {
                if input.validate().is_err() {
                    return Err(CommitValidationError::InvalidInputSchema);
                }
                if !(input.tenant_id == first_outcome.tenant_id) || !(input.process_id
                    == first_outcome.process_id) {
                    return Err(CommitValidationError::InputScopeMismatch);
                }
            },
            None => {},
        }
        if self.canonical_source_event_id.is_some() {
            match &self.input {
                None => {
                    return Err(CommitValidationError::CanonicalSourceWithoutInput);
                },
                Some(input) => {
                    if input.kind != ProcessInputKind::CanonicalEvent {
                        return Err(CommitValidationError::CanonicalSourceWithWrongInputKind);
                    }
                },
            }
        }
        match &self.input {
            Some(input) => {
                if !input_causes_some_outcome(&self.outcomes, &input.input_id) {
                    return Err(CommitValidationError::InputNotCausallyRecorded);
                }
            },
            None => {},
        }
        Ok(())
    }
}

fn outcome_id_repeats(outcomes: &Vec<ProcessOutcome>, i: usize) -> (found: bool)
    requires
        i < outcomes.len(),
    ensures
        found == outcome_id_repeated_after(outcomes@, i as int),
{
    let mut j: usize = i + 1;
    while j < outcomes.len()
        invariant
            i < j <= outcomes.len(),
            forall|k: int| i < k < j ==> #[trigger] outcomes@[k].outcome_id@ != outcomes@[i as int].outcome_id@,
        decreases outcomes.len() - j,
    {
        if outcomes[j].outcome_id == outcomes[i].outcome_id {
            return true;
        }
        j = j + 1;
    }
    false
}

fn action_id_repeats(actions: &Vec<ProcessAction>, i: usize) -> (found: bool)
    requires
        i < actions.len(),
    ensures
        found == action_id_repeated_after(actions@, i as int),
{
    let mut j: usize = i + 1;
    while j < actions.len()
        invariant
            i < j <= actions.len(),
            forall|k: int| i < k < j ==> #[trigger] actions@[k].action_id@ != actions@[i as int].action_id@,
        decreases actions.len() - j,
    {
        if actions[j].action_id == actions[i].action_id {
            return true;
        }
        j = j + 1;
    }
    false
}

fn effect_key_repeats(actions: &Vec<ProcessAction>, i: usize) -> (found: bool)
    requires
        i < actions.len(),
    ensures
        found == effect_key_repeated_after(actions@, i as int),
{
    let key = actions[i].effect_key();
    let mut j: usize = i + 1;
    while j < actions.len()
        invariant
            i < j <= actions.len(),
            key == actions@[i as int].spec_effect_key(),
            forall|k: int|
                i < k < j ==> #[trigger] actions@[k].spec_effect_key()@
                    != actions@[i as int].spec_effect_key()@,
        decreases actions.len() - j,
    {
        if actions[j].effect_key() == key {
            return true;
        }
        j = j + 1;
    }
    false
}

fn input_causes_some_outcome(outcomes: &Vec<ProcessOutcome>, input_id: &InputId) -> (found: bool)
    ensures
        found == exists|k: int| 0 <= k < outcomes@.len() && #[trigger] caused_by_input(outcomes@[k], *input_id),
{
    let mut k: usize = 0;
    while k < outcomes.len()
        invariant
            0 <= k <= outcomes.len(),
            forall|j: int| 0 <= j < k ==> !#[trigger] caused_by_input(outcomes@[j], *input_id),
        decreases outcomes.len() - k,
    {
        match &outcomes[k].causation_id {
            CausationId::Input(id) => {
                if *id == *input_id {
                    assert(caused_by_input(outcomes@[k as int], *input_id));
                    return true;
                }
            },
            CausationId::Action(_) => {},
        }
        k = k + 1;
    }
    false
}

/// Receipt returned after a successful atomic local commit.
#[derive(Debug, Clone, Copy, PartialEq, Eq, Structural)]
pub struct AtomicProcessCommitReceiptV1 {
    /// Last sequence made durable by this commit.
    pub committed_through_sequence: u64,
    /// Whether the inbox input was already durably accepted.
    pub duplicate_input: bool,
}

/// Typed validation failure for an atomic commit acknowledgement.
#[derive(Debug, Clone, Copy, PartialEq, Eq, Structural)]
pub enum AtomicProcessCommitReceiptValidationError {
    /// The submitted commit itself failed validation.
    InvalidCommit,
    /// The acknowledgement does not identify the submitted commit's final sequence.
    SequenceMismatch,
    /// A duplicate-input flag cannot be asserted when no input was submitted.
    DuplicateInputWithoutInput,
}

impl AtomicProcessCommitReceiptV1 {
    /// Validates the acknowledgement against the exact atomic commit request:
    /// a valid commit, durable through its final outcome's sequence, and a
    /// duplicate-input flag only when an input was submitted.
    pub fn validate_for(&self, commit: &AtomicProcessCommitV1) -> (result: Result<
        (),
        AtomicProcessCommitReceiptValidationError,
    >)
        ensures
            result == if commit.spec_validate() is Err {
                Err(AtomicProcessCommitReceiptValidationError::InvalidCommit)
            } else if commit.expected_sequence + commit.outcomes@.len() - 1
                != self.committed_through_sequence {
                Err(AtomicProcessCommitReceiptValidationError::SequenceMismatch)
            } else if self.duplicate_input && commit.input is None {
                Err(AtomicProcessCommitReceiptValidationError::DuplicateInputWithoutInput)
            } else {
                Ok(())
            },
    {
        if commit.validate().is_err() {
            return Err(AtomicProcessCommitReceiptValidationError::InvalidCommit);
        }
        let last_offset = commit.outcomes.len().saturating_sub(1) as u64;
        match commit.expected_sequence.checked_add(last_offset) {
            Some(expected_last) => {
                if expected_last != self.committed_through_sequence {
                    return Err(AtomicProcessCommitReceiptValidationError::SequenceMismatch);
                }
            },
            None => {
                return Err(AtomicProcessCommitReceiptValidationError::SequenceMismatch);
            },
        }
        if self.duplicate_input && commit.input.is_none() {
            return Err(AtomicProcessCommitReceiptValidationError::DuplicateInputWithoutInput);
        }
        Ok(())
    }
}

// ---------------------------------------------------------------------------
// The ordered outcome-log accumulator.
// ---------------------------------------------------------------------------

/// Whether `outcomes` is a well-formed log of `scope`: bounded, every outcome
/// in the scope at its own position as sequence, and no identity repeated.
pub open spec fn log_well_formed(scope: ScopeView, outcomes: Seq<ProcessOutcome>) -> bool {
    &&& outcomes.len() <= MAX_OUTCOMES_PER_REPLAY_LOG
    &&& forall|i: int|
        0 <= i < outcomes.len() ==> #[trigger] outcomes[i].sequence == i && outcomes[i].scope_view()
            == scope
    &&& forall|i: int, j: int|
        0 <= i < j < outcomes.len() ==> #[trigger] outcomes[i].outcome_id@
            != #[trigger] outcomes[j].outcome_id@
}

/// Whether an outcome identity occurs among `outcomes`.
pub open spec fn outcome_id_in(outcomes: Seq<ProcessOutcome>, n: int, id: Seq<char>) -> bool {
    exists|k: int| 0 <= k < n && #[trigger] outcomes[k].outcome_id@ == id
}

/// The failure of outcome `i` of a batch appended after `existing`, if it
/// fails: another scope, a sequence other than its position in the log, an
/// identity already in the log or earlier in the batch, or a sequence that
/// cannot be advanced.
pub open spec fn append_outcome_error(
    scope: ScopeView,
    existing: Seq<ProcessOutcome>,
    batch: Seq<ProcessOutcome>,
    i: int,
) -> Option<OutcomeLogValidationError> {
    let outcome = batch[i];
    if outcome.scope_view() != scope {
        Some(OutcomeLogValidationError::ScopeMismatch)
    } else if outcome.sequence != existing.len() + i {
        Some(OutcomeLogValidationError::NonContiguousSequence)
    } else if outcome_id_in(existing, existing.len() as int, outcome.outcome_id@) || outcome_id_in(
        batch,
        i,
        outcome.outcome_id@,
    ) {
        Some(OutcomeLogValidationError::DuplicateOutcomeId)
    } else if existing.len() + i + 1 > u64::MAX {
        Some(OutcomeLogValidationError::SequenceOverflow)
    } else {
        None
    }
}

/// The failure of the first failing outcome among the first `n` of a batch.
pub open spec fn first_append_error(
    scope: ScopeView,
    existing: Seq<ProcessOutcome>,
    batch: Seq<ProcessOutcome>,
    n: nat,
) -> Option<OutcomeLogValidationError>
    decreases n,
{
    if n == 0 {
        None
    } else {
        match first_append_error(scope, existing, batch, (n - 1) as nat) {
            Some(e) => Some(e),
            None => append_outcome_error(scope, existing, batch, n - 1),
        }
    }
}

/// The outcome of appending `batch` to a log of `scope` holding `existing`:
/// refused beyond the replay bound, otherwise refused at the first failing
/// outcome, otherwise accepted whole.
pub open spec fn spec_append(
    scope: ScopeView,
    existing: Seq<ProcessOutcome>,
    batch: Seq<ProcessOutcome>,
) -> Result<(), OutcomeLogValidationError> {
    if existing.len() + batch.len() > MAX_OUTCOMES_PER_REPLAY_LOG {
        Err(OutcomeLogValidationError::LimitExceeded)
    } else {
        match first_append_error(scope, existing, batch, batch.len()) {
            Some(e) => Err(e),
            None => Ok(()),
        }
    }
}

/// Once some outcome among the first `m` fails, the first failure among any
/// longer prefix is the same.
pub proof fn lemma_first_append_error_persists(
    scope: ScopeView,
    existing: Seq<ProcessOutcome>,
    batch: Seq<ProcessOutcome>,
    m: nat,
    n: nat,
)
    requires
        m <= n,
        first_append_error(scope, existing, batch, m) is Some,
    ensures
        first_append_error(scope, existing, batch, n) == first_append_error(
            scope,
            existing,
            batch,
            m,
        ),
    decreases n - m,
{
    if m < n {
        lemma_first_append_error_persists(scope, existing, batch, m, (n - 1) as nat);
    }
}

/// With no failure among the first `n` outcomes of a batch, none of them
/// fails.
pub proof fn lemma_no_append_error(
    scope: ScopeView,
    existing: Seq<ProcessOutcome>,
    batch: Seq<ProcessOutcome>,
    n: nat,
)
    requires
        first_append_error(scope, existing, batch, n) is None,
    ensures
        forall|i: int| 0 <= i < n ==> #[trigger] append_outcome_error(scope, existing, batch, i) is None,
    decreases n,
{
    if n > 0 {
        lemma_no_append_error(scope, existing, batch, (n - 1) as nat);
    }
}

/// An accepted batch extends a well-formed log to a well-formed log.
pub proof fn lemma_accepted_append_well_formed(
    scope: ScopeView,
    existing: Seq<ProcessOutcome>,
    batch: Seq<ProcessOutcome>,
)
    requires
        log_well_formed(scope, existing),
        spec_append(scope, existing, batch) is Ok,
    ensures
        log_well_formed(scope, existing + batch),
{
    lemma_no_append_error(scope, existing, batch, batch.len());
    let all = existing + batch;
    let e = existing.len() as int;
    assert forall|i: int| 0 <= i < all.len() implies #[trigger] all[i].sequence == i
        && all[i].scope_view() == scope by {
        if i >= e {
            assert(append_outcome_error(scope, existing, batch, i - e) is None);
        }
    }
    assert forall|i: int, j: int| 0 <= i < j < all.len() implies #[trigger] all[i].outcome_id@
        != #[trigger] all[j].outcome_id@ by {
        if j >= e {
            assert(append_outcome_error(scope, existing, batch, j - e) is None);
            if i < e {
                if all[i].outcome_id@ == all[j].outcome_id@ {
                    assert(outcome_id_in(existing, e, batch[j - e].outcome_id@));
                }
            } else {
                if all[i].outcome_id@ == all[j].outcome_id@ {
                    assert(outcome_id_in(batch, j - e, batch[j - e].outcome_id@));
                }
            }
        }
    }
}

/// When none of the first `n` outcomes of a batch fails on its own, the
/// first failure among them is none either.
pub proof fn lemma_all_append_ok(
    scope: ScopeView,
    existing: Seq<ProcessOutcome>,
    batch: Seq<ProcessOutcome>,
    n: nat,
)
    requires
        forall|i: int| 0 <= i < n ==> #[trigger] append_outcome_error(scope, existing, batch, i) is None,
    ensures
        first_append_error(scope, existing, batch, n) is None,
    decreases n,
{
    if n > 0 {
        assert(append_outcome_error(scope, existing, batch, n - 1) is None);
        lemma_all_append_ok(scope, existing, batch, (n - 1) as nat);
    }
}

/// Rebuilding a log from nothing accepts every well-formed history whole:
/// replaying the stored outcomes of any log, in order, reproduces that log.
pub proof fn lemma_log_rebuilds_from_its_outcomes(scope: ScopeView, outcomes: Seq<ProcessOutcome>)
    requires
        log_well_formed(scope, outcomes),
    ensures
        spec_append(scope, Seq::empty(), outcomes) == Ok::<(), OutcomeLogValidationError>(()),
        Seq::<ProcessOutcome>::empty() + outcomes == outcomes,
{
    let none = Seq::<ProcessOutcome>::empty();
    assert forall|i: int| 0 <= i < outcomes.len() implies #[trigger] append_outcome_error(
        scope,
        none,
        outcomes,
        i,
    ) is None by {
        assert(outcomes[i].sequence == i);
        if outcome_id_in(outcomes, i, outcomes[i].outcome_id@) {
            let k = choose|k: int| 0 <= k < i && #[trigger] outcomes[k].outcome_id@ == outcomes[i].outcome_id@;
            assert(outcomes[k].outcome_id@ != outcomes[i].outcome_id@);
        }
        if outcome_id_in(none, 0, outcomes[i].outcome_id@) {
            let k = choose|k: int| 0 <= k < 0 && #[trigger] none[k].outcome_id@ == outcomes[i].outcome_id@;
        }
    }
    lemma_all_append_ok(scope, none, outcomes, outcomes.len());
    assert(none + outcomes =~= outcomes);
}

/// Outcome `i` of the joined batch fails exactly as it fails in the part it
/// comes from: in `first` after `existing`, or in `second` after `existing`
/// followed by `first`.
proof fn lemma_joined_append_error(
    scope: ScopeView,
    existing: Seq<ProcessOutcome>,
    first: Seq<ProcessOutcome>,
    second: Seq<ProcessOutcome>,
    i: int,
)
    requires
        0 <= i < first.len() + second.len(),
    ensures
        i < first.len() ==> append_outcome_error(scope, existing, first + second, i)
            == append_outcome_error(scope, existing, first, i),
        i >= first.len() ==> append_outcome_error(scope, existing, first + second, i)
            == append_outcome_error(scope, existing + first, second, i - first.len()),
{
    let joined = first + second;
    let x = joined[i].outcome_id@;
    if i < first.len() {
        assert(joined[i] == first[i]);
        if outcome_id_in(joined, i, x) {
            let k = choose|k: int| 0 <= k < i && #[trigger] joined[k].outcome_id@ == x;
            assert(joined[k] == first[k]);
            assert(outcome_id_in(first, i, x));
        }
        if outcome_id_in(first, i, x) {
            let k = choose|k: int| 0 <= k < i && #[trigger] first[k].outcome_id@ == x;
            assert(joined[k] == first[k]);
            assert(outcome_id_in(joined, i, x));
        }
    } else {
        let j = i - first.len();
        let before = existing + first;
        assert(joined[i] == second[j]);
        let left = outcome_id_in(existing, existing.len() as int, x) || outcome_id_in(joined, i, x);
        let right = outcome_id_in(before, before.len() as int, x) || outcome_id_in(second, j, x);
        if outcome_id_in(existing, existing.len() as int, x) {
            let k = choose|k: int| 0 <= k < existing.len() && #[trigger] existing[k].outcome_id@ == x;
            assert(before[k] == existing[k]);
            assert(outcome_id_in(before, before.len() as int, x));
        }
        if outcome_id_in(joined, i, x) {
            let k = choose|k: int| 0 <= k < i && #[trigger] joined[k].outcome_id@ == x;
            if k < first.len() {
                assert(joined[k] == first[k]);
                assert(before[existing.len() + k] == first[k]);
                assert(outcome_id_in(before, before.len() as int, x));
            } else {
                assert(joined[k] == second[k - first.len()]);
                assert(outcome_id_in(second, j, x));
            }
        }
        if outcome_id_in(before, before.len() as int, x) {
            let k = choose|k: int| 0 <= k < before.len() && #[trigger] before[k].outcome_id@ == x;
            if k < existing.len() {
                assert(before[k] == existing[k]);
                assert(outcome_id_in(existing, existing.len() as int, x));
            } else {
                assert(before[k] == first[k - existing.len()]);
                assert(joined[k - existing.len()] == first[k - existing.len()]);
                assert(outcome_id_in(joined, i, x));
            }
        }
        if outcome_id_in(second, j, x) {
            let k = choose|k: int| 0 <= k < j && #[trigger] second[k].outcome_id@ == x;
            assert(joined[first.len() + k] == second[k]);
            assert(outcome_id_in(joined, i, x));
        }
        assert(left == right);
    }
}

/// Appending two batches one after the other is accepted exactly when
/// appending them as one batch is, and both leave the same outcomes.
pub proof fn lemma_append_batches_compose(
    scope: ScopeView,
    existing: Seq<ProcessOutcome>,
    first: Seq<ProcessOutcome>,
    second: Seq<ProcessOutcome>,
)
    ensures
        spec_append(scope, existing, first + second) is Ok <==> (spec_append(
            scope,
            existing,
            first,
        ) is Ok && spec_append(scope, existing + first, second) is Ok),
        (existing + first) + second == existing + (first + second),
{
    let joined = first + second;
    let before = existing + first;
    if spec_append(scope, existing, joined) is Ok {
        lemma_no_append_error(scope, existing, joined, joined.len());
        assert forall|i: int| 0 <= i < first.len() implies #[trigger] append_outcome_error(
            scope,
            existing,
            first,
            i,
        ) is None by {
            lemma_joined_append_error(scope, existing, first, second, i);
            assert(append_outcome_error(scope, existing, joined, i) is None);
        }
        assert forall|j: int| 0 <= j < second.len() implies #[trigger] append_outcome_error(
            scope,
            before,
            second,
            j,
        ) is None by {
            lemma_joined_append_error(scope, existing, first, second, first.len() + j);
            assert(append_outcome_error(scope, existing, joined, first.len() + j) is None);
        }
        lemma_all_append_ok(scope, existing, first, first.len());
        lemma_all_append_ok(scope, before, second, second.len());
    }
    if spec_append(scope, existing, first) is Ok && spec_append(scope, before, second) is Ok {
        lemma_no_append_error(scope, existing, first, first.len());
        lemma_no_append_error(scope, before, second, second.len());
        assert forall|i: int| 0 <= i < joined.len() implies #[trigger] append_outcome_error(
            scope,
            existing,
            joined,
            i,
        ) is None by {
            lemma_joined_append_error(scope, existing, first, second, i);
            if i < first.len() {
                assert(append_outcome_error(scope, existing, first, i) is None);
            } else {
                assert(append_outcome_error(scope, before, second, i - first.len()) is None);
            }
        }
        lemma_all_append_ok(scope, existing, joined, joined.len());
    }
    assert((existing + first) + second =~= existing + (first + second));
}

/// The view of an outcome log: its pinned scope and accepted outcomes.
pub ghost struct OutcomeLogView {
    pub scope: ProcessScope,
    pub outcomes: Seq<ProcessOutcome>,
}

/// Pure bounded accumulator for an ordered immutable outcome log.
///
/// This type is deliberately not a store: it gives adapters and recovery
/// code one shared validator for append order, scope pinning and idempotent
/// outcome identities. Persistence and compare-and-append remain the adapter's
/// responsibility. Every log is well formed (`log_well_formed`).
#[derive(Debug, PartialEq, Eq)]
pub struct OutcomeLogV1 {
    scope: ProcessScope,
    outcomes: Vec<ProcessOutcome>,
}

impl View for OutcomeLogV1 {
    type V = OutcomeLogView;

    closed spec fn view(&self) -> OutcomeLogView {
        OutcomeLogView { scope: self.scope, outcomes: self.outcomes@ }
    }
}

impl Clone for OutcomeLogV1 {
    fn clone(&self) -> (copy: Self)
        ensures
            copy@ == self@,
    {
        proof {
            use_type_invariant(self);
        }
        let outcomes = self.outcomes.clone();
        assert(outcomes@ == self.outcomes@);
        OutcomeLogV1 { scope: self.scope.clone(), outcomes }
    }
}

impl OutcomeLogV1 {
    #[verifier::type_invariant]
    closed spec fn well_formed(self) -> bool {
        log_well_formed(self.scope@, self.outcomes@)
    }

    /// Creates an empty log whose first accepted outcome must use sequence zero.
    pub fn new(scope: ProcessScope) -> (log: Self)
        ensures
            log@.scope == scope,
            log@.outcomes == Seq::<ProcessOutcome>::empty(),
    {
        OutcomeLogV1 { scope, outcomes: Vec::new() }
    }

    /// Returns the immutable scope pinned to this log.
    pub fn scope(&self) -> (scope: &ProcessScope)
        ensures
            *scope == self@.scope,
    {
        &self.scope
    }

    /// Returns accepted outcomes in contiguous sequence order: each at its
    /// own position as sequence, all in the pinned scope, none repeated.
    pub fn outcomes(&self) -> (outcomes: &[ProcessOutcome])
        ensures
            outcomes@ == self@.outcomes,
            log_well_formed(self@.scope@, outcomes@),
    {
        proof {
            use_type_invariant(self);
        }
        self.outcomes.as_slice()
    }

    /// Returns the number of accepted outcomes.
    pub fn len(&self) -> (len: usize)
        ensures
            len == self@.outcomes.len(),
            len <= MAX_OUTCOMES_PER_REPLAY_LOG,
    {
        proof {
            use_type_invariant(self);
        }
        self.outcomes.len()
    }

    /// Returns whether no outcomes have been accepted.
    pub fn is_empty(&self) -> (empty: bool)
        ensures
            empty == (self@.outcomes.len() == 0),
    {
        self.outcomes.len() == 0
    }

    /// Rebuilds a bounded log from an already ordered durable slice.
    pub fn from_ordered(scope: ProcessScope, outcomes: &[ProcessOutcome]) -> (result: Result<
        Self,
        OutcomeLogValidationError,
    >)
        ensures
            match result {
                Ok(log) => log@.scope == scope && log@.outcomes == outcomes@ && spec_append(
                    scope@,
                    Seq::empty(),
                    outcomes@,
                ) is Ok,
                Err(e) => spec_append(scope@, Seq::empty(), outcomes@) == Err::<
                    (),
                    OutcomeLogValidationError,
                >(e),
            },
    {
        let mut log = OutcomeLogV1::new(scope);
        match log.append(outcomes) {
            Err(e) => Err(e),
            Ok(()) => {
                assert(log@.outcomes =~= outcomes@);
                Ok(log)
            },
        }
    }

    /// Appends outcomes only when all invariants hold.
    ///
    /// Validation is performed before mutating the accumulator, so a failed
    /// batch leaves the log exactly as it was.
    pub fn append(&mut self, outcomes: &[ProcessOutcome]) -> (result: Result<
        (),
        OutcomeLogValidationError,
    >)
        ensures
            result == spec_append(old(self)@.scope@, old(self)@.outcomes, outcomes@),
            final(self)@.scope == old(self)@.scope,
            result is Ok ==> final(self)@.outcomes == old(self)@.outcomes + outcomes@,
            result is Err ==> final(self)@.outcomes == old(self)@.outcomes,
    {
        proof {
            use_type_invariant(&*self);
        }
        let existing_len = self.outcomes.len();
        let new_len = match existing_len.checked_add(outcomes.len()) {
            Some(n) => n,
            None => {
                return Err(OutcomeLogValidationError::LimitExceeded);
            },
        };
        if new_len > MAX_OUTCOMES_PER_REPLAY_LOG {
            return Err(OutcomeLogValidationError::LimitExceeded);
        }
        let ghost scope_view = self.scope@;
        let ghost existing = self.outcomes@;
        let mut expected: u64 = existing_len as u64;
        let mut i: usize = 0;
        while i < outcomes.len()
            invariant
                0 <= i <= outcomes.len(),
                existing_len == existing.len(),
                existing_len + outcomes.len() <= MAX_OUTCOMES_PER_REPLAY_LOG,
                self.outcomes@ == existing,
                self.scope@ == scope_view,
                expected == existing_len + i,
                first_append_error(scope_view, existing, outcomes@, i as nat) is None,
            decreases outcomes.len() - i,
        {
            let outcome = &outcomes[i];
            if outcome.validate().is_err() {
                return Err(OutcomeLogValidationError::InvalidOutcome);
            }
            let failure = if !(outcome.scope() == self.scope) {
                Some(OutcomeLogValidationError::ScopeMismatch)
            } else if outcome.sequence != expected {
                Some(OutcomeLogValidationError::NonContiguousSequence)
            } else if id_in_prefix(self.outcomes.as_slice(), existing_len, &outcome.outcome_id)
                || id_in_prefix(outcomes, i, &outcome.outcome_id) {
                Some(OutcomeLogValidationError::DuplicateOutcomeId)
            } else {
                None
            };
            assert(failure == append_outcome_error(scope_view, existing, outcomes@, i as int));
            match failure {
                Some(e) => {
                    proof {
                        lemma_first_append_error_persists(
                            scope_view,
                            existing,
                            outcomes@,
                            (i + 1) as nat,
                            outcomes@.len(),
                        );
                    }
                    return Err(e);
                },
                None => {},
            }
            expected = expected + 1;
            i = i + 1;
        }
        let mut merged = self.outcomes.clone();
        assert(merged@ == existing);
        let mut k: usize = 0;
        while k < outcomes.len()
            invariant
                0 <= k <= outcomes.len(),
                merged@ == existing + outcomes@.subrange(0, k as int),
            decreases outcomes.len() - k,
        {
            merged.push(outcomes[k].clone());
            assert(outcomes@.subrange(0, k + 1) =~= outcomes@.subrange(0, k as int).push(
                outcomes@[k as int],
            ));
            k = k + 1;
        }
        assert(outcomes@.subrange(0, outcomes@.len() as int) =~= outcomes@);
        proof {
            lemma_accepted_append_well_formed(scope_view, existing, outcomes@);
        }
        self.outcomes = merged;
        Ok(())
    }

    /// Returns the next sequence required by [`Self::append`].
    pub fn next_sequence(&self) -> (next: u64)
        ensures
            next == self@.outcomes.len(),
    {
        proof {
            use_type_invariant(self);
        }
        self.outcomes.len() as u64
    }
}

fn id_in_prefix(outcomes: &[ProcessOutcome], n: usize, id: &OutcomeId) -> (found: bool)
    requires
        n <= outcomes@.len(),
    ensures
        found == outcome_id_in(outcomes@, n as int, id@),
{
    let mut k: usize = 0;
    while k < n
        invariant
            0 <= k <= n,
            n <= outcomes@.len(),
            forall|j: int| 0 <= j < k ==> #[trigger] outcomes@[j].outcome_id@ != id@,
        decreases n - k,
    {
        if outcomes[k].outcome_id == *id {
            return true;
        }
        k = k + 1;
    }
    false
}

} // verus!
