//! Fault-injection drill for the atomic process-store contract.
//!
//! This is deliberately a test double, not a shipped adapter. It exercises the
//! transactional invariants an outer durable adapter must preserve, driving the
//! library's commit and replay-page validation directly.

use std::cell::{Cell, RefCell};

use penelope::commit::{
    AtomicProcessCommitReceiptV1, AtomicProcessCommitV1, OutcomeReplayPageV1,
    OutcomeReplayRequestV1,
};
use penelope::domain::{
    CausationId, OutcomeActor, ProcessAction, ProcessActionKind, ProcessInput, ProcessInputKind,
    ProcessOutcome, ProcessOutcomeFact, ProcessOutcomeKind, ProcessScope,
};
use penelope::ids::{
    ActionId, CanonicalEventId, ContentDigest, DefinitionId, DefinitionVersion, InputId,
    LogicalTime, OutcomeId, ProcessId, StepId, TenantId,
};
use penelope::outbox::PortError;

#[derive(Debug, Clone, PartialEq, Eq)]
struct StoreState {
    next_sequence: u64,
    inputs: Vec<InputId>,
    canonical_source_events: Vec<CanonicalEventId>,
    outcomes: Vec<ProcessOutcome>,
    actions: Vec<ProcessAction>,
}

#[derive(Debug, Clone, Copy, PartialEq, Eq)]
enum CommitFailpoint {
    BeforeInputStage,
    AfterInputStage,
    AfterOutcomeAppend,
    AfterActionEnqueue,
}

struct FaultInjectingStore {
    state: RefCell<StoreState>,
    failpoint: Cell<Option<CommitFailpoint>>,
}

impl FaultInjectingStore {
    fn new() -> Self {
        Self {
            state: RefCell::new(StoreState {
                next_sequence: 0,
                inputs: Vec::new(),
                canonical_source_events: Vec::new(),
                outcomes: Vec::new(),
                actions: Vec::new(),
            }),
            failpoint: Cell::new(None),
        }
    }

    fn fail_next_commit_at(&self, failpoint: CommitFailpoint) {
        self.failpoint.set(Some(failpoint));
    }

    fn take_failpoint(&self, failpoint: CommitFailpoint) -> bool {
        if self.failpoint.get() == Some(failpoint) {
            self.failpoint.set(None);
            true
        } else {
            false
        }
    }

    fn snapshot(&self) -> StoreState {
        self.state.borrow().clone()
    }

    fn commit(
        &self,
        commit: &AtomicProcessCommitV1,
    ) -> Result<AtomicProcessCommitReceiptV1, PortError> {
        commit.validate().map_err(|_error| PortError::Invariant)?;
        let mut current = self.state.borrow_mut();
        if let Some(input) = &commit.input {
            if current.inputs.iter().any(|seen| seen == &input.input_id) {
                return Ok(AtomicProcessCommitReceiptV1 {
                    committed_through_sequence: current.next_sequence.saturating_sub(1),
                    duplicate_input: true,
                });
            }
        }
        if commit.canonical_source_event_id.as_ref().is_some_and(|source_event_id| {
            current.canonical_source_events.iter().any(|seen| seen == source_event_id)
        }) {
            return Ok(AtomicProcessCommitReceiptV1 {
                committed_through_sequence: current.next_sequence.saturating_sub(1),
                duplicate_input: true,
            });
        }
        if commit.expected_sequence != current.next_sequence {
            return Err(PortError::Conflict);
        }
        if commit.actions.iter().any(|action| {
            current.actions.iter().any(|stored| {
                stored.action_id == action.action_id || stored.effect_key() == action.effect_key()
            })
        }) {
            return Err(PortError::Invariant);
        }
        let mut staged = current.clone();
        if let Some(input) = &commit.input {
            if self.take_failpoint(CommitFailpoint::BeforeInputStage) {
                return Err(PortError::Unavailable);
            }
            staged.inputs.push(input.input_id.clone());
            if let Some(source_event_id) = &commit.canonical_source_event_id {
                staged.canonical_source_events.push(source_event_id.clone());
            }
            if self.take_failpoint(CommitFailpoint::AfterInputStage) {
                return Err(PortError::Unavailable);
            }
        }
        staged.next_sequence = staged
            .next_sequence
            .checked_add(
                u64::try_from(commit.outcomes.len()).map_err(|_error| PortError::Invariant)?,
            )
            .ok_or(PortError::Invariant)?;
        staged.outcomes.extend(commit.outcomes.clone());
        if self.take_failpoint(CommitFailpoint::AfterOutcomeAppend) {
            return Err(PortError::Unavailable);
        }
        staged.actions.extend(commit.actions.clone());
        if self.take_failpoint(CommitFailpoint::AfterActionEnqueue) {
            return Err(PortError::Unavailable);
        }
        let receipt = AtomicProcessCommitReceiptV1 {
            committed_through_sequence: staged.next_sequence.saturating_sub(1),
            duplicate_input: false,
        };
        *current = staged;
        Ok(receipt)
    }

    fn read_outcomes(
        &self,
        request: &OutcomeReplayRequestV1,
    ) -> Result<OutcomeReplayPageV1, PortError> {
        request.validate().map_err(|_error| PortError::Invariant)?;
        let current = self.state.borrow();
        let outcomes = current
            .outcomes
            .iter()
            .filter(|outcome| outcome.sequence >= request.from_sequence)
            .take(usize::from(request.limit))
            .cloned()
            .collect::<Vec<_>>();
        if outcomes.iter().any(|outcome| {
            outcome.tenant_id != request.scope.tenant_id
                || outcome.process_id != request.scope.process_id
                || outcome.definition_id != request.scope.definition_id
                || outcome.definition_version != request.scope.definition_version
                || outcome.definition_digest != request.scope.definition_digest
        }) {
            return Err(PortError::Invariant);
        }
        let next_sequence = outcomes.last().and_then(|outcome| {
            outcome.sequence.checked_add(1).filter(|next| *next < current.next_sequence)
        });
        OutcomeReplayPageV1::new(request.scope.clone(), request.from_sequence, outcomes, next_sequence)
            .map_err(|_error| PortError::Invariant)
    }
}

fn scope() -> ProcessScope {
    ProcessScope::new(
        TenantId::new("tnt_fault".to_string()).unwrap(),
        ProcessId::new("prc_fault".to_string()).unwrap(),
        DefinitionId::new("def_fault".to_string()).unwrap(),
        DefinitionVersion::new("dfv_one".to_string()).unwrap(),
        ContentDigest([9; 32]),
    )
}

fn commit() -> AtomicProcessCommitV1 {
    let scope = scope();
    let input = ProcessInput::new(
        scope.tenant_id.clone(),
        scope.process_id.clone(),
        InputId::new("inp_fault".to_string()).unwrap(),
        ProcessInputKind::CanonicalEvent,
        ContentDigest([1; 32]),
    );
    let outcome = ProcessOutcome::new(
        scope.clone(),
        0,
        ProcessOutcomeFact::new(
            OutcomeId::new("out_fault".to_string()).unwrap(),
            CausationId::Input(input.input_id.clone()),
            OutcomeActor::System,
            LogicalTime(1),
            ProcessOutcomeKind::Started,
            ContentDigest([2; 32]),
        ),
    );
    let action = ProcessAction::new(
        scope,
        ActionId::new("act_fault".to_string()).unwrap(),
        StepId::new("stp_fault".to_string()).unwrap(),
        0,
        ProcessActionKind::CanonicalCommand,
        ContentDigest([3; 32]),
    );
    AtomicProcessCommitV1::new(0, Some(input), vec![outcome], vec![action])
        .expect("valid atomic commit")
        .with_canonical_source_event(CanonicalEventId::new("cev_fault".to_string()).unwrap())
}

#[test]
fn injected_failure_at_every_atomic_boundary_has_no_visible_partial_state() {
    for failpoint in [
        CommitFailpoint::BeforeInputStage,
        CommitFailpoint::AfterInputStage,
        CommitFailpoint::AfterOutcomeAppend,
        CommitFailpoint::AfterActionEnqueue,
    ] {
        let store = FaultInjectingStore::new();
        let commit = commit();
        let before = store.snapshot();
        store.fail_next_commit_at(failpoint);
        assert_eq!(store.commit(&commit), Err(PortError::Unavailable));
        assert_eq!(store.snapshot(), before);

        let receipt = store.commit(&commit).expect("commit recovers");
        assert_eq!(receipt.committed_through_sequence, 0);
        assert!(!receipt.duplicate_input);
        let duplicate = store.commit(&commit).expect("duplicate is idempotent");
        assert!(duplicate.duplicate_input);
        let mut same_source_new_inbox_id = commit.clone();
        same_source_new_inbox_id.input.as_mut().expect("commit has input").input_id =
            InputId::new("inp_redelivery".to_string()).unwrap();
        same_source_new_inbox_id.outcomes.first_mut().expect("commit has an outcome").causation_id =
            CausationId::Input(InputId::new("inp_redelivery".to_string()).unwrap());
        let duplicate_source = store
            .commit(&same_source_new_inbox_id)
            .expect("canonical source redelivery is idempotent");
        assert!(duplicate_source.duplicate_input);
        assert_eq!(store.snapshot().outcomes.len(), 1);
        assert_eq!(store.snapshot().actions.len(), 1);

        let request = OutcomeReplayRequestV1::new(scope(), 0, 1).expect("bounded replay request");
        let page = store.read_outcomes(&request).expect("replay succeeds after recovery");
        assert_eq!(page.outcomes.len(), 1);
        let first_outcome = page.outcomes.first().expect("one replayed outcome");
        assert_eq!(first_outcome.sequence, 0);

        let conflict = AtomicProcessCommitV1::new(0, None, vec![first_outcome.clone()], Vec::new())
            .expect("locally valid stale commit");
        assert_eq!(store.commit(&conflict), Err(PortError::Conflict));
    }
}
