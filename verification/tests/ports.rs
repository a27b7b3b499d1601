use penelope::commit::{
    AtomicProcessCommitReceiptV1, AtomicProcessCommitReceiptValidationError, AtomicProcessCommitV1,
    CommitValidationError, OutcomeLogV1, OutcomeLogValidationError, OutcomePageValidationError,
    OutcomeReplayPageV1, OutcomeReplayRequestV1, MAX_ACTIONS_PER_ATOMIC_COMMIT,
    MAX_OUTCOMES_PER_ATOMIC_COMMIT, MAX_OUTCOMES_PER_READ_PAGE, MAX_OUTCOMES_PER_REPLAY_LOG,
};
use penelope::domain::{
    CanonicalCommand, CanonicalEvent, CausationId, DefinitionMigration, ManualReview, OutcomeActor,
    ProcessAction, ProcessActionKind, ProcessDefinition, ProcessInput, ProcessInputKind,
    ProcessOutcome, ProcessOutcomeFact, ProcessOutcomeKind, ProcessScope,
};
use penelope::ids::{
    ActionId, CanonicalCommitId, CanonicalEventId, ContentDigest, DefinitionId, DefinitionVersion,
    ExternalReferenceId, InputId, LogicalTime, MigrationId, OperationId, OutcomeId, PrincipalId,
    ProcessId, ResourceId, ReviewId, StepId, TenantId,
};
use penelope::outbox::{
    DiagnosticClassV1, DiagnosticValidationError, OutboxAcknowledgementV1, OutboxClaimRequestV1,
    OutboxLeaseTokenV1, OutboxLeaseV1, OutboxRecordV1, PortError, QuotaKindV1, QuotaRequestV1,
    QuotaValidationError, RedactedDiagnosticV1, MAX_OUTBOX_CLAIM_BATCH,
    MAX_OUTBOX_DELIVERY_ATTEMPTS, MAX_QUOTA_CAPACITY, MAX_REDACTED_DIAGNOSTIC_BYTES,
};
use penelope::receipts::{
    ActionDispatchReceiptV1, ActionReceiptValidationError, CanonicalSubmitReceiptV1,
    CanonicalSubmitReceiptValidationError, DefinitionLookupV1, DefinitionMigrationReceiptV1,
    DefinitionMigrationReceiptValidationError, DefinitionRegistrationReceiptV1,
    DefinitionRegistrationReceiptValidationError, InboxAcceptanceReceiptV1,
    InboxReceiptValidationError, ManualReviewOperationV1, ManualReviewReceiptV1,
    ManualReviewReceiptValidationError,
};
use penelope::reconciliation::{
    CanonicalReconciliationV1, CanonicalReconciliationWindowV1, ConsistencyWindowValidationError,
    EffectDispatchRequestV1, EffectReconciliationValidationError, ExternalEffectEvidenceV1,
    ExternalEffectStateV1, ReconciliationValidationError, RecoveryDispositionV1,
};
use penelope::review::{
    AuthorizationRequirementV1, ManualReviewClaimV1, ManualReviewControlV1,
    ManualReviewDecisionV1, ManualReviewResolutionV1, ManualReviewValidationError,
    ProcessAuthorizationDecisionV1, ProcessAuthorizationOperationV1,
};
use penelope::timers::{
    TimerClaimRequestV1, TimerLeaseV1, TimerScheduleV1, TimerValidationError, MAX_TIMER_CLAIM_BATCH,
};

fn tenant(value: &str) -> TenantId {
    TenantId::new(value.to_string()).unwrap()
}

fn process(value: &str) -> ProcessId {
    ProcessId::new(value.to_string()).unwrap()
}

fn definition_id(value: &str) -> DefinitionId {
    DefinitionId::new(value.to_string()).unwrap()
}

fn version(value: &str) -> DefinitionVersion {
    DefinitionVersion::new(value.to_string()).unwrap()
}

fn action_id(value: &str) -> ActionId {
    ActionId::new(value.to_string()).unwrap()
}

fn outcome_id(value: &str) -> OutcomeId {
    OutcomeId::new(value.to_string()).unwrap()
}

fn input_id(value: &str) -> InputId {
    InputId::new(value.to_string()).unwrap()
}

fn principal(value: &str) -> PrincipalId {
    PrincipalId::new(value.to_string()).unwrap()
}

fn review_id(value: &str) -> ReviewId {
    ReviewId::new(value.to_string()).unwrap()
}

fn step(value: &str) -> StepId {
    StepId::new(value.to_string()).unwrap()
}

fn scope() -> ProcessScope {
    ProcessScope::new(
        tenant("tnt_game"),
        process("prc_trade"),
        definition_id("def_trade"),
        version("dfv_one"),
        ContentDigest([9; 32]),
    )
}

fn outcome(sequence: u64, outcome: OutcomeId) -> ProcessOutcome {
    ProcessOutcome::new(
        scope(),
        sequence,
        ProcessOutcomeFact::new(
            outcome,
            CausationId::Action(action_id("act_cause")),
            OutcomeActor::System,
            LogicalTime(1),
            ProcessOutcomeKind::ActionPlanned,
            ContentDigest([1; 32]),
        ),
    )
}

fn action() -> ProcessAction {
    ProcessAction::new(
        scope(),
        action_id("act_dispatch"),
        step("stp_dispatch"),
        0,
        ProcessActionKind::CanonicalCommand,
        ContentDigest([2; 32]),
    )
}

fn input() -> ProcessInput {
    ProcessInput::new(
        tenant("tnt_game"),
        process("prc_trade"),
        input_id("inp_event"),
        ProcessInputKind::CanonicalEvent,
        ContentDigest([3; 32]),
    )
}

#[test]
fn atomic_commit_requires_contiguous_outcomes_in_one_scope() {
    let commit =
        AtomicProcessCommitV1::new(0, None, vec![outcome(0, outcome_id("out_event"))], vec![action()]);
    assert!(commit.is_ok());
}

#[test]
fn atomic_commit_rejects_outgoing_action_from_another_process() {
    let mut wrong_action = action();
    wrong_action.process_id = process("prc_other");
    let error = AtomicProcessCommitV1::new(
        0,
        None,
        vec![outcome(0, outcome_id("out_event"))],
        vec![wrong_action],
    )
    .unwrap_err();
    assert_eq!(error, CommitValidationError::ActionScopeMismatch);
}

#[test]
fn atomic_commit_rejects_outgoing_action_from_another_definition() {
    let mut wrong_action = action();
    wrong_action.definition_digest = ContentDigest([8; 32]);
    let error = AtomicProcessCommitV1::new(
        0,
        None,
        vec![outcome(0, outcome_id("out_event"))],
        vec![wrong_action],
    )
    .unwrap_err();
    assert_eq!(error, CommitValidationError::ActionScopeMismatch);
}

#[test]
fn atomic_commit_rejects_outcomes_from_different_definitions() {
    let mut wrong_outcome = outcome(1, outcome_id("out_second"));
    wrong_outcome.definition_version = version("dfv_two");
    let error = AtomicProcessCommitV1::new(
        0,
        None,
        vec![outcome(0, outcome_id("out_first")), wrong_outcome],
        vec![action()],
    )
    .unwrap_err();
    assert_eq!(error, CommitValidationError::OutcomeScopeMismatch);
}

#[test]
fn authorization_decisions_fail_closed_without_message_matching() {
    assert!(ProcessAuthorizationDecisionV1::Authorized.is_authorized());
    assert_eq!(ProcessAuthorizationDecisionV1::Authorized.require_authorized(), Ok(()));
    assert!(!ProcessAuthorizationDecisionV1::Denied.is_authorized());
    assert_eq!(
        ProcessAuthorizationDecisionV1::Denied.require_authorized(),
        Err(PortError::Unauthorized)
    );
}

#[test]
fn outbox_record_requires_valid_action_and_bounded_attempt() {
    let mut record = OutboxRecordV1::new(action());
    assert!(record.validate().is_ok());
    record = record.next_delivery_attempt().unwrap();
    assert_eq!(record.delivery_attempt, 1);
    record = record.acknowledge().unwrap();
    assert_eq!(record.clone().next_delivery_attempt(), Err(PortError::Invariant));
    assert_eq!(
        record.clone().acknowledge().unwrap().acknowledgement,
        OutboxAcknowledgementV1::Acknowledged
    );
    record.delivery_attempt = MAX_OUTBOX_DELIVERY_ATTEMPTS;
    assert_eq!(record.validate(), Err(PortError::Invariant));
}

#[test]
fn outbox_lease_rejects_a_cross_scope_claim() {
    let request = OutboxClaimRequestV1::new(
        outcome(0, outcome_id("out_claim_scope")).scope(),
        principal("pri_worker"),
        1,
    )
    .unwrap();
    let mut action = action();
    action.process_id = process("prc_other");
    let lease = OutboxLeaseV1 {
        record: OutboxRecordV1::new(action),
        owner: principal("pri_worker"),
        token: OutboxLeaseTokenV1::new(1),
        lease_expires_at: LogicalTime(5),
    };
    assert_eq!(lease.validate_for_claim(&request), Err(PortError::Invariant));
    let owner_mismatch = OutboxClaimRequestV1::new(
        outcome(0, outcome_id("out_claim_scope")).scope(),
        principal("pri_other"),
        1,
    )
    .unwrap();
    assert_eq!(lease.validate_for_claim(&owner_mismatch), Err(PortError::Invariant));
}

#[test]
fn outbox_lease_expiry_is_checked_at_logical_boundary() {
    let action = action();
    let request = OutboxClaimRequestV1::new(
        ProcessScope::new(
            action.tenant_id.clone(),
            action.process_id.clone(),
            action.definition_id.clone(),
            action.definition_version.clone(),
            action.definition_digest,
        ),
        principal("pri_worker"),
        1,
    )
    .unwrap();
    let lease = OutboxLeaseV1 {
        record: OutboxRecordV1::new(action),
        owner: principal("pri_worker"),
        token: OutboxLeaseTokenV1::new(1),
        lease_expires_at: LogicalTime(5),
    };
    assert!(!lease.is_expired_at(LogicalTime(5)));
    assert!(lease.is_expired_at(LogicalTime(6)));
    assert_eq!(lease.validate_at(LogicalTime(6)), Err(PortError::TimedOut));
    assert_eq!(lease.acknowledge_at(LogicalTime(6)), Err(PortError::TimedOut));
    assert_eq!(
        lease.acknowledge_at(LogicalTime(5)).unwrap().acknowledgement,
        OutboxAcknowledgementV1::Acknowledged
    );
    assert_eq!(
        lease.renew_at(LogicalTime(4), LogicalTime(6)).unwrap().lease_expires_at,
        LogicalTime(6)
    );
    assert_eq!(lease.renew_at(LogicalTime(4), LogicalTime(5)), Err(PortError::Invariant));
    assert!(lease.validate_for_claim_at(&request, LogicalTime(5)).is_ok());
    let acknowledged = lease.acknowledge_at(LogicalTime(5)).unwrap();
    let mut acknowledged_lease = lease;
    acknowledged_lease.record = acknowledged;
    assert_eq!(
        acknowledged_lease.renew_at(LogicalTime(4), LogicalTime(6)),
        Err(PortError::Invariant)
    );
}

#[test]
fn outbox_claim_request_rejects_an_oversized_batch() {
    let request = OutboxClaimRequestV1 {
        scope: outcome(0, outcome_id("out_claim_scope")).scope(),
        owner: principal("pri_worker"),
        limit: MAX_OUTBOX_CLAIM_BATCH.saturating_add(1),
    };
    assert_eq!(request.validate(), Err(PortError::QuotaExceeded));
}

#[test]
fn canonical_source_event_key_requires_a_canonical_inbox_input() {
    let source_event_id = CanonicalEventId::new("cev_lock".to_string()).unwrap();
    let mut accepted_outcome = outcome(0, outcome_id("out_event"));
    accepted_outcome.causation_id = CausationId::Input(input_id("inp_event"));
    let valid = AtomicProcessCommitV1::new(0, Some(input()), vec![accepted_outcome], vec![action()])
        .unwrap()
        .with_canonical_source_event(source_event_id.clone());
    assert_eq!(valid.validate(), Ok(()));

    let mut missing_input =
        AtomicProcessCommitV1::new(0, None, vec![outcome(0, outcome_id("out_event"))], vec![action()])
            .unwrap();
    missing_input.canonical_source_event_id = Some(source_event_id.clone());
    assert_eq!(missing_input.validate(), Err(CommitValidationError::CanonicalSourceWithoutInput));

    let mut wrong_kind = AtomicProcessCommitV1::new(
        0,
        Some(input()),
        vec![{
            let mut accepted = outcome(0, outcome_id("out_event"));
            accepted.causation_id = CausationId::Input(input_id("inp_event"));
            accepted
        }],
        vec![action()],
    )
    .unwrap();
    wrong_kind.input.as_mut().unwrap().kind = ProcessInputKind::TimerFired;
    wrong_kind.canonical_source_event_id = Some(source_event_id);
    assert_eq!(
        wrong_kind.validate(),
        Err(CommitValidationError::CanonicalSourceWithWrongInputKind)
    );
}

#[test]
fn atomic_commit_requires_accepted_input_causation() {
    let error = AtomicProcessCommitV1::new(
        0,
        Some(input()),
        vec![outcome(0, outcome_id("out_event"))],
        vec![action()],
    )
    .unwrap_err();
    assert_eq!(error, CommitValidationError::InputNotCausallyRecorded);
}

#[test]
fn external_effect_evidence_requires_the_exact_action_and_effect_key() {
    let request = EffectDispatchRequestV1::new(action()).with_deadline(LogicalTime(10));
    assert_eq!(request.validate(), Ok(()));
    let evidence = ExternalEffectEvidenceV1 {
        action_id: request.action.action_id.clone(),
        effect_key: request.effect_key.clone(),
        external_reference_id: Some(
            ExternalReferenceId::new("ext_remote_effect".to_string()).unwrap(),
        ),
        state: ExternalEffectStateV1::Unknown,
    };
    assert_eq!(evidence.validate_for(&request), Ok(()));

    let wrong_action = ExternalEffectEvidenceV1 { action_id: action_id("act_other"), ..evidence };
    assert_eq!(
        wrong_action.validate_for(&request),
        Err(EffectReconciliationValidationError::ActionMismatch)
    );

    let mut mismatched_request = request;
    mismatched_request.effect_key.payload_digest = ContentDigest([8; 32]);
    assert_eq!(
        mismatched_request.validate(),
        Err(EffectReconciliationValidationError::EffectKeyMismatch)
    );
}

#[test]
fn external_effect_deadline_is_inclusive_and_fail_closed_after_expiry() {
    let request = EffectDispatchRequestV1::new(action()).with_deadline(LogicalTime(5));
    assert!(!request.is_expired_at(LogicalTime(5)));
    assert!(request.validate_at(LogicalTime(6)).is_err());
    assert_eq!(
        request.validate_at(LogicalTime(6)),
        Err(EffectReconciliationValidationError::DeadlineExceeded)
    );
}

#[test]
fn timer_schedule_requires_a_schema_valid_timer_action() {
    let schedule = TimerScheduleV1 { action: action(), due_at: LogicalTime(10) };
    assert_eq!(schedule.validate(), Err(TimerValidationError::InvalidActionKind));

    let mut timer_action = action();
    timer_action.kind = ProcessActionKind::Timer;
    let timer_schedule = TimerScheduleV1 { action: timer_action, due_at: LogicalTime(10) };
    assert_eq!(timer_schedule.validate(), Ok(()));
}

#[test]
fn atomic_commit_rejects_duplicate_outcome_identity() {
    let error = AtomicProcessCommitV1::new(
        0,
        None,
        vec![outcome(0, outcome_id("out_duplicate")), outcome(1, outcome_id("out_duplicate"))],
        vec![action()],
    )
    .unwrap_err();
    assert_eq!(error, CommitValidationError::DuplicateOutcomeId);
}

#[test]
fn atomic_commit_rejects_an_oversized_outcome_batch() {
    let outcomes =
        vec![outcome(0, outcome_id("out_limit")); MAX_OUTCOMES_PER_ATOMIC_COMMIT.saturating_add(1)];
    let error = AtomicProcessCommitV1::new(0, None, outcomes, vec![]).unwrap_err();
    assert_eq!(error, CommitValidationError::OutcomeLimitExceeded);
}

#[test]
fn atomic_commit_rejects_duplicate_action_identity() {
    let error = AtomicProcessCommitV1::new(
        0,
        None,
        vec![outcome(0, outcome_id("out_event"))],
        vec![action(), action()],
    )
    .unwrap_err();
    assert_eq!(error, CommitValidationError::DuplicateActionId);
}

#[test]
fn atomic_commit_rejects_duplicate_action_effect_key() {
    let mut second_action = action();
    second_action.action_id = action_id("act_other");
    let error = AtomicProcessCommitV1::new(
        0,
        None,
        vec![outcome(0, outcome_id("out_event"))],
        vec![action(), second_action],
    )
    .unwrap_err();
    assert_eq!(error, CommitValidationError::DuplicateActionEffectKey);
}

#[test]
fn atomic_commit_rejects_an_oversized_action_batch() {
    let actions = vec![action(); MAX_ACTIONS_PER_ATOMIC_COMMIT.saturating_add(1)];
    let error =
        AtomicProcessCommitV1::new(0, None, vec![outcome(0, outcome_id("out_event"))], actions)
            .unwrap_err();
    assert_eq!(error, CommitValidationError::ActionLimitExceeded);
}

#[test]
fn outcome_replay_pages_are_bounded_scope_pinned_and_contiguous() {
    let page = OutcomeReplayPageV1::new(
        scope(),
        0,
        vec![outcome(0, outcome_id("out_first")), outcome(1, outcome_id("out_second"))],
        Some(2),
    );
    assert!(page.is_ok());

    let bad_continuation =
        OutcomeReplayPageV1::new(scope(), 0, vec![outcome(0, outcome_id("out_first"))], Some(2))
            .unwrap_err();
    assert_eq!(bad_continuation, OutcomePageValidationError::InvalidContinuation);

    let empty_continuation = OutcomeReplayPageV1::new(scope(), 0, vec![], Some(0)).unwrap_err();
    assert_eq!(empty_continuation, OutcomePageValidationError::InvalidContinuation);

    let oversized_limit =
        OutcomeReplayRequestV1::new(scope(), 0, MAX_OUTCOMES_PER_READ_PAGE.saturating_add(1))
            .unwrap_err();
    assert_eq!(oversized_limit, OutcomePageValidationError::LimitExceeded);
}

#[test]
fn reconciliation_window_only_allows_retry_after_horizon() {
    let result = CanonicalReconciliationV1::NotCommitted {
        scope: action().scope(),
        action_id: action().action_id,
    };
    let window =
        CanonicalReconciliationWindowV1::new(result, LogicalTime(10), LogicalTime(20)).unwrap();
    assert_eq!(
        window.require_retry_safe_at(LogicalTime(19)),
        Err(ConsistencyWindowValidationError::WindowNotElapsed)
    );
    assert_eq!(window.require_retry_safe_at(LogicalTime(20)), Ok(action_id("act_dispatch")));
    assert_eq!(window.validate_for_action(&action()), Ok(()));
    assert_eq!(
        window.disposition_at(&action(), LogicalTime(19)),
        Ok(RecoveryDispositionV1::Wait { until: LogicalTime(20) })
    );
    assert_eq!(
        window.disposition_at(&action(), LogicalTime(20)),
        Ok(RecoveryDispositionV1::Retry { action_id: action_id("act_dispatch") })
    );
    let mut wrong_action = action();
    wrong_action.action_id = action_id("act_other");
    assert_eq!(
        window.validate_for_action(&wrong_action),
        Err(ReconciliationValidationError::ActionMismatch)
    );
    assert_eq!(
        CanonicalReconciliationWindowV1::new(window.result, LogicalTime(21), LogicalTime(20)),
        Err(ConsistencyWindowValidationError::InvalidWindow)
    );
    let committed = CanonicalReconciliationWindowV1::new(
        CanonicalReconciliationV1::Unknown {
            scope: action().scope(),
            action_id: action_id("act_dispatch"),
        },
        LogicalTime(0),
        LogicalTime(0),
    )
    .unwrap();
    assert_eq!(
        committed.require_retry_safe_at(LogicalTime(0)),
        Err(ConsistencyWindowValidationError::NotRetrySafe)
    );
    assert_eq!(
        committed.disposition_at(&action(), LogicalTime(0)),
        Ok(RecoveryDispositionV1::Escalate { action_id: action_id("act_dispatch") })
    );
}

#[test]
fn reconciliation_rejects_evidence_for_another_action() {
    let result = CanonicalReconciliationV1::Unknown {
        scope: action().scope(),
        action_id: action_id("act_other"),
    };
    assert_eq!(
        result.validate_for(&action_id("act_dispatch")),
        Err(ReconciliationValidationError::ActionMismatch)
    );
}

fn committed_event(action: &str) -> CanonicalEvent {
    CanonicalEvent::new(
        tenant("tnt_game"),
        CanonicalEventId::new("cev_source".to_string()).unwrap(),
        action_id(action),
        CanonicalCommitId::new("cmt_commit".to_string()).unwrap(),
        0,
        OperationId::new("op_settle".to_string()).unwrap(),
        vec![ResourceId::new("res_market".to_string()).unwrap()],
        ContentDigest([3; 32]),
    )
    .unwrap()
}

#[test]
fn reconciliation_rejects_committed_evidence_for_another_action() {
    let result = CanonicalReconciliationV1::Committed {
        scope: action().scope(),
        event: committed_event("act_other"),
    };
    assert_eq!(
        result.validate_for(&action_id("act_dispatch")),
        Err(ReconciliationValidationError::ActionMismatch)
    );
}

#[test]
fn reconciliation_requires_the_action_scope_and_valid_committed_evidence() {
    let expected = action();
    let valid = CanonicalReconciliationV1::NotCommitted {
        scope: expected.scope(),
        action_id: expected.action_id.clone(),
    };
    assert_eq!(valid.validate_for_action(&expected), Ok(()));

    let wrong_scope = CanonicalReconciliationV1::Unknown {
        scope: ProcessScope::new(
            tenant("tnt_game"),
            process("prc_other"),
            definition_id("def_trade"),
            version("dfv_one"),
            ContentDigest([9; 32]),
        ),
        action_id: expected.action_id.clone(),
    };
    assert_eq!(
        wrong_scope.validate_for_action(&expected),
        Err(ReconciliationValidationError::ScopeMismatch)
    );
}

#[test]
fn manual_review_operations_require_the_pinned_scope_and_dual_control() {
    let review =
        ManualReview::new(scope(), review_id("rev_trade"), 4, Some(LogicalTime(10)), ContentDigest([6; 32]));
    let claim = ManualReviewClaimV1 {
        scope: review.scope(),
        review_id: review.review_id.clone(),
        claimed_by: principal("pri_claimant"),
        claimed_at: LogicalTime(5),
    };
    assert_eq!(claim.validate_for(&review), Ok(()));

    let valid_decision = ManualReviewDecisionV1 {
        scope: review.scope(),
        review_id: review.review_id.clone(),
        claimed_by: claim.claimed_by.clone(),
        decided_by: principal("pri_decider"),
        decided_at: LogicalTime(10),
        resolution: ManualReviewResolutionV1::Compensate,
        control: ManualReviewControlV1::DistinctDecider,
        evidence_digest: ContentDigest([7; 32]),
    };
    assert_eq!(valid_decision.validate_for(&review), Ok(()));

    let same_operator =
        ManualReviewDecisionV1 { decided_by: claim.claimed_by.clone(), ..valid_decision };
    assert_eq!(
        same_operator.validate_for(&review),
        Err(ManualReviewValidationError::DualControlViolation)
    );

    let wrong_scope = ManualReviewClaimV1 {
        scope: ProcessScope::new(
            tenant("tnt_game"),
            process("prc_other"),
            definition_id("def_trade"),
            version("dfv_one"),
            ContentDigest([9; 32]),
        ),
        ..claim
    };
    assert_eq!(wrong_scope.validate_for(&review), Err(ManualReviewValidationError::ScopeMismatch));

    let expired = ManualReviewDecisionV1 { decided_at: LogicalTime(11), ..same_operator };
    assert_eq!(expired.validate_for(&review), Err(ManualReviewValidationError::Expired));
}

#[test]
fn outcome_log_append_is_atomic_and_rejects_reorder_scope_and_duplicates() {
    let scope = outcome(0, outcome_id("out_first")).scope();
    let first = outcome(0, outcome_id("out_first"));
    let second = outcome(1, outcome_id("out_second"));
    let mut log = OutcomeLogV1::new(scope);
    assert_eq!(log.append(&[first, second]), Ok(()));
    assert_eq!(log.next_sequence(), 2);

    let before_failed_append = log.clone();
    let reordered = outcome(4, outcome_id("out_reordered"));
    assert_eq!(log.append(&[reordered]), Err(OutcomeLogValidationError::NonContiguousSequence));
    assert_eq!(log, before_failed_append);

    let duplicate = outcome(2, outcome_id("out_second"));
    assert_eq!(log.append(&[duplicate]), Err(OutcomeLogValidationError::DuplicateOutcomeId));
    assert_eq!(log, before_failed_append);

    let other_scope = ProcessScope::new(
        tenant("tnt_other"),
        process("prc_trade"),
        definition_id("def_trade"),
        version("dfv_one"),
        ContentDigest([9; 32]),
    );
    let cross_scope = ProcessOutcome::new(
        other_scope,
        2,
        ProcessOutcomeFact::new(
            outcome_id("out_cross"),
            CausationId::Action(action_id("act_cause")),
            OutcomeActor::System,
            LogicalTime(1),
            ProcessOutcomeKind::ActionPlanned,
            ContentDigest([1; 32]),
        ),
    );
    assert_eq!(log.append(&[cross_scope]), Err(OutcomeLogValidationError::ScopeMismatch));
    assert_eq!(log, before_failed_append);

    let mut rebuilt = OutcomeLogV1::from_ordered(log.scope().clone(), log.outcomes()).unwrap();
    assert_eq!(rebuilt, log);
    assert_eq!(rebuilt.append(&[outcome(2, outcome_id("out_third"))]), Ok(()));
}

#[test]
fn redacted_diagnostics_are_bounded_and_never_require_message_matching() {
    let scope = outcome(0, outcome_id("out_diag")).scope();
    let diagnostic = RedactedDiagnosticV1::new(
        scope,
        DiagnosticClassV1::from_port_error(PortError::Unauthorized),
        ContentDigest([8; 32]),
        MAX_REDACTED_DIAGNOSTIC_BYTES,
    )
    .unwrap();
    assert_eq!(diagnostic.class, DiagnosticClassV1::Authorization);
    assert_eq!(
        DiagnosticClassV1::from_port_error(PortError::Ambiguous),
        DiagnosticClassV1::Ambiguous
    );
    assert_eq!(
        RedactedDiagnosticV1::new(
            diagnostic.scope,
            DiagnosticClassV1::Invariant,
            diagnostic.evidence_digest,
            MAX_REDACTED_DIAGNOSTIC_BYTES.saturating_add(1),
        ),
        Err(DiagnosticValidationError::MetadataLimitExceeded)
    );
}

#[test]
fn quota_requests_are_typed_bounded_and_fail_closed() {
    let valid = QuotaRequestV1::new(QuotaKindV1::OutstandingActions, 4, 8).unwrap();
    assert_eq!(valid.validate(), Ok(()));
    assert_eq!(
        QuotaRequestV1::new(QuotaKindV1::OutcomeWrites, 9, 8),
        Err(QuotaValidationError::RequestExceedsCapacity)
    );
    assert_eq!(
        QuotaRequestV1::new(
            QuotaKindV1::OpenProcesses,
            MAX_QUOTA_CAPACITY,
            MAX_QUOTA_CAPACITY.saturating_add(1),
        ),
        Err(QuotaValidationError::CapacityLimitExceeded)
    );
}

#[test]
fn authorization_matrix_requires_distinct_principals_for_high_value_actions() {
    assert_eq!(
        ProcessAuthorizationOperationV1::Start.minimum_requirement(),
        AuthorizationRequirementV1::AuthenticatedPrincipal
    );
    assert_eq!(
        ProcessAuthorizationOperationV1::Retry.minimum_requirement(),
        AuthorizationRequirementV1::AuthenticatedPrincipal
    );
    assert_eq!(
        ProcessAuthorizationOperationV1::DecideReview.minimum_requirement(),
        AuthorizationRequirementV1::DistinctPrincipals
    );
    assert_eq!(
        ProcessAuthorizationOperationV1::TerminalOverride.minimum_requirement(),
        AuthorizationRequirementV1::DistinctPrincipals
    );
}

#[test]
fn inbox_receipt_is_bound_to_the_exact_submitted_input() {
    let submitted = input();
    let receipt = InboxAcceptanceReceiptV1::new(
        submitted.tenant_id.clone(),
        submitted.process_id.clone(),
        submitted.input_id.clone(),
        false,
    );
    assert_eq!(receipt.validate_for(&submitted), Ok(()));
    let wrong = ProcessInput::new(
        submitted.tenant_id.clone(),
        submitted.process_id.clone(),
        input_id("inp_other"),
        submitted.kind,
        submitted.payload_digest,
    );
    assert_eq!(receipt.validate_for(&wrong), Err(InboxReceiptValidationError::InputMismatch));
    let mut wrong_scope = wrong;
    wrong_scope.tenant_id = tenant("tnt_other");
    assert_eq!(receipt.validate_for(&wrong_scope), Err(InboxReceiptValidationError::ScopeMismatch));
}

#[test]
fn manual_review_receipt_is_bound_to_the_exact_case() {
    let case = review_id("rev_case");
    let receipt =
        ManualReviewReceiptV1::new_for_operation(case.clone(), ManualReviewOperationV1::Claim, true);
    assert_eq!(receipt.validate_for(&case), Ok(()));
    assert_eq!(receipt.validate_for_operation(&case, ManualReviewOperationV1::Claim), Ok(()));
    assert_eq!(
        receipt.validate_for_operation(&case, ManualReviewOperationV1::Decide),
        Err(ManualReviewReceiptValidationError::OperationMismatch)
    );
    assert_eq!(
        receipt.validate_for(&review_id("rev_other")),
        Err(ManualReviewReceiptValidationError::ReviewMismatch)
    );
}

#[test]
fn action_dispatch_receipt_is_bound_to_the_exact_action() {
    let requested = action();
    let receipt = ActionDispatchReceiptV1::new(requested.scope(), requested.action_id.clone(), true);
    assert_eq!(receipt.validate_for(&requested), Ok(()));
    let mut other = action();
    other.action_id = action_id("act_other");
    assert_eq!(receipt.validate_for(&other), Err(ActionReceiptValidationError::ActionMismatch));
    let mut wrong_scope = action();
    wrong_scope.tenant_id = tenant("tnt_other");
    assert_eq!(receipt.validate_for(&wrong_scope), Err(ActionReceiptValidationError::ScopeMismatch));
}

#[test]
fn canonical_submit_receipt_is_bound_to_the_exact_command_action() {
    let submitted = CanonicalCommand {
        tenant_id: tenant("tnt_game"),
        action_id: action_id("act_dispatch"),
        operation: OperationId::new("op_trade".to_string()).unwrap(),
        resource_ids: vec![ResourceId::new("res_wallet".to_string()).unwrap()],
        payload_digest: ContentDigest([4; 32]),
    };
    let receipt =
        CanonicalSubmitReceiptV1::new(submitted.tenant_id.clone(), submitted.action_id.clone(), true);
    assert_eq!(receipt.validate_for(&submitted), Ok(()));
    let mut other = submitted.clone();
    other.action_id = action_id("act_other");
    assert_eq!(
        receipt.validate_for(&other),
        Err(CanonicalSubmitReceiptValidationError::ActionMismatch)
    );
    let mut wrong_tenant = submitted;
    wrong_tenant.tenant_id = tenant("tnt_other");
    assert_eq!(
        receipt.validate_for(&wrong_tenant),
        Err(CanonicalSubmitReceiptValidationError::ScopeMismatch)
    );
}

#[test]
fn definition_registration_receipt_is_bound_to_identity_version_and_digest() {
    let definition = ProcessDefinition::new(
        definition_id("def_trade"),
        version("dfv_one"),
        ContentDigest([9; 32]),
        vec![step("stp_dispatch")],
    )
    .unwrap();
    let receipt = DefinitionRegistrationReceiptV1::new(
        definition.definition_id.clone(),
        definition.definition_version.clone(),
        definition.definition_digest,
        false,
    );
    assert_eq!(receipt.validate_for(&definition), Ok(()));
    let wrong = DefinitionRegistrationReceiptV1::new(
        definition.definition_id.clone(),
        definition.definition_version.clone(),
        ContentDigest([8; 32]),
        false,
    );
    assert_eq!(
        wrong.validate_for(&definition),
        Err(DefinitionRegistrationReceiptValidationError::DefinitionMismatch)
    );
}

#[test]
fn migration_registration_receipt_is_bound_to_migration_identity() {
    let migration = DefinitionMigration::new(
        MigrationId::new("mig_trade".to_string()).unwrap(),
        definition_id("def_trade"),
        version("dfv_one"),
        ContentDigest([9; 32]),
        version("dfv_two"),
        ContentDigest([8; 32]),
    )
    .unwrap();
    let receipt = DefinitionMigrationReceiptV1::new(migration.migration_id.clone(), true);
    assert_eq!(receipt.validate_for(&migration), Ok(()));
    let wrong =
        DefinitionMigrationReceiptV1::new(MigrationId::new("mig_other".to_string()).unwrap(), false);
    assert_eq!(
        wrong.validate_for(&migration),
        Err(DefinitionMigrationReceiptValidationError::MigrationMismatch)
    );
}

#[test]
fn atomic_commit_receipt_is_bound_to_sequence_and_input_semantics() {
    let mut accepted_outcome = outcome(4, outcome_id("out_commit"));
    accepted_outcome.causation_id = CausationId::Input(input_id("inp_event"));
    let commit =
        AtomicProcessCommitV1::new(4, Some(input()), vec![accepted_outcome], vec![action()]).unwrap();
    let receipt =
        AtomicProcessCommitReceiptV1 { committed_through_sequence: 4, duplicate_input: true };
    assert_eq!(receipt.validate_for(&commit), Ok(()));
    let wrong_sequence =
        AtomicProcessCommitReceiptV1 { committed_through_sequence: 5, duplicate_input: false };
    assert_eq!(
        wrong_sequence.validate_for(&commit),
        Err(AtomicProcessCommitReceiptValidationError::SequenceMismatch)
    );
    let no_input = AtomicProcessCommitV1::new(
        4,
        None,
        vec![outcome(4, outcome_id("out_commit_no_input"))],
        vec![action()],
    )
    .unwrap();
    let invalid_duplicate =
        AtomicProcessCommitReceiptV1 { committed_through_sequence: 4, duplicate_input: true };
    assert_eq!(
        invalid_duplicate.validate_for(&no_input),
        Err(AtomicProcessCommitReceiptValidationError::DuplicateInputWithoutInput)
    );
    let malformed = AtomicProcessCommitV1 {
        expected_sequence: 4,
        input: None,
        canonical_source_event_id: None,
        outcomes: Vec::new(),
        actions: Vec::new(),
    };
    assert_eq!(
        receipt.validate_for(&malformed),
        Err(AtomicProcessCommitReceiptValidationError::InvalidCommit)
    );
}

#[test]
fn timer_claim_lease_requires_due_time_scope_owner_and_expiry() {
    let mut timer_action = action();
    timer_action.kind = ProcessActionKind::Timer;
    let timer = TimerScheduleV1 { action: timer_action, due_at: LogicalTime(5) };
    let request =
        TimerClaimRequestV1::new(timer.action.scope(), principal("pri_worker"), LogicalTime(5), 1)
            .unwrap();
    let lease = TimerLeaseV1 {
        timer,
        owner: principal("pri_worker"),
        token: OutboxLeaseTokenV1::new(1),
        lease_expires_at: LogicalTime(6),
    };
    assert_eq!(lease.validate_for_claim(&request), Ok(()));
    assert_eq!(lease.validate_at(LogicalTime(6)), Ok(()));
    assert_eq!(lease.acknowledge_at(LogicalTime(6)), Ok(lease.timer.clone()));
    assert_eq!(lease.validate_at(LogicalTime(7)), Err(PortError::TimedOut));
    assert_eq!(lease.acknowledge_at(LogicalTime(7)), Err(PortError::TimedOut));
}

// Further scenarios of the port contracts.

#[test]
fn definition_lookup_keeps_identity_and_version() {
    let lookup = DefinitionLookupV1::new(definition_id("def_trade"), version("dfv_one"));
    assert_eq!(lookup.definition_id, definition_id("def_trade"));
    assert_eq!(lookup.definition_version, version("dfv_one"));
}

#[test]
fn every_port_failure_has_a_stable_class() {
    let expected = [
        (PortError::Unavailable, DiagnosticClassV1::Availability),
        (PortError::Conflict, DiagnosticClassV1::Conflict),
        (PortError::Unauthorized, DiagnosticClassV1::Authorization),
        (PortError::QuotaExceeded, DiagnosticClassV1::Invariant),
        (PortError::TimedOut, DiagnosticClassV1::Timeout),
        (PortError::Cancelled, DiagnosticClassV1::Availability),
        (PortError::Ambiguous, DiagnosticClassV1::Ambiguous),
        (PortError::Invariant, DiagnosticClassV1::Invariant),
    ];
    for (error, class) in expected {
        assert_eq!(DiagnosticClassV1::from_port_error(error), class);
    }
}

#[test]
fn outbox_delivery_attempts_are_bounded() {
    let mut record = OutboxRecordV1::new(action());
    for expected in 1..MAX_OUTBOX_DELIVERY_ATTEMPTS {
        record = record.next_delivery_attempt().unwrap();
        assert_eq!(record.delivery_attempt, expected);
    }
    assert_eq!(record.delivery_attempt, MAX_OUTBOX_DELIVERY_ATTEMPTS - 1);
    assert_eq!(record.next_delivery_attempt(), Err(PortError::Invariant));
}

#[test]
fn lease_token_keeps_its_non_zero_value() {
    assert_eq!(OutboxLeaseTokenV1::new(42).get(), 42);
}

#[test]
fn timer_claim_rejects_oversized_batches_and_substituted_leases() {
    assert_eq!(
        TimerClaimRequestV1::new(scope(), principal("pri_worker"), LogicalTime(5), MAX_TIMER_CLAIM_BATCH + 1),
        Err(PortError::QuotaExceeded)
    );
    let mut timer_action = action();
    timer_action.kind = ProcessActionKind::Timer;
    let request =
        TimerClaimRequestV1::new(scope(), principal("pri_worker"), LogicalTime(5), 1).unwrap();
    let not_due = TimerLeaseV1 {
        timer: TimerScheduleV1 { action: timer_action.clone(), due_at: LogicalTime(6) },
        owner: principal("pri_worker"),
        token: OutboxLeaseTokenV1::new(7),
        lease_expires_at: LogicalTime(9),
    };
    assert_eq!(not_due.validate_for_claim(&request), Err(PortError::Invariant));
    let stale = TimerLeaseV1 {
        timer: TimerScheduleV1 { action: timer_action, due_at: LogicalTime(5) },
        owner: principal("pri_worker"),
        token: OutboxLeaseTokenV1::new(7),
        lease_expires_at: LogicalTime(4),
    };
    assert_eq!(stale.validate_for_claim(&request), Err(PortError::TimedOut));
}

#[test]
fn outcome_log_rejects_batches_beyond_the_replay_bound() {
    let mut log = OutcomeLogV1::new(scope());
    let outcomes: Vec<ProcessOutcome> = (0..=MAX_OUTCOMES_PER_REPLAY_LOG as u64)
        .map(|sequence| outcome(sequence, outcome_id(&format!("out_{sequence}"))))
        .collect();
    assert_eq!(log.append(&outcomes), Err(OutcomeLogValidationError::LimitExceeded));
    assert!(log.is_empty());
    assert_eq!(log.len(), 0);
    assert_eq!(
        OutcomeLogV1::from_ordered(scope(), &outcomes[1..2]),
        Err(OutcomeLogValidationError::NonContiguousSequence)
    );
}

#[test]
fn replay_page_rejects_a_cross_scope_outcome_and_a_gap() {
    let mut foreign = outcome(0, outcome_id("out_first"));
    foreign.process_id = process("prc_other");
    assert_eq!(
        OutcomeReplayPageV1::new(scope(), 0, vec![foreign], None),
        Err(OutcomePageValidationError::OutcomeScopeMismatch)
    );
    assert_eq!(
        OutcomeReplayPageV1::new(scope(), 3, vec![outcome(4, outcome_id("out_first"))], None),
        Err(OutcomePageValidationError::NonContiguousSequence)
    );
    assert!(OutcomeReplayRequestV1::new(scope(), 0, MAX_OUTCOMES_PER_READ_PAGE).is_ok());
}

#[test]
fn committed_evidence_recovers_as_committed_and_never_retries() {
    let window = CanonicalReconciliationWindowV1::new(
        CanonicalReconciliationV1::Committed {
            scope: action().scope(),
            event: committed_event("act_dispatch"),
        },
        LogicalTime(1),
        LogicalTime(2),
    )
    .unwrap();
    assert_eq!(
        window.disposition_at(&action(), LogicalTime(50)),
        Ok(RecoveryDispositionV1::Committed { event: committed_event("act_dispatch") })
    );
    assert_eq!(
        window.require_retry_safe_at(LogicalTime(50)),
        Err(ConsistencyWindowValidationError::NotRetrySafe)
    );
}

#[test]
fn outcome_log_rebuilds_exactly_from_its_own_outcomes() {
    let mut log = OutcomeLogV1::new(scope());
    log.append(&[
        outcome(0, outcome_id("out_started")),
        outcome(1, outcome_id("out_planned")),
        outcome(2, outcome_id("out_attempted")),
    ])
    .unwrap();
    let rebuilt = OutcomeLogV1::from_ordered(log.scope().clone(), log.outcomes()).unwrap();
    assert_eq!(rebuilt, log);
    assert_eq!(rebuilt.next_sequence(), 3);
}

#[test]
fn outcome_log_accepts_two_batches_exactly_as_one_joined_batch() {
    let first = vec![outcome(0, outcome_id("out_a")), outcome(1, outcome_id("out_b"))];
    let second = vec![outcome(2, outcome_id("out_c"))];
    let mut joined = first.clone();
    joined.extend(second.iter().cloned());

    let mut stepwise = OutcomeLogV1::new(scope());
    stepwise.append(&first).unwrap();
    stepwise.append(&second).unwrap();
    let mut at_once = OutcomeLogV1::new(scope());
    at_once.append(&joined).unwrap();
    assert_eq!(stepwise, at_once);

    let repeated = vec![outcome(2, outcome_id("out_a"))];
    let mut stepwise = OutcomeLogV1::new(scope());
    stepwise.append(&first).unwrap();
    assert_eq!(stepwise.append(&repeated), Err(OutcomeLogValidationError::DuplicateOutcomeId));
    let mut joined = first.clone();
    joined.extend(repeated.iter().cloned());
    assert_eq!(
        OutcomeLogV1::new(scope()).append(&joined),
        Err(OutcomeLogValidationError::DuplicateOutcomeId)
    );
}
