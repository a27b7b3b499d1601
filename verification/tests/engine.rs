use penelope::domain::{ProcessAction, ProcessActionKind, MAX_DEFINITION_STEPS};
use penelope::engine::{
    apply_action_result, apply_manual_resolution, decide, fire_retry_timer, replay, replay_ordered,
    schedule_retry_timer, start, ActionResultObservationV1, ActionResultV1, CompensationPlanV1,
    EngineError, LinearSagaDefinitionV1, LinearSagaEventEnvelopeV1, LinearSagaEventV1,
    LinearSagaInputV1, LinearSagaProjectionV1, RetryBackoffV1, RetryPolicyV1, SagaStatusV1,
    StepPlanV1,
};
use penelope::ids::{
    ActionId, ContentDigest, DefinitionId, DefinitionVersion, LogicalTime, ProcessId, StepId,
    TenantId,
};
use penelope::review::ManualReviewResolutionV1;

fn tenant(value: &str) -> TenantId {
    TenantId::new(value.to_string()).unwrap()
}

fn process(value: &str) -> ProcessId {
    ProcessId::new(value.to_string()).unwrap()
}

fn action_id(value: &str) -> ActionId {
    ActionId::new(value.to_string()).unwrap()
}

fn step(value: &str) -> StepId {
    StepId::new(value.to_string()).unwrap()
}

fn definition_id(value: &str) -> DefinitionId {
    DefinitionId::new(value.to_string()).unwrap()
}

fn version(value: &str) -> DefinitionVersion {
    DefinitionVersion::new(value.to_string()).unwrap()
}

fn definition() -> LinearSagaDefinitionV1 {
    let retry_policy = RetryPolicyV1::new(2);
    LinearSagaDefinitionV1 {
        definition_id: definition_id("def_trade"),
        definition_version: version("dfv_one"),
        definition_digest: ContentDigest([99; 32]),
        steps: vec![
            StepPlanV1 {
                step_id: step("stp_lock"),
                action_kind: ProcessActionKind::CanonicalCommand,
                payload_digest: ContentDigest([1; 32]),
                retry_policy,
                compensation: None,
            },
            StepPlanV1 {
                step_id: step("stp_settle"),
                action_kind: ProcessActionKind::CanonicalCommand,
                payload_digest: ContentDigest([2; 32]),
                retry_policy,
                compensation: None,
            },
        ],
    }
}

fn observation(action: &ProcessAction, result: ActionResultV1) -> ActionResultObservationV1 {
    ActionResultObservationV1 { action_id: action.action_id.clone(), result }
}

#[test]
fn linear_definition_rejects_duplicate_and_oversized_steps() {
    let policy = RetryPolicyV1::no_retry();
    let duplicate = LinearSagaDefinitionV1::new(
        definition_id("def_trade"),
        version("dfv_one"),
        ContentDigest([99; 32]),
        vec![
            StepPlanV1::canonical_command(step("stp_lock"), ContentDigest([1; 32]), policy),
            StepPlanV1::canonical_command(step("stp_lock"), ContentDigest([2; 32]), policy),
        ],
    );
    assert_eq!(duplicate.validate().unwrap_err(), EngineError::DuplicateStepId);
    let oversized = LinearSagaDefinitionV1::new(
        definition_id("def_trade"),
        version("dfv_one"),
        ContentDigest([99; 32]),
        vec![
            StepPlanV1::canonical_command(step("stp_limit"), ContentDigest([3; 32]), policy);
            MAX_DEFINITION_STEPS.saturating_add(1)
        ],
    );
    assert_eq!(oversized.validate().unwrap_err(), EngineError::DefinitionStepLimitExceeded);
}

#[test]
fn success_plans_ordered_steps_then_completes() {
    let definition = definition();
    let first = start(&definition, tenant("tnt_game"), process("prc_trade"), action_id("act_lock"))
        .unwrap();
    assert_eq!(first.next_action.as_ref().unwrap().step_id, step("stp_lock"));
    assert_eq!(first.next_action.as_ref().unwrap().definition_digest, definition.definition_digest);
    let second = apply_action_result(
        &definition,
        &first.projection,
        tenant("tnt_game"),
        process("prc_trade"),
        &observation(first.next_action.as_ref().unwrap(), ActionResultV1::Succeeded),
        Some(action_id("act_settle")),
    )
    .unwrap();
    assert_eq!(second.next_action.as_ref().unwrap().step_id, step("stp_settle"));
    let complete = apply_action_result(
        &definition,
        &second.projection,
        tenant("tnt_game"),
        process("prc_trade"),
        &observation(second.next_action.as_ref().unwrap(), ActionResultV1::Succeeded),
        None,
    )
    .unwrap();
    assert_eq!(complete.projection.status, SagaStatusV1::Completed);
}

#[test]
fn decide_routes_typed_start_and_result_inputs_without_side_effects() {
    let definition = definition();
    let started = decide(
        &definition,
        None,
        tenant("tnt_game"),
        process("prc_trade"),
        &LinearSagaInputV1::Start { action_id: action_id("act_lock") },
    )
    .unwrap();
    let advanced = decide(
        &definition,
        Some(&started.projection),
        tenant("tnt_game"),
        process("prc_trade"),
        &LinearSagaInputV1::ActionResult {
            observation: ActionResultObservationV1::succeeded(
                started.next_action.as_ref().unwrap().action_id.clone(),
            ),
            next_action_id: Some(action_id("act_settle")),
        },
    )
    .unwrap();
    assert_eq!(advanced.next_action.as_ref().unwrap().step_id, step("stp_settle"));
}

#[test]
fn decide_rejects_a_result_without_a_replayed_projection() {
    let error = decide(
        &definition(),
        None,
        tenant("tnt_game"),
        process("prc_trade"),
        &LinearSagaInputV1::ActionResult {
            observation: ActionResultObservationV1::succeeded(action_id("act_lock")),
            next_action_id: Some(action_id("act_settle")),
        },
    )
    .unwrap_err();
    assert_eq!(error, EngineError::MissingProjection);
}

#[test]
fn retry_backoff_is_deterministic_exponential_and_capped() {
    let backoff = RetryBackoffV1::new(10, 40).unwrap();
    let policy = RetryPolicyV1::new(5).with_backoff(backoff);
    assert_eq!(policy.retry_due_at(LogicalTime(100), 0).unwrap(), Some(LogicalTime(110)));
    assert_eq!(policy.retry_due_at(LogicalTime(100), 1).unwrap(), Some(LogicalTime(120)));
    assert_eq!(policy.retry_due_at(LogicalTime(100), 2).unwrap(), Some(LogicalTime(140)));
    assert_eq!(policy.retry_due_at(LogicalTime(100), 31).unwrap(), Some(LogicalTime(140)));
}

#[test]
fn retry_backoff_rejects_invalid_bounds_and_due_time_overflow() {
    let invalid = RetryBackoffV1::new(2, 1);
    assert_eq!(invalid.unwrap_err(), EngineError::InvalidRetryBackoff);

    let backoff = RetryBackoffV1::new(1, 1).unwrap();
    let policy = RetryPolicyV1::new(1).with_backoff(backoff);
    assert_eq!(
        policy.retry_due_at(LogicalTime(u64::MAX), 0),
        Err(EngineError::RetryDueTimeOverflow)
    );
}

#[test]
fn retry_backoff_plans_replayable_due_timer_and_rejects_early_or_duplicate_fire() {
    let backoff = RetryBackoffV1::new(10, 100).unwrap();
    let definition = LinearSagaDefinitionV1::new(
        definition_id("def_trade"),
        version("dfv_one"),
        ContentDigest([99; 32]),
        vec![StepPlanV1::canonical_command(
            step("stp_lock"),
            ContentDigest([1; 32]),
            RetryPolicyV1::new(3).with_backoff(backoff),
        )],
    );
    let tenant_id = tenant("tnt_game");
    let process_id = process("prc_trade");
    let started =
        start(&definition, tenant_id.clone(), process_id.clone(), action_id("act_first")).unwrap();
    let failure =
        observation(started.next_action.as_ref().unwrap(), ActionResultV1::RetryableFailure);
    let scheduled = schedule_retry_timer(
        &definition,
        &started.projection,
        tenant_id.clone(),
        process_id.clone(),
        &failure,
        Some(action_id("act_retry_timer")),
        LogicalTime(100),
    )
    .unwrap();
    let timer = scheduled.next_action.as_ref().unwrap();
    assert_eq!(timer.kind, ProcessActionKind::Timer);
    assert_eq!(scheduled.retry_timer_schedule().unwrap().due_at, LogicalTime(110));
    assert_eq!(
        apply_action_result(
            &definition,
            &scheduled.projection,
            tenant_id.clone(),
            process_id.clone(),
            &ActionResultObservationV1::succeeded(timer.action_id.clone()),
            Some(action_id("act_wrong")),
        )
        .unwrap_err(),
        EngineError::RetryTimerMustFire
    );
    assert_eq!(
        fire_retry_timer(
            &definition,
            &scheduled.projection,
            tenant_id.clone(),
            process_id.clone(),
            &timer.action_id,
            LogicalTime(109),
            action_id("act_retry"),
        )
        .unwrap_err(),
        EngineError::RetryTimerFiredEarly
    );
    let retry = fire_retry_timer(
        &definition,
        &scheduled.projection,
        tenant_id.clone(),
        process_id.clone(),
        &timer.action_id,
        LogicalTime(110),
        action_id("act_retry"),
    )
    .unwrap();
    assert_eq!(retry.next_action.as_ref().unwrap().kind, ProcessActionKind::CanonicalCommand);
    assert_eq!(retry.next_action.as_ref().unwrap().attempt, 1);
    assert_eq!(
        fire_retry_timer(
            &definition,
            &retry.projection,
            tenant_id.clone(),
            process_id.clone(),
            &timer.action_id,
            LogicalTime(110),
            action_id("act_retry_duplicate"),
        )
        .unwrap_err(),
        EngineError::UnexpectedRetryTimer
    );
    let events = [
        LinearSagaEventV1::started(&definition, action_id("act_first")),
        LinearSagaEventV1::RetryTimerScheduled {
            observation: failure,
            next_action_id: Some(action_id("act_retry_timer")),
            observed_at: LogicalTime(100),
        },
        LinearSagaEventV1::RetryTimerFired {
            timer_action_id: action_id("act_retry_timer"),
            fired_at: LogicalTime(110),
            next_action_id: action_id("act_retry"),
        },
    ];
    assert_eq!(replay(&definition, &tenant_id, &process_id, &events).unwrap(), retry);
}

#[test]
fn authorized_manual_resolution_replays_compensation_or_cancellation() {
    let policy = RetryPolicyV1::no_retry();
    let definition = LinearSagaDefinitionV1::new(
        definition_id("def_trade"),
        version("dfv_one"),
        ContentDigest([99; 32]),
        vec![
            StepPlanV1::canonical_command(step("stp_lock"), ContentDigest([1; 32]), policy)
                .with_compensation(CompensationPlanV1::canonical_command(
                    ContentDigest([9; 32]),
                    policy,
                )),
            StepPlanV1::canonical_command(step("stp_settle"), ContentDigest([2; 32]), policy),
        ],
    );
    let tenant_id = tenant("tnt_market");
    let process_id = process("prc_trade");
    let started =
        start(&definition, tenant_id.clone(), process_id.clone(), action_id("act_lock")).unwrap();
    let settle = apply_action_result(
        &definition,
        &started.projection,
        tenant_id.clone(),
        process_id.clone(),
        &observation(started.next_action.as_ref().unwrap(), ActionResultV1::Succeeded),
        Some(action_id("act_settle")),
    )
    .unwrap();
    let escalated = apply_action_result(
        &definition,
        &settle.projection,
        tenant_id.clone(),
        process_id.clone(),
        &observation(settle.next_action.as_ref().unwrap(), ActionResultV1::Unknown),
        None,
    )
    .unwrap();
    assert_eq!(escalated.projection.status, SagaStatusV1::Escalated);
    let compensation = apply_manual_resolution(
        &definition,
        &escalated.projection,
        tenant_id.clone(),
        process_id.clone(),
        ManualReviewResolutionV1::Compensate,
        Some(action_id("act_unlock")),
    )
    .unwrap();
    assert_eq!(compensation.projection.status, SagaStatusV1::Compensating);
    assert_eq!(compensation.next_action.as_ref().unwrap().step_id, step("stp_lock"));
    let cancelled = apply_manual_resolution(
        &definition,
        &escalated.projection,
        tenant_id.clone(),
        process_id.clone(),
        ManualReviewResolutionV1::Cancel,
        None,
    )
    .unwrap();
    assert_eq!(cancelled.projection.status, SagaStatusV1::Cancelled);
    assert_eq!(
        apply_manual_resolution(
            &definition,
            &settle.projection,
            tenant_id.clone(),
            process_id.clone(),
            ManualReviewResolutionV1::Cancel,
            None,
        )
        .unwrap_err(),
        EngineError::ManualResolutionRequiresEscalation
    );
    let events = [
        LinearSagaEventV1::started(&definition, action_id("act_lock")),
        LinearSagaEventV1::ActionResultObserved {
            observation: ActionResultObservationV1::succeeded(action_id("act_lock")),
            next_action_id: Some(action_id("act_settle")),
        },
        LinearSagaEventV1::ActionResultObserved {
            observation: ActionResultObservationV1::unknown(action_id("act_settle")),
            next_action_id: None,
        },
        LinearSagaEventV1::ManualResolutionApplied {
            resolution: ManualReviewResolutionV1::Compensate,
            next_action_id: Some(action_id("act_unlock")),
        },
    ];
    assert_eq!(replay(&definition, &tenant_id, &process_id, &events).unwrap(), compensation);
}

#[test]
fn unknown_result_escalates_instead_of_blind_retry() {
    let started =
        start(&definition(), tenant("tnt_game"), process("prc_trade"), action_id("act_lock"))
            .unwrap();
    let decision = apply_action_result(
        &definition(),
        &started.projection,
        tenant("tnt_game"),
        process("prc_trade"),
        &observation(started.next_action.as_ref().unwrap(), ActionResultV1::Unknown),
        None,
    )
    .unwrap();
    assert_eq!(decision.projection.status, SagaStatusV1::Escalated);
    assert!(decision.next_action.is_none());
}

#[test]
fn retry_creates_a_new_attempt_for_the_same_step() {
    let started =
        start(&definition(), tenant("tnt_game"), process("prc_trade"), action_id("act_lock"))
            .unwrap();
    let retry = apply_action_result(
        &definition(),
        &started.projection,
        tenant("tnt_game"),
        process("prc_trade"),
        &observation(started.next_action.as_ref().unwrap(), ActionResultV1::RetryableFailure),
        Some(action_id("act_lock_retry")),
    )
    .unwrap();
    assert_eq!(retry.projection.current_attempt, 1);
    assert_eq!(retry.next_action.as_ref().unwrap().attempt, 1);
    assert_eq!(retry.next_action.as_ref().unwrap().step_id, step("stp_lock"));
}

#[test]
fn exhausted_retry_policy_escalates_without_a_new_action() {
    let definition = LinearSagaDefinitionV1 {
        definition_id: definition_id("def_trade"),
        definition_version: version("dfv_one"),
        definition_digest: ContentDigest([99; 32]),
        steps: vec![StepPlanV1::canonical_command(
            step("stp_lock"),
            ContentDigest([1; 32]),
            RetryPolicyV1::no_retry(),
        )],
    };
    let started =
        start(&definition, tenant("tnt_game"), process("prc_trade"), action_id("act_lock")).unwrap();
    let decision = apply_action_result(
        &definition,
        &started.projection,
        tenant("tnt_game"),
        process("prc_trade"),
        &observation(started.next_action.as_ref().unwrap(), ActionResultV1::RetryableFailure),
        Some(action_id("act_retry")),
    )
    .unwrap();
    assert_eq!(decision.projection.status, SagaStatusV1::Escalated);
    assert!(decision.next_action.is_none());
}

fn compensating_definition() -> LinearSagaDefinitionV1 {
    let policy = RetryPolicyV1::no_retry();
    LinearSagaDefinitionV1 {
        definition_id: definition_id("def_trade"),
        definition_version: version("dfv_one"),
        definition_digest: ContentDigest([99; 32]),
        steps: vec![
            StepPlanV1 {
                step_id: step("stp_lock_a"),
                action_kind: ProcessActionKind::CanonicalCommand,
                payload_digest: ContentDigest([1; 32]),
                retry_policy: policy,
                compensation: Some(CompensationPlanV1::canonical_command(
                    ContentDigest([10; 32]),
                    policy,
                )),
            },
            StepPlanV1 {
                step_id: step("stp_lock_b"),
                action_kind: ProcessActionKind::CanonicalCommand,
                payload_digest: ContentDigest([2; 32]),
                retry_policy: policy,
                compensation: Some(CompensationPlanV1::canonical_command(
                    ContentDigest([11; 32]),
                    policy,
                )),
            },
            StepPlanV1::canonical_command(step("stp_settle"), ContentDigest([3; 32]), policy),
        ],
    }
}

#[test]
fn known_terminal_failure_compensates_succeeded_steps_in_lifo_order() {
    let definition = compensating_definition();
    let tenant_id = tenant("tnt_game");
    let process_id = process("prc_trade");
    let first =
        start(&definition, tenant_id.clone(), process_id.clone(), action_id("act_lock_a")).unwrap();
    let second = apply_action_result(
        &definition,
        &first.projection,
        tenant_id.clone(),
        process_id.clone(),
        &observation(first.next_action.as_ref().unwrap(), ActionResultV1::Succeeded),
        Some(action_id("act_lock_b")),
    )
    .unwrap();
    let settlement = apply_action_result(
        &definition,
        &second.projection,
        tenant_id.clone(),
        process_id.clone(),
        &observation(second.next_action.as_ref().unwrap(), ActionResultV1::Succeeded),
        Some(action_id("act_settle")),
    )
    .unwrap();
    let unlock_b = apply_action_result(
        &definition,
        &settlement.projection,
        tenant_id.clone(),
        process_id.clone(),
        &observation(settlement.next_action.as_ref().unwrap(), ActionResultV1::TerminalFailure),
        Some(action_id("act_unlock_b")),
    )
    .unwrap();
    assert_eq!(unlock_b.projection.status, SagaStatusV1::Compensating);
    assert_eq!(unlock_b.next_action.as_ref().unwrap().step_id, step("stp_lock_b"));
    assert_eq!(unlock_b.next_action.as_ref().unwrap().payload_digest, ContentDigest([11; 32]));
    let unlock_a = apply_action_result(
        &definition,
        &unlock_b.projection,
        tenant_id.clone(),
        process_id.clone(),
        &observation(unlock_b.next_action.as_ref().unwrap(), ActionResultV1::Succeeded),
        Some(action_id("act_unlock_a")),
    )
    .unwrap();
    assert_eq!(unlock_a.next_action.as_ref().unwrap().step_id, step("stp_lock_a"));
    assert_eq!(unlock_a.next_action.as_ref().unwrap().payload_digest, ContentDigest([10; 32]));
    let compensated = apply_action_result(
        &definition,
        &unlock_a.projection,
        tenant_id,
        process_id,
        &observation(unlock_a.next_action.as_ref().unwrap(), ActionResultV1::Succeeded),
        None,
    )
    .unwrap();
    assert_eq!(compensated.projection.status, SagaStatusV1::Compensated);
    assert!(compensated.next_action.is_none());
}

#[test]
fn crash_after_every_trade_event_replays_to_the_same_compensated_state() {
    let policy = RetryPolicyV1::no_retry();
    let definition = LinearSagaDefinitionV1 {
        definition_id: definition_id("def_trade"),
        definition_version: version("dfv_one"),
        definition_digest: ContentDigest([99; 32]),
        steps: vec![
            StepPlanV1 {
                step_id: step("stp_lock"),
                action_kind: ProcessActionKind::CanonicalCommand,
                payload_digest: ContentDigest([1; 32]),
                retry_policy: policy,
                compensation: Some(CompensationPlanV1::canonical_command(
                    ContentDigest([9; 32]),
                    policy,
                )),
            },
            StepPlanV1::canonical_command(step("stp_settle"), ContentDigest([2; 32]), policy),
        ],
    };
    let tenant_id = tenant("tnt_game");
    let process_id = process("prc_trade");
    let events = vec![
        LinearSagaEventV1::started(&definition, action_id("act_lock")),
        LinearSagaEventV1::ActionResultObserved {
            observation: ActionResultObservationV1::succeeded(action_id("act_lock")),
            next_action_id: Some(action_id("act_settle")),
        },
        LinearSagaEventV1::ActionResultObserved {
            observation: ActionResultObservationV1 {
                action_id: action_id("act_settle"),
                result: ActionResultV1::TerminalFailure,
            },
            next_action_id: Some(action_id("act_unlock")),
        },
        LinearSagaEventV1::ActionResultObserved {
            observation: ActionResultObservationV1::succeeded(action_id("act_unlock")),
            next_action_id: None,
        },
    ];

    for prefix_length in 1..=events.len() {
        let prefix: Vec<_> = events.iter().take(prefix_length).cloned().collect();
        let restarted_once = replay(&definition, &tenant_id, &process_id, &prefix).unwrap();
        let restarted_twice = replay(&definition, &tenant_id, &process_id, &prefix).unwrap();
        assert_eq!(restarted_once, restarted_twice);
    }

    let final_decision = replay(&definition, &tenant_id, &process_id, &events).unwrap();
    assert_eq!(final_decision.projection.status, SagaStatusV1::Compensated);
    assert!(final_decision.next_action.is_none());
}

fn retry_attempt_case(current_attempt: u32) {
    let Some(expected_attempt) = current_attempt.checked_add(1) else {
        return;
    };
    let mut definition = definition();
    let Some(first) = definition.steps.first_mut() else {
        return;
    };
    first.retry_policy = RetryPolicyV1::new(u32::MAX);
    let retry = apply_action_result(
        &definition,
        &LinearSagaProjectionV1 {
            definition_id: definition.definition_id.clone(),
            definition_version: definition.definition_version.clone(),
            definition_digest: definition.definition_digest,
            next_step_index: 0,
            current_attempt,
            retry_due_at: None,
            active_action_id: Some(action_id("act_lock")),
            issued_action_ids: vec![action_id("act_lock")],
            compensable_step_indices: Vec::new(),
            status: SagaStatusV1::Running,
        },
        tenant("tnt_game"),
        process("prc_trade"),
        &ActionResultObservationV1 {
            action_id: action_id("act_lock"),
            result: ActionResultV1::RetryableFailure,
        },
        Some(action_id("act_lock_retry")),
    )
    .unwrap();
    assert_eq!(retry.projection.next_step_index, 0);
    assert_eq!(retry.projection.current_attempt, expected_attempt);
    assert_eq!(retry.next_action.unwrap().attempt, expected_attempt);
}

#[test]
fn retry_attempt_is_monotonic_for_every_representable_attempt() {
    for current_attempt in
        [0_u32, 1, 2, 7, 63, 64, 1_000, 65_535, 1 << 20, u32::MAX / 2, u32::MAX - 3, u32::MAX - 2]
    {
        retry_attempt_case(current_attempt);
    }
    let mut state = 0x9e37_79b9_u32;
    for _ in 0..64 {
        state = state.wrapping_mul(1_664_525).wrapping_add(1_013_904_223);
        retry_attempt_case(state % (u32::MAX - 1));
    }
}

fn live_and_replay_case(result_codes: &[u8]) {
    let mut definition = definition();
    let Some(first) = definition.steps.first_mut() else {
        return;
    };
    first.retry_policy = RetryPolicyV1::new(u32::MAX);
    let tenant_id = tenant("tnt_game");
    let process_id = process("prc_trade");
    let start_action_id = action_id("act_start");
    let mut action_ids = [
        action_id("act_one"),
        action_id("act_two"),
        action_id("act_three"),
        action_id("act_four"),
        action_id("act_five"),
    ]
    .into_iter();
    let mut live =
        start(&definition, tenant_id.clone(), process_id.clone(), start_action_id.clone()).unwrap();
    let mut events = vec![LinearSagaEventV1::started(&definition, start_action_id)];
    let restarted_after_start = replay(&definition, &tenant_id, &process_id, &events).unwrap();
    assert_eq!(&restarted_after_start, &live);

    for code in result_codes {
        let Some(action) = live.next_action.as_ref() else {
            break;
        };
        let result = match code {
            0 => ActionResultV1::Succeeded,
            1 => ActionResultV1::RetryableFailure,
            2 => ActionResultV1::TerminalFailure,
            _ => ActionResultV1::Unknown,
        };
        let observation = ActionResultObservationV1 { action_id: action.action_id.clone(), result };
        let next_action_id = match result {
            ActionResultV1::Succeeded | ActionResultV1::RetryableFailure => action_ids.next(),
            ActionResultV1::TerminalFailure | ActionResultV1::Unknown => None,
        };
        if matches!(result, ActionResultV1::Succeeded | ActionResultV1::RetryableFailure)
            && next_action_id.is_none()
        {
            break;
        }
        events.push(LinearSagaEventV1::ActionResultObserved {
            observation: observation.clone(),
            next_action_id: next_action_id.clone(),
        });
        live = apply_action_result(
            &definition,
            &live.projection,
            tenant_id.clone(),
            process_id.clone(),
            &observation,
            next_action_id,
        )
        .unwrap();
        let restarted_after_event = replay(&definition, &tenant_id, &process_id, &events).unwrap();
        assert_eq!(&restarted_after_event, &live);
    }

    let replayed = replay(&definition, &tenant_id, &process_id, &events).unwrap();
    assert_eq!(replayed, live);
}

#[test]
fn live_transitions_and_event_replay_converge() {
    live_and_replay_case(&[]);
    for length in 1..=4_usize {
        let combinations = 4_usize.pow(length as u32);
        for mut index in 0..combinations {
            let mut codes = Vec::with_capacity(length);
            for _ in 0..length {
                codes.push((index % 4) as u8);
                index /= 4;
            }
            live_and_replay_case(&codes);
        }
    }
}

#[test]
fn result_for_a_different_action_cannot_advance_the_saga() {
    let started =
        start(&definition(), tenant("tnt_game"), process("prc_trade"), action_id("act_lock"))
            .unwrap();
    let error = apply_action_result(
        &definition(),
        &started.projection,
        tenant("tnt_game"),
        process("prc_trade"),
        &ActionResultObservationV1 {
            action_id: action_id("act_other"),
            result: ActionResultV1::Succeeded,
        },
        Some(action_id("act_settle")),
    )
    .unwrap_err();
    assert_eq!(error, EngineError::UnexpectedAction);
}

#[test]
fn a_projection_rejects_a_definition_with_different_pinned_semantics() {
    let definition = definition();
    let started =
        start(&definition, tenant("tnt_game"), process("prc_trade"), action_id("act_lock")).unwrap();
    let mut changed_definition = definition;
    changed_definition.definition_digest = ContentDigest([42; 32]);
    let error = apply_action_result(
        &changed_definition,
        &started.projection,
        tenant("tnt_game"),
        process("prc_trade"),
        &observation(started.next_action.as_ref().unwrap(), ActionResultV1::Succeeded),
        Some(action_id("act_settle")),
    )
    .unwrap_err();
    assert_eq!(error, EngineError::DefinitionMismatch);
}

#[test]
fn retry_cannot_reuse_an_issued_action_identity() {
    let started =
        start(&definition(), tenant("tnt_game"), process("prc_trade"), action_id("act_lock"))
            .unwrap();
    let error = apply_action_result(
        &definition(),
        &started.projection,
        tenant("tnt_game"),
        process("prc_trade"),
        &observation(started.next_action.as_ref().unwrap(), ActionResultV1::RetryableFailure),
        Some(action_id("act_lock")),
    )
    .unwrap_err();
    assert_eq!(error, EngineError::ReusedActionId);
}

#[test]
fn replay_rebuilds_the_final_projection_from_immutable_events() {
    let definition = definition();
    let replayed = replay(
        &definition,
        &tenant("tnt_game"),
        &process("prc_trade"),
        &[
            LinearSagaEventV1::started(&definition, action_id("act_lock")),
            LinearSagaEventV1::ActionResultObserved {
                observation: ActionResultObservationV1::succeeded(action_id("act_lock")),
                next_action_id: Some(action_id("act_settle")),
            },
            LinearSagaEventV1::ActionResultObserved {
                observation: ActionResultObservationV1::succeeded(action_id("act_settle")),
                next_action_id: None,
            },
        ],
    )
    .unwrap();
    assert_eq!(replayed.projection.status, SagaStatusV1::Completed);
    assert!(replayed.next_action.is_none());
}

#[test]
fn replay_rejects_a_second_start_record() {
    let definition = definition();
    let error = replay(
        &definition,
        &tenant("tnt_game"),
        &process("prc_trade"),
        &[
            LinearSagaEventV1::started(&definition, action_id("act_lock")),
            LinearSagaEventV1::started(&definition, action_id("act_other")),
        ],
    )
    .unwrap_err();
    assert_eq!(error, EngineError::DuplicateStart);
}

#[test]
fn replay_rejects_a_start_event_with_different_pinned_semantics() {
    let definition = definition();
    let event = LinearSagaEventV1::started(&definition, action_id("act_lock"));
    let mut changed_definition = definition;
    changed_definition.definition_digest = ContentDigest([42; 32]);
    let error =
        replay(&changed_definition, &tenant("tnt_game"), &process("prc_trade"), &[event]).unwrap_err();
    assert_eq!(error, EngineError::DefinitionMismatch);
}

#[test]
fn ordered_replay_rejects_a_sequence_gap_before_applying_events() {
    let definition = definition();
    let error = replay_ordered(
        &definition,
        &tenant("tnt_game"),
        &process("prc_trade"),
        &[LinearSagaEventEnvelopeV1 {
            sequence: 1,
            event: LinearSagaEventV1::started(&definition, action_id("act_lock")),
        }],
    )
    .unwrap_err();
    assert_eq!(error, EngineError::InvalidEventSequence);
}

// Further scenarios of the engine's contracts and laws.

#[test]
fn ordered_replay_of_a_contiguous_log_matches_plain_replay() {
    let definition = definition();
    let events = vec![
        LinearSagaEventV1::started(&definition, action_id("act_lock")),
        LinearSagaEventV1::ActionResultObserved {
            observation: ActionResultObservationV1::succeeded(action_id("act_lock")),
            next_action_id: Some(action_id("act_settle")),
        },
    ];
    let envelopes: Vec<LinearSagaEventEnvelopeV1> = events
        .iter()
        .enumerate()
        .map(|(index, event)| LinearSagaEventEnvelopeV1 {
            sequence: index as u64,
            event: event.clone(),
        })
        .collect();
    let ordered =
        replay_ordered(&definition, &tenant("tnt_game"), &process("prc_trade"), &envelopes)
            .unwrap();
    let plain = replay(&definition, &tenant("tnt_game"), &process("prc_trade"), &events).unwrap();
    assert_eq!(ordered, plain);
    assert_eq!(ordered.next_action.as_ref().unwrap().step_id, step("stp_settle"));
}

#[test]
fn replay_without_a_start_record_is_refused() {
    let definition = definition();
    assert_eq!(
        replay(&definition, &tenant("tnt_game"), &process("prc_trade"), &[]).unwrap_err(),
        EngineError::MissingStart
    );
    let error = replay(
        &definition,
        &tenant("tnt_game"),
        &process("prc_trade"),
        &[LinearSagaEventV1::ActionResultObserved {
            observation: ActionResultObservationV1::succeeded(action_id("act_lock")),
            next_action_id: None,
        }],
    )
    .unwrap_err();
    assert_eq!(error, EngineError::MissingStart);
}

#[test]
fn empty_definition_cannot_start() {
    let definition = LinearSagaDefinitionV1::new(
        definition_id("def_trade"),
        version("dfv_one"),
        ContentDigest([99; 32]),
        Vec::new(),
    );
    assert_eq!(
        start(&definition, tenant("tnt_game"), process("prc_trade"), action_id("act_lock"))
            .unwrap_err(),
        EngineError::EmptyDefinition
    );
}

#[test]
fn success_without_a_next_identity_is_refused() {
    let started =
        start(&definition(), tenant("tnt_game"), process("prc_trade"), action_id("act_lock"))
            .unwrap();
    let error = apply_action_result(
        &definition(),
        &started.projection,
        tenant("tnt_game"),
        process("prc_trade"),
        &observation(started.next_action.as_ref().unwrap(), ActionResultV1::Succeeded),
        None,
    )
    .unwrap_err();
    assert_eq!(error, EngineError::MissingNextAction);
}

#[test]
fn completed_process_accepts_no_further_result() {
    let definition = definition();
    let replayed = replay(
        &definition,
        &tenant("tnt_game"),
        &process("prc_trade"),
        &[
            LinearSagaEventV1::started(&definition, action_id("act_lock")),
            LinearSagaEventV1::ActionResultObserved {
                observation: ActionResultObservationV1::succeeded(action_id("act_lock")),
                next_action_id: Some(action_id("act_settle")),
            },
            LinearSagaEventV1::ActionResultObserved {
                observation: ActionResultObservationV1::succeeded(action_id("act_settle")),
                next_action_id: None,
            },
        ],
    )
    .unwrap();
    let error = apply_action_result(
        &definition,
        &replayed.projection,
        tenant("tnt_game"),
        process("prc_trade"),
        &ActionResultObservationV1::succeeded(action_id("act_settle")),
        None,
    )
    .unwrap_err();
    assert_eq!(error, EngineError::TerminalProjection);
}

#[test]
fn retry_timer_is_refused_without_backoff_and_required_with_it() {
    let started =
        start(&definition(), tenant("tnt_game"), process("prc_trade"), action_id("act_lock"))
            .unwrap();
    let failure =
        observation(started.next_action.as_ref().unwrap(), ActionResultV1::RetryableFailure);
    assert_eq!(
        schedule_retry_timer(
            &definition(),
            &started.projection,
            tenant("tnt_game"),
            process("prc_trade"),
            &failure,
            Some(action_id("act_timer")),
            LogicalTime(5),
        )
        .unwrap_err(),
        EngineError::RetryTimerNotConfigured
    );

    let backoff = RetryBackoffV1::new(10, 100).unwrap();
    let timed = LinearSagaDefinitionV1::new(
        definition_id("def_trade"),
        version("dfv_one"),
        ContentDigest([99; 32]),
        vec![StepPlanV1::canonical_command(
            step("stp_lock"),
            ContentDigest([1; 32]),
            RetryPolicyV1::new(3).with_backoff(backoff),
        )],
    );
    let started =
        start(&timed, tenant("tnt_game"), process("prc_trade"), action_id("act_lock")).unwrap();
    assert_eq!(
        apply_action_result(
            &timed,
            &started.projection,
            tenant("tnt_game"),
            process("prc_trade"),
            &observation(started.next_action.as_ref().unwrap(), ActionResultV1::RetryableFailure),
            Some(action_id("act_retry")),
        )
        .unwrap_err(),
        EngineError::RetryTimerRequired
    );
}

#[test]
fn retry_delay_never_decreases_and_stays_capped() {
    let backoff = RetryBackoffV1::new(3, 1_000).unwrap();
    let policy = RetryPolicyV1::new(5).with_backoff(backoff);
    let mut previous = 0_u64;
    for ordinal in 0..70_u32 {
        let due = policy.retry_due_at(LogicalTime(0), ordinal).unwrap().unwrap().0;
        assert!(due >= previous);
        assert!(due <= 1_000);
        previous = due;
    }
    assert_eq!(policy.retry_due_at(LogicalTime(0), 0).unwrap(), Some(LogicalTime(3)));
    assert_eq!(policy.retry_due_at(LogicalTime(0), 8).unwrap(), Some(LogicalTime(768)));
    assert_eq!(policy.retry_due_at(LogicalTime(0), 9).unwrap(), Some(LogicalTime(1_000)));
    assert_eq!(RetryPolicyV1::new(5).retry_due_at(LogicalTime(7), 3).unwrap(), None);
}

#[test]
fn exhausted_retry_budget_compensates_the_last_compensable_step() {
    let definition = compensating_definition();
    let tenant_id = tenant("tnt_game");
    let process_id = process("prc_trade");
    let first =
        start(&definition, tenant_id.clone(), process_id.clone(), action_id("act_lock_a")).unwrap();
    let second = apply_action_result(
        &definition,
        &first.projection,
        tenant_id.clone(),
        process_id.clone(),
        &observation(first.next_action.as_ref().unwrap(), ActionResultV1::Succeeded),
        Some(action_id("act_lock_b")),
    )
    .unwrap();
    let exhausted = apply_action_result(
        &definition,
        &second.projection,
        tenant_id,
        process_id,
        &observation(second.next_action.as_ref().unwrap(), ActionResultV1::RetryableFailure),
        Some(action_id("act_unlock_a")),
    )
    .unwrap();
    assert_eq!(exhausted.projection.status, SagaStatusV1::Compensating);
    let compensation = exhausted.next_action.as_ref().unwrap();
    assert_eq!(compensation.step_id, step("stp_lock_a"));
    assert_eq!(compensation.payload_digest, ContentDigest([10; 32]));
    assert_eq!(compensation.attempt, 0);
}
