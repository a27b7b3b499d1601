use penelope::domain::{
    CanonicalCommand, CausationId, DefinitionCompatibility, DefinitionCompatibilityError,
    DefinitionMigration, DefinitionMigrationError, DomainError, OutcomeActor, ProcessAction,
    ProcessActionKind, ProcessDefinition, ProcessInput, ProcessInputEnvelope, ProcessInputKind,
    ProcessOutcome, ProcessOutcomeFact, ProcessOutcomeKind, ProcessScope, MAX_DEFINITION_STEPS,
};
use penelope::ids::{
    ActionId, ContentDigest, DefinitionId, DefinitionVersion, InputId, LogicalTime, MigrationId,
    OutcomeId, PrincipalId, ProcessId, ResourceId, StepId, TenantId,
};

fn tenant(value: &str) -> TenantId {
    TenantId::new(value.to_string()).unwrap()
}

fn process(value: &str) -> ProcessId {
    ProcessId::new(value.to_string()).unwrap()
}

fn definition_id(value: &str) -> DefinitionId {
    DefinitionId::new(value.to_string()).unwrap()
}

fn version(value: &str) -> DefinitionVersion {
    DefinitionVersion::new(value.to_string()).unwrap()
}

fn step(value: &str) -> StepId {
    StepId::new(value.to_string()).unwrap()
}

fn action_id(value: &str) -> ActionId {
    ActionId::new(value.to_string()).unwrap()
}

fn migration_id(value: &str) -> MigrationId {
    MigrationId::new(value.to_string()).unwrap()
}

#[test]
fn invalid_identifiers_report_their_typed_error_variant() {
    assert_eq!(TenantId::new("prc_wrong".to_string()).unwrap_err(), DomainError::InvalidTenantId);
    assert_eq!(
        PrincipalId::new("tnt_wrong".to_string()).unwrap_err(),
        DomainError::InvalidPrincipalId
    );
}

#[test]
fn identifiers_reject_ambiguous_storage_and_log_characters() {
    for value in ["tnt_with space", "tnt_with/slash", "tnt_with\\\\slash", "tnt_ümlaut"] {
        assert_eq!(TenantId::new(value.to_string()).unwrap_err(), DomainError::InvalidTenantId);
    }
    assert!(TenantId::new("tnt_safe-id.v1".to_string()).is_ok());
}

fn trade_scope(digest: u8) -> ProcessScope {
    ProcessScope::new(
        tenant("tnt_game"),
        process("prc_trade"),
        definition_id("def_trade"),
        version("dfv_one"),
        ContentDigest([digest; 32]),
    )
}

#[test]
fn effect_key_binds_every_semantic_effect_coordinate() {
    let scope = trade_scope(1);
    let action = ProcessAction::new(
        scope.clone(),
        action_id("act_first"),
        step("stp_settle"),
        0,
        ProcessActionKind::CanonicalCommand,
        ContentDigest([2; 32]),
    );
    let same_semantics_new_action_id = ProcessAction::new(
        scope,
        action_id("act_second"),
        step("stp_settle"),
        0,
        ProcessActionKind::CanonicalCommand,
        ContentDigest([2; 32]),
    );
    let retry = ProcessAction::new(
        trade_scope(1),
        action_id("act_retry"),
        step("stp_settle"),
        1,
        ProcessActionKind::CanonicalCommand,
        ContentDigest([3; 32]),
    );
    let changed_payload = ProcessAction::new(
        trade_scope(1),
        action_id("act_changed_payload"),
        step("stp_settle"),
        0,
        ProcessActionKind::CanonicalCommand,
        ContentDigest([4; 32]),
    );

    assert_eq!(action.effect_key(), same_semantics_new_action_id.effect_key());
    assert_ne!(action.effect_key(), retry.effect_key());
    assert_ne!(action.effect_key(), changed_payload.effect_key());
}

#[test]
fn canonical_bytes_are_deterministic_and_bind_effect_semantics() {
    let scope = trade_scope(1);
    let action = ProcessAction::new(
        scope.clone(),
        action_id("act_first"),
        step("stp_settle"),
        0,
        ProcessActionKind::CanonicalCommand,
        ContentDigest([2; 32]),
    );
    let same_scope = scope.clone();
    assert_eq!(scope.canonical_bytes(), same_scope.canonical_bytes());
    let first = action.effect_key().canonical_bytes();
    let mut retry = action;
    retry.attempt = 1;
    assert_ne!(first, retry.effect_key().canonical_bytes());
}

#[test]
fn outcome_scope_validation_rejects_cross_process_records() {
    let scope = ProcessScope::new(
        tenant("tnt_market"),
        process("prc_trade"),
        definition_id("def_trade"),
        version("dfv_one"),
        ContentDigest([2; 32]),
    );
    let outcome = ProcessOutcome::new(
        scope.clone(),
        0,
        ProcessOutcomeFact::new(
            OutcomeId::new("out_started".to_string()).unwrap(),
            CausationId::Input(InputId::new("inp_event".to_string()).unwrap()),
            OutcomeActor::System,
            LogicalTime(0),
            ProcessOutcomeKind::Started,
            ContentDigest([3; 32]),
        ),
    );
    let other = ProcessScope::new(
        tenant("tnt_market"),
        process("prc_other"),
        definition_id("def_trade"),
        version("dfv_one"),
        ContentDigest([2; 32]),
    );
    assert_eq!(outcome.validate_for_scope(&other), Err(DomainError::OutcomeScopeMismatch));
    assert!(outcome.validate_for_scope(&scope).is_ok());
}

#[test]
fn definition_validation_bounds_and_deduplicates_steps() {
    let oversized = ProcessDefinition::new(
        definition_id("def_trade"),
        version("dfv_one"),
        ContentDigest([0; 32]),
        vec![step("stp_lock"); MAX_DEFINITION_STEPS.saturating_add(1)],
    );
    assert_eq!(oversized.unwrap_err(), DomainError::DefinitionStepLimitExceeded);

    let duplicate = ProcessDefinition::new(
        definition_id("def_trade"),
        version("dfv_one"),
        ContentDigest([0; 32]),
        vec![step("stp_lock"), step("stp_lock")],
    );
    assert_eq!(duplicate.unwrap_err(), DomainError::DuplicateStepId);
}

#[test]
fn definition_compatibility_fails_closed_on_identity_and_semantic_changes() {
    let pinned = ProcessDefinition::new(
        definition_id("def_trade"),
        version("dfv_one"),
        ContentDigest([1; 32]),
        vec![step("stp_lock"), step("stp_settle")],
    )
    .unwrap();
    assert_eq!(pinned.compatibility_with(&pinned), DefinitionCompatibility::Exact);

    let changed_content = ProcessDefinition::new(
        definition_id("def_trade"),
        version("dfv_one"),
        ContentDigest([2; 32]),
        vec![step("stp_lock"), step("stp_settle")],
    )
    .unwrap();
    assert_eq!(
        changed_content.compatibility_with(&pinned),
        DefinitionCompatibility::RequiresMigration
    );
    assert_eq!(
        changed_content.require_exact_compatibility(&pinned),
        Err(DefinitionCompatibilityError::RequiresMigration)
    );

    let changed_identity = ProcessDefinition::new(
        definition_id("def_other"),
        version("dfv_one"),
        ContentDigest([1; 32]),
        vec![step("stp_lock"), step("stp_settle")],
    )
    .unwrap();
    assert_eq!(changed_identity.compatibility_with(&pinned), DefinitionCompatibility::Incompatible);
    assert_eq!(
        changed_identity.require_exact_compatibility(&pinned),
        Err(DefinitionCompatibilityError::IdentityMismatch)
    );
}

#[test]
fn canonical_definition_digest_is_reproducible_and_rejects_tampering() {
    let mut definition = ProcessDefinition::new(
        definition_id("def_trade"),
        version("dfv_one"),
        ContentDigest([0; 32]),
        vec![step("stp_lock"), step("stp_settle")],
    )
    .unwrap();
    definition.definition_digest = definition.computed_digest();
    assert_eq!(definition.require_canonical_digest(), Ok(()));
    let encoded = definition.canonical_bytes();
    assert_eq!(ContentDigest::sha256(&encoded), definition.definition_digest);
    definition.step_ids.reverse();
    assert_eq!(
        definition.require_canonical_digest(),
        Err(DefinitionCompatibilityError::DigestMismatch)
    );
}

#[test]
fn definition_migration_binds_identity_and_destination_digest() {
    let migration = DefinitionMigration::new(
        migration_id("mig_trade_v2"),
        definition_id("def_trade"),
        version("dfv_one"),
        ContentDigest([1; 32]),
        version("dfv_two"),
        ContentDigest([2; 32]),
    )
    .unwrap();
    let destination = ProcessDefinition::new(
        definition_id("def_trade"),
        version("dfv_two"),
        ContentDigest([2; 32]),
        vec![step("stp_lock")],
    )
    .unwrap();
    let source = ProcessDefinition::new(
        definition_id("def_trade"),
        version("dfv_one"),
        ContentDigest([1; 32]),
        vec![step("stp_lock")],
    )
    .unwrap();
    assert_eq!(migration.validate_source_and_destination(&source, &destination), Ok(()));
    let wrong_source = ProcessDefinition::new(
        definition_id("def_trade"),
        version("dfv_one"),
        ContentDigest([9; 32]),
        vec![step("stp_lock")],
    )
    .unwrap();
    assert_eq!(
        migration.validate_source_and_destination(&wrong_source, &destination),
        Err(DefinitionMigrationError::IdentityMismatch)
    );
    assert_eq!(migration.validate_destination(&destination), Ok(()));
    let wrong = ProcessDefinition::new(
        definition_id("def_other"),
        version("dfv_two"),
        ContentDigest([2; 32]),
        vec![step("stp_lock")],
    )
    .unwrap();
    assert_eq!(
        migration.validate_destination(&wrong),
        Err(DefinitionMigrationError::IdentityMismatch)
    );
    let mut malformed = destination;
    malformed.step_ids.clear();
    assert_eq!(
        migration.validate_destination(&malformed),
        Err(DefinitionMigrationError::InvalidDestination)
    );
    assert_eq!(
        DefinitionMigration::new(
            migration_id("mig_noop"),
            definition_id("def_trade"),
            version("dfv_one"),
            ContentDigest([1; 32]),
            version("dfv_one"),
            ContentDigest([1; 32]),
        ),
        Err(DefinitionMigrationError::NoOp)
    );
}

#[test]
fn canonical_scope_validation_bounds_and_deduplicates_resources() {
    let duplicate = CanonicalCommand::new(
        tenant("tnt_market"),
        action_id("act_settle"),
        penelope::ids::OperationId::new("op_settle".to_string()).unwrap(),
        vec![
            ResourceId::new("res_asset".to_string()).unwrap(),
            ResourceId::new("res_asset".to_string()).unwrap(),
        ],
        ContentDigest([0; 32]),
    );
    assert_eq!(duplicate.unwrap_err(), DomainError::DuplicateCanonicalResourceId);
}

// Further scenarios of the domain contracts.

#[test]
fn identifier_bounds_and_prefixes_are_exact() {
    assert!(TenantId::new("tnt_".to_string()).is_err());
    assert!(TenantId::new("tnt_x".to_string()).is_ok());
    let longest = format!("tnt_{}", "a".repeat(124));
    assert!(TenantId::new(longest.clone()).is_ok());
    assert!(TenantId::new(format!("{longest}a")).is_err());
    assert_eq!(TenantId::new("tnt_ok".to_string()).unwrap().as_str(), "tnt_ok");
}

#[test]
fn scope_canonical_bytes_length_prefix_each_identity() {
    let scope = ProcessScope::new(
        tenant("tnt_a"),
        process("prc_b"),
        definition_id("def_c"),
        version("dfv_d"),
        ContentDigest([7; 32]),
    );
    let mut expected = Vec::new();
    for text in ["tnt_a", "prc_b", "def_c", "dfv_d"] {
        expected.push(0);
        expected.push(text.len() as u8);
        expected.extend_from_slice(text.as_bytes());
    }
    expected.extend_from_slice(&[7; 32]);
    assert_eq!(scope.canonical_bytes(), expected);
}

#[test]
fn canonical_resource_scope_is_bounded() {
    let many: Vec<ResourceId> =
        (0..65).map(|index| ResourceId::new(format!("res_{index}")).unwrap()).collect();
    assert_eq!(
        penelope::domain::validate_canonical_resource_scope(&many),
        Err(DomainError::CanonicalResourceLimitExceeded)
    );
    assert_eq!(penelope::domain::validate_canonical_resource_scope(&many[..64]), Ok(()));
}

#[test]
fn sha256_of_known_input_matches_the_standard_digest() {
    let digest = ContentDigest::sha256(b"abc");
    assert_eq!(
        digest.0,
        [
            0xba, 0x78, 0x16, 0xbf, 0x8f, 0x01, 0xcf, 0xea, 0x41, 0x41, 0x40, 0xde, 0x5d, 0xae,
            0x22, 0x23, 0xb0, 0x03, 0x61, 0xa3, 0x96, 0x17, 0x7a, 0x9c, 0xb4, 0x10, 0xff, 0x61,
            0xf2, 0x00, 0x15, 0xad,
        ]
    );
    assert_ne!(ContentDigest::sha256(b"abd"), digest);
}

#[test]
fn input_envelope_wraps_its_input() {
    let input = ProcessInput::new(
        tenant("tnt_game"),
        process("prc_trade"),
        InputId::new("inp_start".to_string()).unwrap(),
        ProcessInputKind::CanonicalEvent,
        ContentDigest([4; 32]),
    );
    let envelope = ProcessInputEnvelope::new(input.clone());
    assert_eq!(envelope.input, input);
    assert_eq!(envelope.validate(), Ok(()));
}

#[test]
fn a_valid_migration_never_joins_exactly_compatible_definitions() {
    let same_version = DefinitionMigration::new(
        migration_id("mig_trade_fix"),
        definition_id("def_trade"),
        version("dfv_one"),
        ContentDigest([1; 32]),
        version("dfv_one"),
        ContentDigest([2; 32]),
    )
    .unwrap();
    let source = ProcessDefinition::new(
        definition_id("def_trade"),
        version("dfv_one"),
        ContentDigest([1; 32]),
        vec![step("stp_lock")],
    )
    .unwrap();
    let destination = ProcessDefinition::new(
        definition_id("def_trade"),
        version("dfv_one"),
        ContentDigest([2; 32]),
        vec![step("stp_lock")],
    )
    .unwrap();
    assert_eq!(same_version.validate_source_and_destination(&source, &destination), Ok(()));
    assert_eq!(
        destination.compatibility_with(&source),
        DefinitionCompatibility::RequiresMigration
    );

    let next_version = DefinitionMigration::new(
        migration_id("mig_trade_v2"),
        definition_id("def_trade"),
        version("dfv_one"),
        ContentDigest([1; 32]),
        version("dfv_two"),
        ContentDigest([1; 32]),
    )
    .unwrap();
    let upgraded = ProcessDefinition::new(
        definition_id("def_trade"),
        version("dfv_two"),
        ContentDigest([1; 32]),
        vec![step("stp_lock")],
    )
    .unwrap();
    assert_eq!(next_version.validate_source_and_destination(&source, &upgraded), Ok(()));
    assert_eq!(upgraded.compatibility_with(&source), DefinitionCompatibility::Incompatible);
}
