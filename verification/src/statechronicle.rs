//! Correlation of committed canonical-state events with the commands that
//! produced them, and binding of verified events to atomic process commits.
//!
//! A canonical event advances a process only after it matches every
//! coordinate of the command expectation, and only through a commit whose
//! inbox input carries that event's exact digest.

use vstd::prelude::*;

use crate::commit::{AtomicProcessCommitV1, CommitValidationError};
use crate::domain::{
    spec_validate_resource_scope, validate_canonical_resource_scope, views, CanonicalCommand,
    CanonicalEvent, DomainError, ProcessInputKind, ProcessScope,
};
use crate::ids::{ActionId, ContentDigest, OperationId, ResourceId};

verus! {

/// Immutable correlation requirements for a submitted canonical command.
#[derive(Debug, PartialEq, Eq)]
pub struct CanonicalCommandExpectationV1 {
    /// Immutable process and definition scope that authorized this command.
    pub scope: ProcessScope,
    /// Action ID reused as canonical idempotency identity.
    pub action_id: ActionId,
    /// Registered canonical operation expected to commit.
    pub operation: OperationId,
    /// Exact canonical resource scope expected to commit.
    pub resource_ids: Vec<ResourceId>,
    /// Exact redacted digest expected from the committed canonical result.
    pub expected_event_payload_digest: ContentDigest,
}

/// Typed canonical-event correlation failure.
#[derive(Debug, Clone, Copy, PartialEq, Eq, Structural)]
pub enum CorrelationError {
    /// Expected command scope violated the canonical resource-scope invariant.
    InvalidExpectation {
        /// Underlying typed domain validation error.
        source: DomainError,
    },
    /// Command tenant does not match the process scope being authorized.
    CommandScopeMismatch,
    /// Received committed event violated the canonical resource-scope invariant.
    InvalidEvent {
        /// Underlying typed domain validation error.
        source: DomainError,
    },
    /// Event tenant does not match the authorized process scope.
    TenantMismatch,
    /// Event action identity does not match the submitted action.
    ActionMismatch,
    /// Event operation does not match the submitted canonical operation.
    OperationMismatch,
    /// Event resource scope does not exactly match the submitted scope.
    ResourceScopeMismatch,
    /// Committed canonical result digest differs from the exact expected result.
    PayloadDigestMismatch,
}

impl CanonicalCommandExpectationV1 {
    /// Derives correlation requirements directly from a validated canonical
    /// command, preventing callers from reconstructing scope or action fields
    /// independently: the command's scope must be valid and its tenant the
    /// scope's tenant.
    pub fn from_command(
        scope: ProcessScope,
        command: &CanonicalCommand,
        expected_event_payload_digest: ContentDigest,
    ) -> (result: Result<Self, CorrelationError>)
        ensures
            match spec_validate_resource_scope(command.resource_ids@) {
                Err(source) => result == Err::<Self, CorrelationError>(
                    CorrelationError::InvalidExpectation { source },
                ),
                Ok(_) => if command.tenant_id@ != scope.tenant_id@ {
                    result == Err::<Self, CorrelationError>(CorrelationError::CommandScopeMismatch)
                } else {
                    result matches Ok(expectation) && expectation.scope == scope
                        && expectation.action_id == command.action_id && expectation.operation
                        == command.operation && expectation.resource_ids@
                        == command.resource_ids@ && expectation.expected_event_payload_digest
                        == expected_event_payload_digest
                },
            },
    {
        match command.validate() {
            Err(source) => {
                return Err(CorrelationError::InvalidExpectation { source });
            },
            Ok(()) => {},
        }
        if !(command.tenant_id == scope.tenant_id) {
            return Err(CorrelationError::CommandScopeMismatch);
        }
        let expectation = CanonicalCommandExpectationV1 {
            scope,
            action_id: command.action_id.clone(),
            operation: command.operation.clone(),
            resource_ids: command.resource_ids.clone(),
            expected_event_payload_digest,
        };
        match expectation.validate() {
            Err(source) => {
                return Err(CorrelationError::InvalidExpectation { source });
            },
            Ok(()) => {},
        }
        Ok(expectation)
    }

    /// Validates the expected canonical resource scope before correlation.
    pub fn validate(&self) -> (result: Result<(), DomainError>)
        ensures
            result == spec_validate_resource_scope(self.resource_ids@),
    {
        validate_canonical_resource_scope(self.resource_ids.as_slice())
    }
}

/// A canonical event that passed the correlation checks.
#[derive(Debug, PartialEq, Eq)]
pub struct VerifiedCanonicalEventV1 {
    /// Pinned scope that authorized and correlated this event.
    pub scope: ProcessScope,
    /// The event confirmed against the command expectation.
    pub event: CanonicalEvent,
}

/// The outcome of correlating an event with an expectation: both resource
/// scopes valid, then the same tenant, action, operation, exact resource
/// scope and result digest.
pub open spec fn spec_verify_committed_event(
    expected: CanonicalCommandExpectationV1,
    event: CanonicalEvent,
) -> Result<(), CorrelationError> {
    if spec_validate_resource_scope(expected.resource_ids@) is Err {
        Err(
            CorrelationError::InvalidExpectation {
                source: spec_validate_resource_scope(expected.resource_ids@)->Err_0,
            },
        )
    } else if spec_validate_resource_scope(event.resource_ids@) is Err {
        Err(
            CorrelationError::InvalidEvent {
                source: spec_validate_resource_scope(event.resource_ids@)->Err_0,
            },
        )
    } else if event.tenant_id@ != expected.scope.tenant_id@ {
        Err(CorrelationError::TenantMismatch)
    } else if event.action_id@ != expected.action_id@ {
        Err(CorrelationError::ActionMismatch)
    } else if event.operation@ != expected.operation@ {
        Err(CorrelationError::OperationMismatch)
    } else if views(event.resource_ids@) != views(expected.resource_ids@) {
        Err(CorrelationError::ResourceScopeMismatch)
    } else if event.payload_digest != expected.expected_event_payload_digest {
        Err(CorrelationError::PayloadDigestMismatch)
    } else {
        Ok(())
    }
}

fn same_resources(a: &Vec<ResourceId>, b: &Vec<ResourceId>) -> (same: bool)
    ensures
        same == (views(a@) == views(b@)),
{
    if a.len() != b.len() {
        assert(views(a@).len() != views(b@).len());
        return false;
    }
    let mut i: usize = 0;
    while i < a.len()
        invariant
            0 <= i <= a.len(),
            a.len() == b.len(),
            forall|k: int| 0 <= k < i ==> #[trigger] a@[k]@ == b@[k]@,
        decreases a.len() - i,
    {
        if !(a[i] == b[i]) {
            assert(views(a@)[i as int] != views(b@)[i as int]);
            return false;
        }
        i = i + 1;
    }
    assert(views(a@) =~= views(b@));
    true
}

/// Correlates an event from a trusted committed-event stream to a previously
/// submitted canonical command.
///
/// This validates correlation only. An adapter must obtain `event` from a
/// verified committed outbox source; a request response or an untrusted
/// transport payload is not evidence of a committed canonical fact.
pub fn verify_committed_event(expected: &CanonicalCommandExpectationV1, event: CanonicalEvent) -> (result:
    Result<VerifiedCanonicalEventV1, CorrelationError>)
    ensures
        match spec_verify_committed_event(*expected, event) {
            Err(e) => result == Err::<VerifiedCanonicalEventV1, CorrelationError>(e),
            Ok(_) => result == Ok::<VerifiedCanonicalEventV1, CorrelationError>(
                VerifiedCanonicalEventV1 { scope: expected.scope, event },
            ),
        },
{
    match expected.validate() {
        Err(source) => {
            return Err(CorrelationError::InvalidExpectation { source });
        },
        Ok(()) => {},
    }
    match event.validate() {
        Err(source) => {
            return Err(CorrelationError::InvalidEvent { source });
        },
        Ok(()) => {},
    }
    if !(event.tenant_id == expected.scope.tenant_id) {
        return Err(CorrelationError::TenantMismatch);
    }
    if !(event.action_id == expected.action_id) {
        return Err(CorrelationError::ActionMismatch);
    }
    if !(event.operation == expected.operation) {
        return Err(CorrelationError::OperationMismatch);
    }
    if !same_resources(&event.resource_ids, &expected.resource_ids) {
        return Err(CorrelationError::ResourceScopeMismatch);
    }
    if !(event.payload_digest == expected.expected_event_payload_digest) {
        return Err(CorrelationError::PayloadDigestMismatch);
    }
    Ok(VerifiedCanonicalEventV1 { scope: expected.scope.clone(), event })
}

/// Failure while binding verified canonical evidence to an atomic commit.
#[derive(Debug, Clone, Copy, PartialEq, Eq, Structural)]
pub enum CanonicalCommitBindingError {
    /// The proposed commit violates its own typed atomic invariants.
    InvalidCommit {
        /// Underlying typed commit-validation failure.
        source: CommitValidationError,
    },
    /// Verified canonical evidence requires an accepted inbox input.
    MissingInput,
    /// The inbox input does not identify a canonical-event delivery.
    InputKindMismatch,
    /// The input tenant/process does not match the verified process scope.
    InputScopeMismatch,
    /// The input digest does not exactly bind to the verified canonical event.
    InputPayloadDigestMismatch,
    /// The atomic outcome scope does not match the verified process scope.
    CommitScopeMismatch,
}

/// The outcome of binding a verified event to a commit: a valid commit with
/// a canonical-event input of the verified tenant and process carrying the
/// event's exact digest, and outcomes in the verified scope.
pub open spec fn spec_bind_verified_event(
    commit: AtomicProcessCommitV1,
    verified: VerifiedCanonicalEventV1,
) -> Result<(), CanonicalCommitBindingError> {
    if commit.spec_validate() is Err {
        Err(CanonicalCommitBindingError::InvalidCommit { source: commit.spec_validate()->Err_0 })
    } else {
        match commit.input {
            None => Err(CanonicalCommitBindingError::MissingInput),
            Some(input) => if input.kind != ProcessInputKind::CanonicalEvent {
                Err(CanonicalCommitBindingError::InputKindMismatch)
            } else if input.tenant_id@ != verified.scope.tenant_id@ || input.process_id@
                != verified.scope.process_id@ {
                Err(CanonicalCommitBindingError::InputScopeMismatch)
            } else if input.payload_digest != verified.event.payload_digest {
                Err(CanonicalCommitBindingError::InputPayloadDigestMismatch)
            } else if commit.outcomes@.len() == 0 || commit.outcomes@[0].scope_view()
                != verified.scope@ {
                Err(CanonicalCommitBindingError::CommitScopeMismatch)
            } else {
                Ok(())
            },
        }
    }
}

/// Binds a previously verified canonical event to one atomic process commit.
///
/// This is the safe adapter path after [`verify_committed_event`]: it requires
/// a canonical inbox input with the exact event digest and pins the source event
/// ID for same-transaction source deduplication.
pub fn bind_verified_event_to_commit(
    commit: AtomicProcessCommitV1,
    verified: &VerifiedCanonicalEventV1,
) -> (result: Result<AtomicProcessCommitV1, CanonicalCommitBindingError>)
    ensures
        match spec_bind_verified_event(commit, *verified) {
            Err(e) => result == Err::<AtomicProcessCommitV1, CanonicalCommitBindingError>(e),
            Ok(_) => result == Ok::<AtomicProcessCommitV1, CanonicalCommitBindingError>(
                AtomicProcessCommitV1 {
                    canonical_source_event_id: Some(verified.event.source_event_id),
                    ..commit
                },
            ),
        },
{
    match commit.validate() {
        Err(source) => {
            return Err(CanonicalCommitBindingError::InvalidCommit { source });
        },
        Ok(()) => {},
    }
    match &commit.input {
        None => {
            return Err(CanonicalCommitBindingError::MissingInput);
        },
        Some(input) => {
            if input.kind != ProcessInputKind::CanonicalEvent {
                return Err(CanonicalCommitBindingError::InputKindMismatch);
            }
            if !(input.tenant_id == verified.scope.tenant_id) || !(input.process_id
                == verified.scope.process_id) {
                return Err(CanonicalCommitBindingError::InputScopeMismatch);
            }
            if !(input.payload_digest == verified.event.payload_digest) {
                return Err(CanonicalCommitBindingError::InputPayloadDigestMismatch);
            }
        },
    }
    if commit.outcomes.len() == 0 {
        return Err(CanonicalCommitBindingError::CommitScopeMismatch);
    }
    let outcome = &commit.outcomes[0];
    if !(outcome.tenant_id == verified.scope.tenant_id) || !(outcome.process_id
        == verified.scope.process_id) || !(outcome.definition_id == verified.scope.definition_id)
        || !(outcome.definition_version == verified.scope.definition_version) || !(
    outcome.definition_digest == verified.scope.definition_digest) {
        return Err(CanonicalCommitBindingError::CommitScopeMismatch);
    }
    Ok(commit.with_canonical_source_event(verified.event.source_event_id.clone()))
}

} // verus!
