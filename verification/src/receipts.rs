//! Idempotent port receipts and their binding to the exact request they
//! acknowledge.
//!
//! Each receipt names what an adapter claims to have recorded; its
//! `validate_for` holds the receipt to the request, so that an adapter can
//! never acknowledge one record in place of another.

use vstd::prelude::*;

use crate::domain::{
    CanonicalCommand, DefinitionMigration, ProcessAction, ProcessDefinition, ProcessInput, ProcessScope,
};
use crate::ids::{ActionId, ContentDigest, DefinitionId, DefinitionVersion, InputId, MigrationId, ProcessId, ReviewId, TenantId};

verus! {

/// Typed key for looking up one immutable registered definition version.
#[derive(Debug, PartialEq, Eq)]
pub struct DefinitionLookupV1 {
    /// Stable definition identity.
    pub definition_id: DefinitionId,
    /// Exact version requested by a process start or replay.
    pub definition_version: DefinitionVersion,
}

impl DefinitionLookupV1 {
    /// Creates a typed immutable-definition lookup key.
    pub fn new(definition_id: DefinitionId, definition_version: DefinitionVersion) -> (lookup: Self)
        ensures
            lookup == (DefinitionLookupV1 { definition_id, definition_version }),
    {
        DefinitionLookupV1 { definition_id, definition_version }
    }
}

/// Receipt from idempotent immutable-definition registration.
#[derive(Debug, PartialEq, Eq)]
pub struct DefinitionRegistrationReceiptV1 {
    /// Registered immutable definition identity.
    pub definition_id: DefinitionId,
    /// Registered immutable version.
    pub definition_version: DefinitionVersion,
    /// Digest acknowledged by the registry.
    pub definition_digest: ContentDigest,
    /// Whether this identity and digest were already registered.
    pub duplicate: bool,
}

/// Typed validation failure for a definition-registration receipt.
#[derive(Debug, Clone, Copy, PartialEq, Eq, Structural)]
pub enum DefinitionRegistrationReceiptValidationError {
    /// The registry acknowledged another immutable identity or digest.
    DefinitionMismatch,
}

impl DefinitionRegistrationReceiptV1 {
    /// Creates a receipt for one immutable definition identity and digest.
    pub fn new(
        definition_id: DefinitionId,
        definition_version: DefinitionVersion,
        definition_digest: ContentDigest,
        duplicate: bool,
    ) -> (receipt: Self)
        ensures
            receipt == (DefinitionRegistrationReceiptV1 {
                definition_id,
                definition_version,
                definition_digest,
                duplicate,
            }),
    {
        DefinitionRegistrationReceiptV1 { definition_id, definition_version, definition_digest, duplicate }
    }

    /// Requires this receipt to acknowledge the exact definition record:
    /// the same identity, version and digest.
    pub fn validate_for(&self, definition: &ProcessDefinition) -> (result: Result<
        (),
        DefinitionRegistrationReceiptValidationError,
    >)
        ensures
            result == if self.definition_id@ == definition.definition_id@
                && self.definition_version@ == definition.definition_version@
                && self.definition_digest == definition.definition_digest {
                Ok(())
            } else {
                Err(DefinitionRegistrationReceiptValidationError::DefinitionMismatch)
            },
    {
        if self.definition_id == definition.definition_id && self.definition_version
            == definition.definition_version && self.definition_digest
            == definition.definition_digest {
            Ok(())
        } else {
            Err(DefinitionRegistrationReceiptValidationError::DefinitionMismatch)
        }
    }
}

/// Receipt from idempotent definition-migration registration.
#[derive(Debug, PartialEq, Eq)]
pub struct DefinitionMigrationReceiptV1 {
    /// Immutable migration identity acknowledged by the registry.
    pub migration_id: MigrationId,
    /// Whether this migration identity was already registered.
    pub duplicate: bool,
}

/// Typed validation failure for a migration-registration receipt.
#[derive(Debug, Clone, Copy, PartialEq, Eq, Structural)]
pub enum DefinitionMigrationReceiptValidationError {
    /// The registry acknowledged another migration identity.
    MigrationMismatch,
}

impl DefinitionMigrationReceiptV1 {
    /// Creates a receipt for one immutable migration identity.
    pub fn new(migration_id: MigrationId, duplicate: bool) -> (receipt: Self)
        ensures
            receipt == (DefinitionMigrationReceiptV1 { migration_id, duplicate }),
    {
        DefinitionMigrationReceiptV1 { migration_id, duplicate }
    }

    /// Requires this receipt to acknowledge the exact migration.
    pub fn validate_for(&self, migration: &DefinitionMigration) -> (result: Result<
        (),
        DefinitionMigrationReceiptValidationError,
    >)
        ensures
            result == if self.migration_id@ == migration.migration_id@ {
                Ok(())
            } else {
                Err(DefinitionMigrationReceiptValidationError::MigrationMismatch)
            },
    {
        if self.migration_id == migration.migration_id {
            Ok(())
        } else {
            Err(DefinitionMigrationReceiptValidationError::MigrationMismatch)
        }
    }
}

/// Receipt from an idempotent durable inbox acceptance attempt.
#[derive(Debug, PartialEq, Eq)]
pub struct InboxAcceptanceReceiptV1 {
    /// Tenant scope of the accepted input.
    pub tenant_id: TenantId,
    /// Process scope of the accepted input.
    pub process_id: ProcessId,
    /// Immutable input identity accepted or redelivered.
    pub input_id: InputId,
    /// Whether this identity was already durably accepted.
    pub duplicate: bool,
}

/// Typed validation failure for an inbox acceptance receipt.
#[derive(Debug, Clone, Copy, PartialEq, Eq, Structural)]
pub enum InboxReceiptValidationError {
    /// The adapter acknowledged a different immutable input identity.
    InputMismatch,
    /// The adapter acknowledged another tenant or process.
    ScopeMismatch,
}

impl InboxAcceptanceReceiptV1 {
    /// Creates a receipt for one input identity.
    pub fn new(tenant_id: TenantId, process_id: ProcessId, input_id: InputId, duplicate: bool) -> (receipt:
        Self)
        ensures
            receipt == (InboxAcceptanceReceiptV1 { tenant_id, process_id, input_id, duplicate }),
    {
        InboxAcceptanceReceiptV1 { tenant_id, process_id, input_id, duplicate }
    }

    /// Requires this receipt to acknowledge the exact submitted input: its
    /// tenant and process first, then its input identity.
    pub fn validate_for(&self, input: &ProcessInput) -> (result: Result<(), InboxReceiptValidationError>)
        ensures
            result == if self.tenant_id@ != input.tenant_id@ || self.process_id@
                != input.process_id@ {
                Err(InboxReceiptValidationError::ScopeMismatch)
            } else if self.input_id@ == input.input_id@ {
                Ok(())
            } else {
                Err(InboxReceiptValidationError::InputMismatch)
            },
    {
        if !(self.tenant_id == input.tenant_id) || !(self.process_id == input.process_id) {
            Err(InboxReceiptValidationError::ScopeMismatch)
        } else if self.input_id == input.input_id {
            Ok(())
        } else {
            Err(InboxReceiptValidationError::InputMismatch)
        }
    }
}

/// The manual-review mutation a receipt acknowledges.
#[derive(Debug, Clone, Copy, PartialEq, Eq, Structural)]
pub enum ManualReviewOperationV1 {
    /// Opening or returning an existing review case.
    Open,
    /// Claiming an existing review case.
    Claim,
    /// Recording a review decision.
    Decide,
}

/// Receipt from an idempotent manual-review mutation.
#[derive(Debug, PartialEq, Eq)]
pub struct ManualReviewReceiptV1 {
    /// Immutable review identity mutated or redelivered.
    pub review_id: ReviewId,
    /// Mutation operation acknowledged by the queue.
    pub operation: ManualReviewOperationV1,
    /// Whether the mutation was already durably recorded.
    pub duplicate: bool,
}

/// Typed validation failure for a manual-review receipt.
#[derive(Debug, Clone, Copy, PartialEq, Eq, Structural)]
pub enum ManualReviewReceiptValidationError {
    /// The adapter returned a receipt for another review case.
    ReviewMismatch,
    /// The adapter returned a receipt for another mutation operation.
    OperationMismatch,
}

impl ManualReviewReceiptV1 {
    /// Creates a receipt for opening one review case.
    pub fn new(review_id: ReviewId, duplicate: bool) -> (receipt: Self)
        ensures
            receipt == (ManualReviewReceiptV1 {
                review_id,
                operation: ManualReviewOperationV1::Open,
                duplicate,
            }),
    {
        Self::new_for_operation(review_id, ManualReviewOperationV1::Open, duplicate)
    }

    /// Creates a receipt for one review identity and mutation operation.
    pub fn new_for_operation(
        review_id: ReviewId,
        operation: ManualReviewOperationV1,
        duplicate: bool,
    ) -> (receipt: Self)
        ensures
            receipt == (ManualReviewReceiptV1 { review_id, operation, duplicate }),
    {
        ManualReviewReceiptV1 { review_id, operation, duplicate }
    }

    /// Requires this receipt to acknowledge the exact review identity.
    pub fn validate_for(&self, review_id: &ReviewId) -> (result: Result<
        (),
        ManualReviewReceiptValidationError,
    >)
        ensures
            result == if self.review_id@ == review_id@ {
                Ok(())
            } else {
                Err(ManualReviewReceiptValidationError::ReviewMismatch)
            },
    {
        if self.review_id == *review_id {
            Ok(())
        } else {
            Err(ManualReviewReceiptValidationError::ReviewMismatch)
        }
    }

    /// Requires this receipt to acknowledge the exact review mutation: the
    /// review identity first, then the operation.
    pub fn validate_for_operation(
        &self,
        review_id: &ReviewId,
        operation: ManualReviewOperationV1,
    ) -> (result: Result<(), ManualReviewReceiptValidationError>)
        ensures
            result == if self.review_id@ != review_id@ {
                Err(ManualReviewReceiptValidationError::ReviewMismatch)
            } else if self.operation == operation {
                Ok(())
            } else {
                Err(ManualReviewReceiptValidationError::OperationMismatch)
            },
    {
        match self.validate_for(review_id) {
            Err(e) => {
                return Err(e);
            },
            Ok(()) => {},
        }
        if self.operation == operation {
            Ok(())
        } else {
            Err(ManualReviewReceiptValidationError::OperationMismatch)
        }
    }
}

/// Receipt from an idempotent action-dispatch attempt.
#[derive(Debug, PartialEq, Eq)]
pub struct ActionDispatchReceiptV1 {
    /// Complete process-definition scope acknowledged by the dispatcher.
    pub scope: ProcessScope,
    /// Immutable action identity dispatched or redelivered.
    pub action_id: ActionId,
    /// Whether this action was already durably dispatched.
    pub duplicate: bool,
}

/// Typed validation failure for an action-dispatch receipt.
#[derive(Debug, Clone, Copy, PartialEq, Eq, Structural)]
pub enum ActionReceiptValidationError {
    /// The adapter returned a receipt for another action.
    ActionMismatch,
    /// The adapter acknowledged an action under another pinned scope.
    ScopeMismatch,
}

impl ActionDispatchReceiptV1 {
    /// Creates a receipt for one action identity.
    pub fn new(scope: ProcessScope, action_id: ActionId, duplicate: bool) -> (receipt: Self)
        ensures
            receipt == (ActionDispatchReceiptV1 { scope, action_id, duplicate }),
    {
        ActionDispatchReceiptV1 { scope, action_id, duplicate }
    }

    /// Requires this receipt to acknowledge the exact action: its complete
    /// pinned scope first, then its identity.
    pub fn validate_for(&self, action: &ProcessAction) -> (result: Result<
        (),
        ActionReceiptValidationError,
    >)
        ensures
            result == if self.scope@ != action.scope_view() {
                Err(ActionReceiptValidationError::ScopeMismatch)
            } else if self.action_id@ == action.action_id@ {
                Ok(())
            } else {
                Err(ActionReceiptValidationError::ActionMismatch)
            },
    {
        if !(self.scope == action.scope()) {
            Err(ActionReceiptValidationError::ScopeMismatch)
        } else if self.action_id == action.action_id {
            Ok(())
        } else {
            Err(ActionReceiptValidationError::ActionMismatch)
        }
    }
}

/// Receipt from idempotent canonical-command submission/enqueue.
#[derive(Debug, PartialEq, Eq)]
pub struct CanonicalSubmitReceiptV1 {
    /// Tenant acknowledged by the canonical adapter.
    pub tenant_id: TenantId,
    /// Penelope action identity reused as the canonical idempotency key.
    pub action_id: ActionId,
    /// Whether this command identity was already durably submitted.
    pub duplicate: bool,
}

/// Typed validation failure for a canonical-submit receipt.
#[derive(Debug, Clone, Copy, PartialEq, Eq, Structural)]
pub enum CanonicalSubmitReceiptValidationError {
    /// The adapter acknowledged another command identity.
    ActionMismatch,
    /// The adapter acknowledged a command under another pinned scope.
    ScopeMismatch,
}

impl CanonicalSubmitReceiptV1 {
    /// Creates a receipt for one canonical command identity.
    pub fn new(tenant_id: TenantId, action_id: ActionId, duplicate: bool) -> (receipt: Self)
        ensures
            receipt == (CanonicalSubmitReceiptV1 { tenant_id, action_id, duplicate }),
    {
        CanonicalSubmitReceiptV1 { tenant_id, action_id, duplicate }
    }

    /// Requires this receipt to acknowledge the exact command: its tenant
    /// first, then its action identity.
    pub fn validate_for(&self, command: &CanonicalCommand) -> (result: Result<
        (),
        CanonicalSubmitReceiptValidationError,
    >)
        ensures
            result == if self.tenant_id@ != command.tenant_id@ {
                Err(CanonicalSubmitReceiptValidationError::ScopeMismatch)
            } else if self.action_id@ == command.action_id@ {
                Ok(())
            } else {
                Err(CanonicalSubmitReceiptValidationError::ActionMismatch)
            },
    {
        if !(self.tenant_id == command.tenant_id) {
            Err(CanonicalSubmitReceiptValidationError::ScopeMismatch)
        } else if self.action_id == command.action_id {
            Ok(())
        } else {
            Err(CanonicalSubmitReceiptValidationError::ActionMismatch)
        }
    }
}

} // verus!
