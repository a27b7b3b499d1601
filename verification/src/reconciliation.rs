//! Canonical and external-effect reconciliation evidence, held to the exact
//! action it is reported for, and the fail-closed recovery disposition that
//! follows from it.

use vstd::prelude::*;

use crate::domain::{CanonicalEvent, EffectKey, ProcessAction, ProcessScope, spec_validate_resource_scope};
use crate::ids::{ActionId, ExternalReferenceId, LogicalTime};

verus! {

/// Typed validation failure for canonical-effect reconciliation evidence.
#[derive(Debug, Clone, Copy, PartialEq, Eq, Structural)]
pub enum ReconciliationValidationError {
    /// The evidence was returned for a different process action.
    ActionMismatch,
    /// The evidence was returned for another pinned process-definition scope.
    ScopeMismatch,
    /// Committed evidence is malformed.
    InvalidCommittedEvidence,
    /// Committed evidence has a tenant different from the requested action.
    TenantMismatch,
}

/// Authoritative result of reconciling a canonical external effect.
///
/// `Unknown` is deliberately distinct from `NotCommitted`: callers must not
/// retry an unknown effect merely because no success response was received.
/// An adapter may return `NotCommitted` only after consulting the authoritative
/// canonical evidence source according to its documented consistency window.
#[derive(Debug, PartialEq, Eq)]
#[allow(inconsistent_fields)]
pub enum CanonicalReconciliationV1 {
    /// A verified immutable canonical event proves the effect committed.
    Committed {
        /// Immutable process and definition scope of the reconciled action.
        scope: ProcessScope,
        /// The committed canonical evidence.
        event: CanonicalEvent,
    },
    /// Authoritative evidence proves the action did not commit.
    NotCommitted {
        /// Immutable process and definition scope of the reconciled action.
        scope: ProcessScope,
        /// The action whose absence was authoritatively established.
        action_id: ActionId,
    },
    /// The effect cannot safely be classified as committed or absent.
    Unknown {
        /// Immutable process and definition scope of the reconciled action.
        scope: ProcessScope,
        /// The action requiring escalation or later reconciliation.
        action_id: ActionId,
    },
}

impl CanonicalReconciliationV1 {
    /// The scope the evidence is reported under.
    pub open spec fn spec_scope(self) -> ProcessScope {
        match self {
            CanonicalReconciliationV1::Committed { scope, .. } => scope,
            CanonicalReconciliationV1::NotCommitted { scope, .. } => scope,
            CanonicalReconciliationV1::Unknown { scope, .. } => scope,
        }
    }

    /// The action the evidence is reported for: the committed event's
    /// action, or the named action.
    pub open spec fn spec_action_id(self) -> ActionId {
        match self {
            CanonicalReconciliationV1::Committed { event, .. } => event.action_id,
            CanonicalReconciliationV1::NotCommitted { action_id, .. } => action_id,
            CanonicalReconciliationV1::Unknown { action_id, .. } => action_id,
        }
    }

    /// The outcome of holding the evidence to a requested action identity.
    pub open spec fn spec_validate_for(self, requested: ActionId) -> Result<
        (),
        ReconciliationValidationError,
    > {
        if self.spec_action_id()@ == requested@ {
            Ok(())
        } else {
            Err(ReconciliationValidationError::ActionMismatch)
        }
    }

    /// The outcome of holding the evidence to an exact action: its complete
    /// scope, its identity, and for committed evidence a valid event of the
    /// action's tenant.
    pub open spec fn spec_validate_for_action(self, action: ProcessAction) -> Result<
        (),
        ReconciliationValidationError,
    > {
        if self.spec_scope()@ != action.scope_view() {
            Err(ReconciliationValidationError::ScopeMismatch)
        } else if self.spec_validate_for(action.action_id) is Err {
            Err(ReconciliationValidationError::ActionMismatch)
        } else {
            match self {
                CanonicalReconciliationV1::Committed { event, .. } => {
                    if spec_validate_resource_scope(event.resource_ids@) is Err {
                        Err(ReconciliationValidationError::InvalidCommittedEvidence)
                    } else if event.tenant_id@ != action.tenant_id@ {
                        Err(ReconciliationValidationError::TenantMismatch)
                    } else {
                        Ok(())
                    }
                },
                _ => Ok(()),
            }
        }
    }

    /// Validates that reconciliation evidence belongs to the requested action.
    pub fn validate_for(&self, requested_action_id: &ActionId) -> (result: Result<
        (),
        ReconciliationValidationError,
    >)
        ensures
            result == self.spec_validate_for(*requested_action_id),
    {
        let observed_action_id = match self {
            CanonicalReconciliationV1::Committed { event, .. } => &event.action_id,
            CanonicalReconciliationV1::NotCommitted { action_id, .. } => action_id,
            CanonicalReconciliationV1::Unknown { action_id, .. } => action_id,
        };
        if *observed_action_id == *requested_action_id {
            Ok(())
        } else {
            Err(ReconciliationValidationError::ActionMismatch)
        }
    }

    /// Validates that reconciliation evidence is pinned to the complete action
    /// scope and, for committed evidence, is a valid same-tenant event.
    pub fn validate_for_action(&self, action: &ProcessAction) -> (result: Result<
        (),
        ReconciliationValidationError,
    >)
        ensures
            result == self.spec_validate_for_action(*action),
    {
        let scope = match self {
            CanonicalReconciliationV1::Committed { scope, .. } => scope,
            CanonicalReconciliationV1::NotCommitted { scope, .. } => scope,
            CanonicalReconciliationV1::Unknown { scope, .. } => scope,
        };
        if !(*scope == action.scope()) {
            return Err(ReconciliationValidationError::ScopeMismatch);
        }
        match self.validate_for(&action.action_id) {
            Err(e) => {
                return Err(e);
            },
            Ok(()) => {},
        }
        match self {
            CanonicalReconciliationV1::Committed { event, .. } => {
                if event.validate().is_err() {
                    return Err(ReconciliationValidationError::InvalidCommittedEvidence);
                }
                if !(event.tenant_id == action.tenant_id) {
                    return Err(ReconciliationValidationError::TenantMismatch);
                }
            },
            _ => {},
        }
        Ok(())
    }
}

/// Typed failure for reconciliation consistency-window handling.
#[derive(Debug, Clone, Copy, PartialEq, Eq, Structural)]
pub enum ConsistencyWindowValidationError {
    /// The adapter supplied a window whose end precedes its observation time.
    InvalidWindow,
    /// Retry was requested before authoritative absence could be established.
    WindowNotElapsed,
    /// An unknown or committed effect cannot be treated as retry-safe.
    NotRetrySafe,
}

/// Reconciliation result paired with the adapter's authoritative observation
/// time and consistency horizon.
#[derive(Debug, PartialEq, Eq)]
pub struct CanonicalReconciliationWindowV1 {
    /// Typed reconciliation result.
    pub result: CanonicalReconciliationV1,
    /// Logical time at which the authoritative source was checked.
    pub checked_at: LogicalTime,
    /// Earliest logical time at which `NotCommitted` may authorize retry.
    pub consistency_until: LogicalTime,
}

/// Safe next step derived from authoritative reconciliation evidence.
#[derive(Debug, PartialEq, Eq)]
pub enum RecoveryDispositionV1 {
    /// The effect is committed and must not be retried.
    Committed {
        /// Verified canonical event proving commitment.
        event: CanonicalEvent,
    },
    /// Authoritative absence is not yet safe to use before the horizon.
    Wait {
        /// Earliest logical time at which retry may be reconsidered.
        until: LogicalTime,
    },
    /// The action is safe to retry after authoritative absence and horizon.
    Retry {
        /// Exact action identity eligible for retry.
        action_id: ActionId,
    },
    /// Evidence is ambiguous and requires escalation/reconciliation.
    Escalate {
        /// Exact action identity requiring operator or later evidence.
        action_id: ActionId,
    },
}

impl CanonicalReconciliationWindowV1 {
    /// Creates and validates a consistency-window result: the horizon may
    /// not precede the observation time.
    pub fn new(
        result: CanonicalReconciliationV1,
        checked_at: LogicalTime,
        consistency_until: LogicalTime,
    ) -> (window: Result<Self, ConsistencyWindowValidationError>)
        ensures
            consistency_until.0 < checked_at.0 ==> window == Err::<
                Self,
                ConsistencyWindowValidationError,
            >(ConsistencyWindowValidationError::InvalidWindow),
            consistency_until.0 >= checked_at.0 ==> window == Ok::<
                Self,
                ConsistencyWindowValidationError,
            >(CanonicalReconciliationWindowV1 { result, checked_at, consistency_until }),
    {
        if consistency_until.0 < checked_at.0 {
            return Err(ConsistencyWindowValidationError::InvalidWindow);
        }
        Ok(CanonicalReconciliationWindowV1 { result, checked_at, consistency_until })
    }

    /// Validates whether this result authorizes a retry at `now`: only
    /// authoritative absence, and only once the horizon has elapsed.
    pub fn require_retry_safe_at(&self, now: LogicalTime) -> (result: Result<
        ActionId,
        ConsistencyWindowValidationError,
    >)
        ensures
            result == if now.0 < self.consistency_until.0 {
                Err(ConsistencyWindowValidationError::WindowNotElapsed)
            } else {
                match self.result {
                    CanonicalReconciliationV1::NotCommitted { action_id, .. } => Ok(action_id),
                    _ => Err(ConsistencyWindowValidationError::NotRetrySafe),
                }
            },
    {
        if now.0 < self.consistency_until.0 {
            return Err(ConsistencyWindowValidationError::WindowNotElapsed);
        }
        match &self.result {
            CanonicalReconciliationV1::NotCommitted { action_id, .. } => Ok(action_id.clone()),
            _ => Err(ConsistencyWindowValidationError::NotRetrySafe),
        }
    }

    /// Validates the wrapped evidence against the exact action being recovered.
    pub fn validate_for_action(&self, action: &ProcessAction) -> (result: Result<
        (),
        ReconciliationValidationError,
    >)
        ensures
            result == self.result.spec_validate_for_action(*action),
    {
        self.result.validate_for_action(action)
    }

    /// Derives a fail-closed recovery disposition for an exact action:
    /// committed evidence is never retried, authoritative absence waits for
    /// the horizon and then permits a retry, and ambiguity escalates.
    pub fn disposition_at(&self, action: &ProcessAction, now: LogicalTime) -> (result: Result<
        RecoveryDispositionV1,
        ReconciliationValidationError,
    >)
        ensures
            match self.result.spec_validate_for_action(*action) {
                Err(e) => result == Err::<RecoveryDispositionV1, ReconciliationValidationError>(e),
                Ok(_) => match self.result {
                    CanonicalReconciliationV1::Committed { event, .. } => result matches Ok(
                        RecoveryDispositionV1::Committed { event: copy },
                    ) && copy.same_as(event),
                    CanonicalReconciliationV1::NotCommitted { action_id, .. } => if now.0
                        < self.consistency_until.0 {
                        result == Ok::<RecoveryDispositionV1, ReconciliationValidationError>(
                            RecoveryDispositionV1::Wait { until: self.consistency_until },
                        )
                    } else {
                        result == Ok::<RecoveryDispositionV1, ReconciliationValidationError>(
                            RecoveryDispositionV1::Retry { action_id },
                        )
                    },
                    CanonicalReconciliationV1::Unknown { action_id, .. } => result == Ok::<
                        RecoveryDispositionV1,
                        ReconciliationValidationError,
                    >(RecoveryDispositionV1::Escalate { action_id }),
                },
            },
    {
        match self.validate_for_action(action) {
            Err(e) => {
                return Err(e);
            },
            Ok(()) => {},
        }
        match &self.result {
            CanonicalReconciliationV1::Committed { event, .. } => Ok(
                RecoveryDispositionV1::Committed { event: event.clone() },
            ),
            CanonicalReconciliationV1::NotCommitted { action_id, .. } => {
                if now.0 < self.consistency_until.0 {
                    Ok(RecoveryDispositionV1::Wait { until: self.consistency_until })
                } else {
                    Ok(RecoveryDispositionV1::Retry { action_id: action_id.clone() })
                }
            },
            CanonicalReconciliationV1::Unknown { action_id, .. } => Ok(
                RecoveryDispositionV1::Escalate { action_id: action_id.clone() },
            ),
        }
    }
}

/// Typed validation failure for an external-effect dispatch or reconciliation record.
#[derive(Debug, Clone, Copy, PartialEq, Eq, Structural)]
pub enum EffectReconciliationValidationError {
    /// The request action is malformed.
    InvalidActionSchema,
    /// Evidence belongs to another independently idempotent action.
    ActionMismatch,
    /// Evidence does not retain the action's exact semantic idempotency key.
    EffectKeyMismatch,
    /// The request's inclusive logical deadline has passed.
    DeadlineExceeded,
}

/// Typed external-effect execution or reconciliation result.
///
/// `Unknown` is distinct from `KnownFailure`: a timeout or response loss may
/// leave an external effect indeterminate, in which case callers must
/// reconcile again or escalate rather than blindly dispatch another effect.
#[derive(Debug, Clone, Copy, PartialEq, Eq, Structural)]
pub enum ExternalEffectStateV1 {
    /// Authoritative evidence proves the external effect completed.
    Succeeded,
    /// Authoritative evidence proves the external effect did not complete.
    KnownFailure,
    /// The external effect cannot safely be classified yet.
    Unknown,
}

/// Stable, idempotent request supplied to an external effect adapter.
#[derive(Debug, PartialEq, Eq)]
pub struct EffectDispatchRequestV1 {
    /// Independently idempotent action to execute or reconcile.
    pub action: ProcessAction,
    /// Semantic effect key derived from the exact action coordinates.
    pub effect_key: EffectKey,
    /// Optional inclusive logical deadline supplied by the application layer.
    pub deadline: Option<LogicalTime>,
}

/// Durable evidence returned by an external effect adapter.
#[derive(Debug, PartialEq, Eq)]
pub struct ExternalEffectEvidenceV1 {
    /// Independently idempotent action this evidence describes.
    pub action_id: ActionId,
    /// Exact semantic key of the action this evidence describes.
    pub effect_key: EffectKey,
    /// Opaque remote reference if the external system assigned one.
    pub external_reference_id: Option<ExternalReferenceId>,
    /// Authoritative result classification.
    pub state: ExternalEffectStateV1,
}

impl EffectDispatchRequestV1 {
    /// A request is valid when its key is the action's own effect key.
    pub open spec fn spec_validate(self) -> Result<(), EffectReconciliationValidationError> {
        if self.effect_key@ != self.action.spec_effect_key()@ {
            Err(EffectReconciliationValidationError::EffectKeyMismatch)
        } else {
            Ok(())
        }
    }

    /// Whether the request is past its inclusive logical deadline at `now`.
    pub open spec fn spec_is_expired_at(self, now: LogicalTime) -> bool {
        match self.deadline {
            Some(deadline) => now.0 > deadline.0,
            None => false,
        }
    }

    /// Creates an external effect request for an action, keyed by the
    /// action's own effect key, with no application deadline.
    pub fn new(action: ProcessAction) -> (request: Self)
        ensures
            request.action == action,
            request.effect_key == action.spec_effect_key(),
            request.deadline is None,
    {
        let effect_key = action.effect_key();
        EffectDispatchRequestV1 { action, effect_key, deadline: None }
    }

    /// Attaches an inclusive logical execution/reconciliation deadline.
    pub fn with_deadline(self, deadline: LogicalTime) -> (request: Self)
        ensures
            request == (EffectDispatchRequestV1 { deadline: Some(deadline), ..self }),
    {
        EffectDispatchRequestV1 { deadline: Some(deadline), ..self }
    }

    /// Validates the action and its derived effect key, so that a caller
    /// cannot substitute either.
    pub fn validate(&self) -> (result: Result<(), EffectReconciliationValidationError>)
        ensures
            result == self.spec_validate(),
    {
        if self.action.validate().is_err() {
            return Err(EffectReconciliationValidationError::InvalidActionSchema);
        }
        if !(self.effect_key == self.action.effect_key()) {
            return Err(EffectReconciliationValidationError::EffectKeyMismatch);
        }
        Ok(())
    }

    /// Returns whether the request is past its inclusive logical deadline.
    pub fn is_expired_at(&self, now: LogicalTime) -> (expired: bool)
        ensures
            expired == self.spec_is_expired_at(now),
    {
        match self.deadline {
            Some(deadline) => now.0 > deadline.0,
            None => false,
        }
    }

    /// Validates the request and rejects execution after its deadline.
    pub fn validate_at(&self, now: LogicalTime) -> (result: Result<
        (),
        EffectReconciliationValidationError,
    >)
        ensures
            result == match self.spec_validate() {
                Err(e) => Err(e),
                Ok(_) => if self.spec_is_expired_at(now) {
                    Err(EffectReconciliationValidationError::DeadlineExceeded)
                } else {
                    Ok(())
                },
            },
    {
        match self.validate() {
            Err(e) => {
                return Err(e);
            },
            Ok(()) => {},
        }
        if self.is_expired_at(now) {
            Err(EffectReconciliationValidationError::DeadlineExceeded)
        } else {
            Ok(())
        }
    }
}

impl ExternalEffectEvidenceV1 {
    /// Validates that evidence belongs to the exact requested effect: a
    /// valid request, then the same action identity, then the same key.
    pub fn validate_for(&self, request: &EffectDispatchRequestV1) -> (result: Result<
        (),
        EffectReconciliationValidationError,
    >)
        ensures
            result == match request.spec_validate() {
                Err(e) => Err(e),
                Ok(_) => if self.action_id@ != request.action.action_id@ {
                    Err(EffectReconciliationValidationError::ActionMismatch)
                } else if self.effect_key@ != request.effect_key@ {
                    Err(EffectReconciliationValidationError::EffectKeyMismatch)
                } else {
                    Ok(())
                },
            },
    {
        match request.validate() {
            Err(e) => {
                return Err(e);
            },
            Ok(()) => {},
        }
        if !(self.action_id == request.action.action_id) {
            return Err(EffectReconciliationValidationError::ActionMismatch);
        }
        if !(self.effect_key == request.effect_key) {
            return Err(EffectReconciliationValidationError::EffectKeyMismatch);
        }
        Ok(())
    }
}

} // verus!
