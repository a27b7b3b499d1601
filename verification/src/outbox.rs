//! Port failures, redacted diagnostics, quotas, and the fenced outbox
//! delivery lifecycle: pending records, bounded claims, leases that expire at
//! an inclusive logical boundary, acknowledgement and renewal.

use vstd::prelude::*;

use crate::domain::{ProcessAction, ProcessScope};
use crate::ids::{ContentDigest, LogicalTime, PrincipalId};

verus! {

/// Maximum redelivery attempts represented by one outbox record.
pub const MAX_OUTBOX_DELIVERY_ATTEMPTS: u32 = 64;

/// Maximum records returned by one durable outbox claim.
pub const MAX_OUTBOX_CLAIM_BATCH: u16 = 128;

/// Maximum diagnostic metadata size accepted from an adapter.
pub const MAX_REDACTED_DIAGNOSTIC_BYTES: u32 = 4096;

/// Maximum configured quota capacity represented by one request.
pub const MAX_QUOTA_CAPACITY: u32 = 1_000_000;

/// A backend-independent port error.
#[derive(Debug, Clone, Copy, PartialEq, Eq, Structural)]
pub enum PortError {
    /// The adapter could not currently perform its durable operation.
    Unavailable,
    /// Optimistic concurrency rejected the expected durable process version.
    Conflict,
    /// The adapter denied the authenticated principal's requested operation.
    Unauthorized,
    /// A configured bounded resource or rate quota was exhausted.
    QuotaExceeded,
    /// The adapter could not complete the operation before its bounded deadline.
    TimedOut,
    /// The operation was durably cancelled before it could complete.
    Cancelled,
    /// The adapter cannot safely classify whether an external effect occurred.
    Ambiguous,
    /// The adapter rejected a versioned DTO or port invariant.
    Invariant,
}

/// Coarse, stable diagnostic class safe to expose without payload contents.
#[derive(Debug, Clone, Copy, PartialEq, Eq, Structural)]
pub enum DiagnosticClassV1 {
    /// Input or DTO validation failed.
    Validation,
    /// Authorization policy denied the operation.
    Authorization,
    /// Optimistic concurrency or deduplication conflict occurred.
    Conflict,
    /// The outer port was temporarily unavailable.
    Availability,
    /// A logical deadline or operation timeout was reached.
    Timeout,
    /// An external effect cannot yet be classified safely.
    Ambiguous,
    /// A caller or adapter violated a protocol invariant.
    Invariant,
}

/// The stable class of a port failure.
pub open spec fn spec_diagnostic_class(error: PortError) -> DiagnosticClassV1 {
    match error {
        PortError::Unavailable | PortError::Cancelled => DiagnosticClassV1::Availability,
        PortError::Conflict => DiagnosticClassV1::Conflict,
        PortError::Unauthorized => DiagnosticClassV1::Authorization,
        PortError::QuotaExceeded | PortError::Invariant => DiagnosticClassV1::Invariant,
        PortError::TimedOut => DiagnosticClassV1::Timeout,
        PortError::Ambiguous => DiagnosticClassV1::Ambiguous,
    }
}

impl DiagnosticClassV1 {
    /// Maps a port failure to a stable, non-sensitive class.
    pub fn from_port_error(error: PortError) -> (class: Self)
        ensures
            class == spec_diagnostic_class(error),
    {
        match error {
            PortError::Unavailable | PortError::Cancelled => DiagnosticClassV1::Availability,
            PortError::Conflict => DiagnosticClassV1::Conflict,
            PortError::Unauthorized => DiagnosticClassV1::Authorization,
            PortError::QuotaExceeded | PortError::Invariant => DiagnosticClassV1::Invariant,
            PortError::TimedOut => DiagnosticClassV1::Timeout,
            PortError::Ambiguous => DiagnosticClassV1::Ambiguous,
        }
    }
}

/// Stable resource class for bounded admission control.
#[derive(Debug, Clone, Copy, PartialEq, Eq, Structural)]
pub enum QuotaKindV1 {
    /// Number of concurrently open process instances.
    OpenProcesses,
    /// Number of outstanding actions.
    OutstandingActions,
    /// Number of delivery attempts in a bounded interval.
    DeliveryAttempts,
    /// Number of outcomes accepted in a bounded interval.
    OutcomeWrites,
}

/// Typed quota admission request; no resource names or free-form policy text.
#[derive(Debug, Clone, Copy, PartialEq, Eq, Structural)]
pub struct QuotaRequestV1 {
    /// Resource class being accounted.
    pub kind: QuotaKindV1,
    /// Units requested by the operation (positive).
    pub requested: u32,
    /// Maximum units permitted by the pinned policy (positive).
    pub capacity: u32,
}

/// Typed quota validation failure.
#[derive(Debug, Clone, Copy, PartialEq, Eq, Structural)]
pub enum QuotaValidationError {
    /// Configured capacity exceeds the global safety bound.
    CapacityLimitExceeded,
    /// Operation requests more units than the configured capacity.
    RequestExceedsCapacity,
}

impl QuotaRequestV1 {
    /// The admission outcome: the capacity within the global bound, then the
    /// request within the capacity.
    pub open spec fn spec_validate(self) -> Result<(), QuotaValidationError> {
        if self.capacity > MAX_QUOTA_CAPACITY {
            Err(QuotaValidationError::CapacityLimitExceeded)
        } else if self.requested > self.capacity {
            Err(QuotaValidationError::RequestExceedsCapacity)
        } else {
            Ok(())
        }
    }

    /// Creates and validates a bounded quota request from positive units.
    pub fn new(kind: QuotaKindV1, requested: u32, capacity: u32) -> (result: Result<
        Self,
        QuotaValidationError,
    >)
        requires
            requested > 0,
            capacity > 0,
        ensures
            match result {
                Ok(request) => request == (QuotaRequestV1 { kind, requested, capacity })
                    && request.spec_validate() is Ok,
                Err(e) => (QuotaRequestV1 { kind, requested, capacity }).spec_validate() == Err::<
                    (),
                    QuotaValidationError,
                >(e),
            },
    {
        let request = QuotaRequestV1 { kind, requested, capacity };
        match request.validate() {
            Ok(()) => Ok(request),
            Err(error) => Err(error),
        }
    }

    /// Validates the global capacity and per-operation admission bound.
    pub fn validate(self) -> (result: Result<(), QuotaValidationError>)
        ensures
            result == self.spec_validate(),
    {
        if self.capacity > MAX_QUOTA_CAPACITY {
            return Err(QuotaValidationError::CapacityLimitExceeded);
        }
        if self.requested > self.capacity {
            return Err(QuotaValidationError::RequestExceedsCapacity);
        }
        Ok(())
    }
}

/// Typed failure for constructing a bounded redacted diagnostic.
#[derive(Debug, Clone, Copy, PartialEq, Eq, Structural)]
pub enum DiagnosticValidationError {
    /// Adapter supplied an unbounded metadata-size claim.
    MetadataLimitExceeded,
}

/// Safe diagnostic metadata that deliberately contains no raw error message
/// or payload. `evidence_digest` refers to separately retained, access-
/// controlled evidence and is not itself a disclosure of that evidence.
#[derive(Debug, PartialEq, Eq)]
pub struct RedactedDiagnosticV1 {
    /// Pinned process scope associated with the diagnostic.
    pub scope: ProcessScope,
    /// Coarse stable classification.
    pub class: DiagnosticClassV1,
    /// Digest of access-controlled evidence, if any.
    pub evidence_digest: ContentDigest,
    /// Bounded byte count of redacted metadata retained out of band.
    pub metadata_bytes: u32,
}

impl RedactedDiagnosticV1 {
    /// Creates bounded diagnostic metadata without accepting a raw message.
    pub fn new(
        scope: ProcessScope,
        class: DiagnosticClassV1,
        evidence_digest: ContentDigest,
        metadata_bytes: u32,
    ) -> (result: Result<Self, DiagnosticValidationError>)
        ensures
            metadata_bytes > MAX_REDACTED_DIAGNOSTIC_BYTES ==> result == Err::<
                Self,
                DiagnosticValidationError,
            >(DiagnosticValidationError::MetadataLimitExceeded),
            metadata_bytes <= MAX_REDACTED_DIAGNOSTIC_BYTES ==> result == Ok::<
                Self,
                DiagnosticValidationError,
            >(RedactedDiagnosticV1 { scope, class, evidence_digest, metadata_bytes }),
    {
        if metadata_bytes > MAX_REDACTED_DIAGNOSTIC_BYTES {
            return Err(DiagnosticValidationError::MetadataLimitExceeded);
        }
        Ok(RedactedDiagnosticV1 { scope, class, evidence_digest, metadata_bytes })
    }
}

/// Opaque, non-zero fencing token assigned to one outbox or timer lease.
#[derive(Debug, Clone, Copy, PartialEq, Eq, Structural)]
pub struct OutboxLeaseTokenV1(u64);

impl OutboxLeaseTokenV1 {
    /// The token's value.
    pub closed spec fn value(self) -> u64 {
        self.0
    }

    /// A token is never zero.
    #[verifier::type_invariant]
    closed spec fn non_zero(self) -> bool {
        self.0 != 0
    }

    /// Creates a fencing token from a non-zero value.
    pub fn new(value: u64) -> (token: Self)
        requires
            value != 0,
        ensures
            token.value() == value,
    {
        OutboxLeaseTokenV1(value)
    }

    /// Returns the token's non-zero value.
    pub fn get(&self) -> (value: u64)
        ensures
            value == self.value(),
            value != 0,
    {
        proof {
            use_type_invariant(self);
        }
        self.0
    }
}

/// Durable acknowledgement state of an independently idempotent outbox item.
#[derive(Debug, Clone, Copy, PartialEq, Eq, Structural)]
pub enum OutboxAcknowledgementV1 {
    /// The action remains eligible for claiming or redelivery.
    Pending,
    /// The adapter recorded a successful dispatch acknowledgement.
    Acknowledged,
}

/// Versioned outbox record retained with the exact action and delivery attempt.
#[derive(Debug, PartialEq, Eq)]
pub struct OutboxRecordV1 {
    /// Independently idempotent action being delivered.
    pub action: ProcessAction,
    /// Monotonic delivery attempt number for this action.
    pub delivery_attempt: u32,
    /// Explicit durable acknowledgement state.
    pub acknowledgement: OutboxAcknowledgementV1,
}

impl Clone for OutboxRecordV1 {
    fn clone(&self) -> (copy: Self)
        ensures
            copy == *self,
    {
        OutboxRecordV1 {
            action: self.action.clone(),
            delivery_attempt: self.delivery_attempt,
            acknowledgement: self.acknowledgement,
        }
    }
}

impl OutboxRecordV1 {
    /// A record is valid while its delivery attempt is within the bound.
    pub open spec fn spec_validate(self) -> Result<(), PortError> {
        if self.delivery_attempt >= MAX_OUTBOX_DELIVERY_ATTEMPTS {
            Err(PortError::Invariant)
        } else {
            Ok(())
        }
    }

    /// Creates a pending outbox record at the first delivery attempt.
    pub fn new(action: ProcessAction) -> (record: Self)
        ensures
            record == (OutboxRecordV1 {
                action,
                delivery_attempt: 0,
                acknowledgement: OutboxAcknowledgementV1::Pending,
            }),
    {
        OutboxRecordV1 { action, delivery_attempt: 0, acknowledgement: OutboxAcknowledgementV1::Pending }
    }

    /// Validates the action and the bounded delivery attempt.
    pub fn validate(&self) -> (result: Result<(), PortError>)
        ensures
            result == self.spec_validate(),
    {
        if self.action.validate().is_err() || self.delivery_attempt >= MAX_OUTBOX_DELIVERY_ATTEMPTS {
            return Err(PortError::Invariant);
        }
        Ok(())
    }

    /// Returns an acknowledged copy; acknowledging an already acknowledged
    /// record is idempotent.
    pub fn acknowledge(self) -> (result: Result<Self, PortError>)
        ensures
            result == match self.spec_validate() {
                Err(e) => Err(e),
                Ok(_) => Ok(
                    OutboxRecordV1 { acknowledgement: OutboxAcknowledgementV1::Acknowledged, ..self },
                ),
            },
    {
        match self.validate() {
            Err(e) => {
                return Err(e);
            },
            Ok(()) => {},
        }
        Ok(OutboxRecordV1 { acknowledgement: OutboxAcknowledgementV1::Acknowledged, ..self })
    }

    /// Advances one pending record to its next bounded delivery attempt.
    pub fn next_delivery_attempt(self) -> (result: Result<Self, PortError>)
        ensures
            result == if self.spec_validate() is Err || self.acknowledgement
                != OutboxAcknowledgementV1::Pending || self.delivery_attempt + 1
                >= MAX_OUTBOX_DELIVERY_ATTEMPTS {
                Err(PortError::Invariant)
            } else {
                Ok(OutboxRecordV1 { delivery_attempt: (self.delivery_attempt + 1) as u32, ..self })
            },
    {
        match self.validate() {
            Err(e) => {
                return Err(e);
            },
            Ok(()) => {},
        }
        if self.acknowledgement != OutboxAcknowledgementV1::Pending
            || self.delivery_attempt.saturating_add(1) >= MAX_OUTBOX_DELIVERY_ATTEMPTS {
            return Err(PortError::Invariant);
        }
        let delivery_attempt = self.delivery_attempt.saturating_add(1);
        Ok(OutboxRecordV1 { delivery_attempt, ..self })
    }
}

/// Bounded, scope-pinned request for claiming pending outbox records.
#[derive(Debug, PartialEq, Eq)]
pub struct OutboxClaimRequestV1 {
    /// Process scope whose records may be claimed.
    pub scope: ProcessScope,
    /// Authenticated worker that will own returned leases.
    pub owner: PrincipalId,
    /// Maximum records to return (positive).
    pub limit: u16,
}

impl OutboxClaimRequestV1 {
    /// A claim is valid while its batch is within the claim bound.
    pub open spec fn spec_validate(self) -> Result<(), PortError> {
        if self.limit > MAX_OUTBOX_CLAIM_BATCH {
            Err(PortError::QuotaExceeded)
        } else {
            Ok(())
        }
    }

    /// Creates a bounded outbox claim request for a positive batch size.
    pub fn new(scope: ProcessScope, owner: PrincipalId, limit: u16) -> (result: Result<
        Self,
        PortError,
    >)
        requires
            limit > 0,
        ensures
            limit > MAX_OUTBOX_CLAIM_BATCH ==> result == Err::<Self, PortError>(
                PortError::QuotaExceeded,
            ),
            limit <= MAX_OUTBOX_CLAIM_BATCH ==> result == Ok::<Self, PortError>(
                OutboxClaimRequestV1 { scope, owner, limit },
            ),
    {
        let request = OutboxClaimRequestV1 { scope, owner, limit };
        match request.validate() {
            Err(e) => Err(e),
            Ok(()) => Ok(request),
        }
    }

    /// Validates the claim batch bound.
    pub fn validate(&self) -> (result: Result<(), PortError>)
        ensures
            result == self.spec_validate(),
    {
        if self.limit > MAX_OUTBOX_CLAIM_BATCH {
            Err(PortError::QuotaExceeded)
        } else {
            Ok(())
        }
    }
}

/// One claimed outbox record and its fencing lease.
#[derive(Debug, PartialEq, Eq)]
pub struct OutboxLeaseV1 {
    /// Claimed action and delivery state.
    pub record: OutboxRecordV1,
    /// Principal/worker that owns the lease.
    pub owner: PrincipalId,
    /// Opaque token used to fence stale acknowledgements.
    pub token: OutboxLeaseTokenV1,
    /// Inclusive logical lease expiry supplied by the adapter.
    pub lease_expires_at: LogicalTime,
}

impl Clone for OutboxLeaseV1 {
    fn clone(&self) -> (copy: Self)
        ensures
            copy == *self,
    {
        OutboxLeaseV1 {
            record: self.record.clone(),
            owner: self.owner.clone(),
            token: self.token,
            lease_expires_at: self.lease_expires_at,
        }
    }
}

impl OutboxLeaseV1 {
    /// Whether the lease has expired at `now`: expiry is inclusive, so a
    /// lease is still valid at its expiry time.
    pub open spec fn spec_is_expired_at(self, now: LogicalTime) -> bool {
        now.0 > self.lease_expires_at.0
    }

    /// The outcome of holding this lease to a claim request: the request's
    /// bound, the record, the action's complete scope, then the owner.
    pub open spec fn spec_validate_for_claim(self, request: OutboxClaimRequestV1) -> Result<
        (),
        PortError,
    > {
        if request.spec_validate() is Err {
            Err(PortError::QuotaExceeded)
        } else if self.record.spec_validate() is Err {
            Err(PortError::Invariant)
        } else if self.record.action.scope_view() != request.scope@ {
            Err(PortError::Invariant)
        } else if self.owner@ != request.owner@ {
            Err(PortError::Invariant)
        } else {
            Ok(())
        }
    }

    /// The outcome of using this lease at `now`: a valid record, then an
    /// unexpired lease.
    pub open spec fn spec_validate_at(self, now: LogicalTime) -> Result<(), PortError> {
        if self.record.spec_validate() is Err {
            Err(PortError::Invariant)
        } else if self.spec_is_expired_at(now) {
            Err(PortError::TimedOut)
        } else {
            Ok(())
        }
    }

    /// Validates the claimed record and lease identity.
    pub fn validate(&self) -> (result: Result<(), PortError>)
        ensures
            result == self.record.spec_validate(),
    {
        self.record.validate()
    }

    /// Validates that this lease is for the exact requested process scope
    /// and owner.
    pub fn validate_for_claim(&self, request: &OutboxClaimRequestV1) -> (result: Result<
        (),
        PortError,
    >)
        ensures
            result == self.spec_validate_for_claim(*request),
    {
        match request.validate() {
            Err(e) => {
                return Err(e);
            },
            Ok(()) => {},
        }
        match self.validate() {
            Err(e) => {
                return Err(e);
            },
            Ok(()) => {},
        }
        let action = &self.record.action;
        if !(action.tenant_id == request.scope.tenant_id) || !(action.process_id
            == request.scope.process_id) || !(action.definition_id == request.scope.definition_id)
            || !(action.definition_version == request.scope.definition_version) || !(
        action.definition_digest == request.scope.definition_digest) {
            return Err(PortError::Invariant);
        }
        if !(self.owner == request.owner) {
            return Err(PortError::Invariant);
        }
        Ok(())
    }

    /// Validates scope, owner, record invariants, and lease expiry together.
    pub fn validate_for_claim_at(&self, request: &OutboxClaimRequestV1, now: LogicalTime) -> (result:
        Result<(), PortError>)
        ensures
            result == match self.spec_validate_for_claim(*request) {
                Err(e) => Err(e),
                Ok(_) => self.spec_validate_at(now),
            },
    {
        match self.validate_for_claim(request) {
            Err(e) => {
                return Err(e);
            },
            Ok(()) => {},
        }
        self.validate_at(now)
    }

    /// Returns whether this lease is expired at the supplied logical time.
    pub fn is_expired_at(&self, now: LogicalTime) -> (expired: bool)
        ensures
            expired == self.spec_is_expired_at(now),
    {
        now.0 > self.lease_expires_at.0
    }

    /// Validates the lease and rejects acknowledgement after expiry.
    pub fn validate_at(&self, now: LogicalTime) -> (result: Result<(), PortError>)
        ensures
            result == self.spec_validate_at(now),
    {
        match self.validate() {
            Err(e) => {
                return Err(e);
            },
            Ok(()) => {},
        }
        if self.is_expired_at(now) {
            Err(PortError::TimedOut)
        } else {
            Ok(())
        }
    }

    /// Produces an acknowledged record only while this lease is valid.
    pub fn acknowledge_at(&self, now: LogicalTime) -> (result: Result<OutboxRecordV1, PortError>)
        ensures
            result == match self.spec_validate_at(now) {
                Err(e) => Err(e),
                Ok(_) => Ok(
                    OutboxRecordV1 {
                        acknowledgement: OutboxAcknowledgementV1::Acknowledged,
                        ..self.record
                    },
                ),
            },
    {
        match self.validate_at(now) {
            Err(e) => {
                return Err(e);
            },
            Ok(()) => {},
        }
        self.record.clone().acknowledge()
    }

    /// Produces a renewed lease only before expiry, only for a pending
    /// record, and only with a strictly later expiry.
    pub fn renew_at(&self, now: LogicalTime, new_expiry: LogicalTime) -> (result: Result<
        Self,
        PortError,
    >)
        ensures
            result == match self.spec_validate_at(now) {
                Err(e) => Err(e),
                Ok(_) => if self.record.acknowledgement != OutboxAcknowledgementV1::Pending
                    || new_expiry.0 <= self.lease_expires_at.0 {
                    Err(PortError::Invariant)
                } else {
                    Ok(OutboxLeaseV1 { lease_expires_at: new_expiry, ..*self })
                },
            },
    {
        match self.validate_at(now) {
            Err(e) => {
                return Err(e);
            },
            Ok(()) => {},
        }
        if self.record.acknowledgement != OutboxAcknowledgementV1::Pending || new_expiry.0
            <= self.lease_expires_at.0 {
            return Err(PortError::Invariant);
        }
        let renewed = self.clone();
        Ok(OutboxLeaseV1 { lease_expires_at: new_expiry, ..renewed })
    }
}

} // verus!
