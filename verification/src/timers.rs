//! Durable retry-timer records, bounded due-timer claims, and fenced
//! timer leases that expire at an inclusive logical boundary.

use vstd::prelude::*;

use crate::domain::{ProcessAction, ProcessActionKind, ProcessScope};
use crate::ids::{LogicalTime, PrincipalId};
use crate::outbox::{OutboxLeaseTokenV1, PortError};

verus! {

/// Due-time record for one durable timer action.
#[derive(Debug, PartialEq, Eq)]
pub struct TimerScheduleV1 {
    /// Independently idempotent timer action to deliver through the inbox.
    pub action: ProcessAction,
    /// Deterministic due time supplied by the application layer.
    pub due_at: LogicalTime,
}

impl Clone for TimerScheduleV1 {
    fn clone(&self) -> (copy: Self)
        ensures
            copy == *self,
    {
        TimerScheduleV1 { action: self.action.clone(), due_at: self.due_at }
    }
}

/// Maximum due timers returned by one worker claim.
pub const MAX_TIMER_CLAIM_BATCH: u16 = 128;

/// Typed validation failure for a durable retry-timer record.
#[derive(Debug, Clone, Copy, PartialEq, Eq, Structural)]
pub enum TimerValidationError {
    /// The timer action is malformed.
    InvalidActionSchema,
    /// A non-timer action was supplied to a timer scheduler boundary.
    InvalidActionKind,
}

impl TimerScheduleV1 {
    /// A timer record is valid when it retains a timer action.
    pub open spec fn spec_validate(self) -> Result<(), TimerValidationError> {
        if self.action.kind != ProcessActionKind::Timer {
            Err(TimerValidationError::InvalidActionKind)
        } else {
            Ok(())
        }
    }

    /// Validates that this record retains a full, typed timer action scope.
    pub fn validate(&self) -> (result: Result<(), TimerValidationError>)
        ensures
            result == self.spec_validate(),
    {
        if self.action.validate().is_err() {
            return Err(TimerValidationError::InvalidActionSchema);
        }
        if self.action.kind != ProcessActionKind::Timer {
            return Err(TimerValidationError::InvalidActionKind);
        }
        Ok(())
    }
}

/// Bounded request for atomically claiming due timers for one process.
#[derive(Debug, PartialEq, Eq)]
pub struct TimerClaimRequestV1 {
    /// Process scope whose timers may be claimed.
    pub scope: ProcessScope,
    /// Authenticated worker receiving the fencing leases.
    pub owner: PrincipalId,
    /// Logical time used to determine due timers.
    pub now: LogicalTime,
    /// Maximum timers to claim (positive).
    pub limit: u16,
}

impl TimerClaimRequestV1 {
    /// A claim is valid while its batch is within the claim bound.
    pub open spec fn spec_validate(self) -> Result<(), PortError> {
        if self.limit > MAX_TIMER_CLAIM_BATCH {
            Err(PortError::QuotaExceeded)
        } else {
            Ok(())
        }
    }

    /// Creates a bounded timer-claim request for a positive batch size.
    pub fn new(scope: ProcessScope, owner: PrincipalId, now: LogicalTime, limit: u16) -> (result:
        Result<Self, PortError>)
        requires
            limit > 0,
        ensures
            limit > MAX_TIMER_CLAIM_BATCH ==> result == Err::<Self, PortError>(
                PortError::QuotaExceeded,
            ),
            limit <= MAX_TIMER_CLAIM_BATCH ==> result == Ok::<Self, PortError>(
                TimerClaimRequestV1 { scope, owner, now, limit },
            ),
    {
        let request = TimerClaimRequestV1 { scope, owner, now, limit };
        match request.validate() {
            Err(e) => Err(e),
            Ok(()) => Ok(request),
        }
    }

    /// Validates the bounded claim size.
    pub fn validate(&self) -> (result: Result<(), PortError>)
        ensures
            result == self.spec_validate(),
    {
        if self.limit > MAX_TIMER_CLAIM_BATCH {
            Err(PortError::QuotaExceeded)
        } else {
            Ok(())
        }
    }
}

/// Fenced lease for one due timer delivery.
#[derive(Debug, PartialEq, Eq)]
pub struct TimerLeaseV1 {
    /// Full timer schedule retained under the lease.
    pub timer: TimerScheduleV1,
    /// Worker that owns this lease.
    pub owner: PrincipalId,
    /// Opaque fencing token preventing stale acknowledgements.
    pub token: OutboxLeaseTokenV1,
    /// Inclusive logical expiry of the claim.
    pub lease_expires_at: LogicalTime,
}

impl TimerLeaseV1 {
    /// The outcome of holding this lease to a claim request: the request's
    /// bound, a timer action, the request's scope and owner, a timer due by
    /// the request's time, and a lease still valid at that time.
    pub open spec fn spec_validate_for_claim(self, request: TimerClaimRequestV1) -> Result<
        (),
        PortError,
    > {
        if request.spec_validate() is Err {
            Err(PortError::QuotaExceeded)
        } else if self.timer.spec_validate() is Err {
            Err(PortError::Invariant)
        } else if self.timer.action.scope_view() != request.scope@ || self.owner@
            != request.owner@ || self.timer.due_at.0 > request.now.0 {
            Err(PortError::Invariant)
        } else if request.now.0 > self.lease_expires_at.0 {
            Err(PortError::TimedOut)
        } else {
            Ok(())
        }
    }

    /// The outcome of using this lease at `now`: a timer action, then an
    /// unexpired lease (expiry is inclusive).
    pub open spec fn spec_validate_at(self, now: LogicalTime) -> Result<(), PortError> {
        if self.timer.spec_validate() is Err {
            Err(PortError::Invariant)
        } else if now.0 > self.lease_expires_at.0 {
            Err(PortError::TimedOut)
        } else {
            Ok(())
        }
    }

    /// Validates timer shape, process scope, owner and due-time claim.
    pub fn validate_for_claim(&self, request: &TimerClaimRequestV1) -> (result: Result<
        (),
        PortError,
    >)
        ensures
            result == self.spec_validate_for_claim(*request),
    {
        match request.validate() {
            Err(e) => {
                return Err(e);
            },
            Ok(()) => {},
        }
        if self.timer.validate().is_err() {
            return Err(PortError::Invariant);
        }
        if !(self.timer.action.scope() == request.scope) || !(self.owner == request.owner)
            || self.timer.due_at.0 > request.now.0 {
            return Err(PortError::Invariant);
        }
        if request.now.0 > self.lease_expires_at.0 {
            return Err(PortError::TimedOut);
        }
        Ok(())
    }

    /// Validates lease expiry at a logical boundary.
    pub fn validate_at(&self, now: LogicalTime) -> (result: Result<(), PortError>)
        ensures
            result == self.spec_validate_at(now),
    {
        if self.timer.validate().is_err() {
            return Err(PortError::Invariant);
        }
        if now.0 > self.lease_expires_at.0 {
            Err(PortError::TimedOut)
        } else {
            Ok(())
        }
    }

    /// Produces the acknowledged timer schedule only while the lease is valid.
    pub fn acknowledge_at(&self, now: LogicalTime) -> (result: Result<TimerScheduleV1, PortError>)
        ensures
            result == match self.spec_validate_at(now) {
                Err(e) => Err(e),
                Ok(_) => Ok(self.timer),
            },
    {
        match self.validate_at(now) {
            Err(e) => {
                return Err(e);
            },
            Ok(()) => {},
        }
        Ok(self.timer.clone())
    }
}

} // verus!
