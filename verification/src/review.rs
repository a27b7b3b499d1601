//! Manual-review cases, operator control, and fail-closed authorization of
//! mutable process operations.

use vstd::prelude::*;

use crate::domain::{ManualReview, ProcessScope};
use crate::ids::{ContentDigest, LogicalTime, PrincipalId, ReviewId};
use crate::outbox::PortError;

verus! {

/// Typed resolution selected by an authorized manual-review operator.
#[derive(Debug, Clone, Copy, PartialEq, Eq, Structural)]
pub enum ManualReviewResolutionV1 {
    /// Authorize a retry only after durable evidence establishes it is safe.
    RetryAction,
    /// Authorize a compensating action under the pinned process definition.
    Compensate,
    /// Cancel the process without further automatic effects.
    Cancel,
    /// Keep the process escalated for a higher-authority decision.
    Escalate,
}

/// Required operator separation for one immutable manual-review decision.
#[derive(Debug, Clone, Copy, PartialEq, Eq, Structural)]
pub enum ManualReviewControlV1 {
    /// One authorized operator may claim and decide the review.
    SingleOperator,
    /// The deciding principal must differ from the principal that claimed it.
    DistinctDecider,
}

/// Typed validation failure for one immutable manual-review operation.
#[derive(Debug, Clone, Copy, PartialEq, Eq, Structural)]
pub enum ManualReviewValidationError {
    /// The supplied review record is malformed.
    InvalidReviewSchema,
    /// A claim or decision does not target the review's pinned process scope.
    ScopeMismatch,
    /// A claim or decision names another review case.
    ReviewIdMismatch,
    /// A dual-control decision was made by the same principal that claimed it.
    DualControlViolation,
    /// A claim or decision occurred after the review's immutable deadline.
    Expired,
}

/// Idempotent claim request for a manual-review case.
#[derive(Debug, PartialEq, Eq)]
pub struct ManualReviewClaimV1 {
    /// Immutable process and definition scope of the review being claimed.
    pub scope: ProcessScope,
    /// The immutable review case being claimed.
    pub review_id: ReviewId,
    /// Validated identity of the claiming principal.
    pub claimed_by: PrincipalId,
    /// Logical time at which the durable claim was recorded.
    pub claimed_at: LogicalTime,
}

/// Immutable, attributable manual-review resolution request.
#[derive(Debug, PartialEq, Eq)]
pub struct ManualReviewDecisionV1 {
    /// Immutable process and definition scope of the review being decided.
    pub scope: ProcessScope,
    /// The immutable review case being decided.
    pub review_id: ReviewId,
    /// Principal that holds the durable claim being resolved.
    pub claimed_by: PrincipalId,
    /// Validated identity of the authorized deciding principal.
    pub decided_by: PrincipalId,
    /// Logical time at which the durable decision was recorded.
    pub decided_at: LogicalTime,
    /// Typed process-safe resolution selected by the operator.
    pub resolution: ManualReviewResolutionV1,
    /// Required separation between the claim and decision principals.
    pub control: ManualReviewControlV1,
    /// Digest of the redacted evidence and authorization record.
    pub evidence_digest: ContentDigest,
}

/// Whether an operation at `at` falls after the review's inclusive deadline.
pub open spec fn review_expired_at(review: ManualReview, at: LogicalTime) -> bool {
    match review.expires_at {
        Some(expires_at) => at.0 > expires_at.0,
        None => false,
    }
}

fn expired_at(expires_at: Option<LogicalTime>, at: LogicalTime) -> (expired: bool)
    ensures
        expired == match expires_at {
            Some(e) => at.0 > e.0,
            None => false,
        },
{
    match expires_at {
        Some(e) => at.0 > e.0,
        None => false,
    }
}

impl ManualReviewClaimV1 {
    /// The outcome of holding a claim to its review: the same case, the
    /// review's complete scope, and no later than the review's deadline.
    pub open spec fn spec_validate_for(self, review: ManualReview) -> Result<
        (),
        ManualReviewValidationError,
    > {
        if self.review_id@ != review.review_id@ {
            Err(ManualReviewValidationError::ReviewIdMismatch)
        } else if self.scope@ != review.scope_view() {
            Err(ManualReviewValidationError::ScopeMismatch)
        } else if review_expired_at(review, self.claimed_at) {
            Err(ManualReviewValidationError::Expired)
        } else {
            Ok(())
        }
    }

    /// Validates that this claim is bound to the immutable review it targets.
    pub fn validate_for(&self, review: &ManualReview) -> (result: Result<
        (),
        ManualReviewValidationError,
    >)
        ensures
            result == self.spec_validate_for(*review),
    {
        if review.validate().is_err() {
            return Err(ManualReviewValidationError::InvalidReviewSchema);
        }
        if !(self.review_id == review.review_id) {
            return Err(ManualReviewValidationError::ReviewIdMismatch);
        }
        if !(self.scope == review.scope()) {
            return Err(ManualReviewValidationError::ScopeMismatch);
        }
        if expired_at(review.expires_at, self.claimed_at) {
            return Err(ManualReviewValidationError::Expired);
        }
        Ok(())
    }
}

impl ManualReviewDecisionV1 {
    /// The outcome of holding a decision to its review: the same case, the
    /// review's complete scope, no later than the review's deadline, and a
    /// decider distinct from the claimant where dual control is declared.
    pub open spec fn spec_validate_for(self, review: ManualReview) -> Result<
        (),
        ManualReviewValidationError,
    > {
        if self.review_id@ != review.review_id@ {
            Err(ManualReviewValidationError::ReviewIdMismatch)
        } else if self.scope@ != review.scope_view() {
            Err(ManualReviewValidationError::ScopeMismatch)
        } else if review_expired_at(review, self.decided_at) {
            Err(ManualReviewValidationError::Expired)
        } else if self.control == ManualReviewControlV1::DistinctDecider && self.claimed_by@
            == self.decided_by@ {
            Err(ManualReviewValidationError::DualControlViolation)
        } else {
            Ok(())
        }
    }

    /// Validates review binding and any declared dual-control requirement.
    pub fn validate_for(&self, review: &ManualReview) -> (result: Result<
        (),
        ManualReviewValidationError,
    >)
        ensures
            result == self.spec_validate_for(*review),
    {
        if review.validate().is_err() {
            return Err(ManualReviewValidationError::InvalidReviewSchema);
        }
        if !(self.review_id == review.review_id) {
            return Err(ManualReviewValidationError::ReviewIdMismatch);
        }
        if !(self.scope == review.scope()) {
            return Err(ManualReviewValidationError::ScopeMismatch);
        }
        if expired_at(review.expires_at, self.decided_at) {
            return Err(ManualReviewValidationError::Expired);
        }
        if self.control == ManualReviewControlV1::DistinctDecider && self.claimed_by
            == self.decided_by {
            return Err(ManualReviewValidationError::DualControlViolation);
        }
        Ok(())
    }
}

/// A process operation requiring a caller-specific authorization decision.
#[derive(Debug, Clone, Copy, PartialEq, Eq, Structural)]
pub enum ProcessAuthorizationOperationV1 {
    /// Start a new process instance.
    Start,
    /// Request process cancellation.
    Cancel,
    /// Request an explicit retry.
    Retry,
    /// Submit a manual-review decision.
    DecideReview,
    /// Submit an explicit terminal override after review and evidence.
    TerminalOverride,
}

/// Minimum control required before a mutable process operation can proceed.
#[derive(Debug, Clone, Copy, PartialEq, Eq, Structural)]
pub enum AuthorizationRequirementV1 {
    /// One authenticated principal may authorize the operation.
    AuthenticatedPrincipal,
    /// Two distinct authenticated principals are required.
    DistinctPrincipals,
}

/// The minimum control of an operation: starting, cancelling and retrying
/// need one authenticated principal; deciding a review and overriding a
/// terminal state need two distinct principals.
pub open spec fn spec_minimum_requirement(
    operation: ProcessAuthorizationOperationV1,
) -> AuthorizationRequirementV1 {
    match operation {
        ProcessAuthorizationOperationV1::Start
        | ProcessAuthorizationOperationV1::Cancel
        | ProcessAuthorizationOperationV1::Retry => AuthorizationRequirementV1::AuthenticatedPrincipal,
        ProcessAuthorizationOperationV1::DecideReview
        | ProcessAuthorizationOperationV1::TerminalOverride => AuthorizationRequirementV1::DistinctPrincipals,
    }
}

impl ProcessAuthorizationOperationV1 {
    /// Returns the minimum control level for this high-value operation.
    pub fn minimum_requirement(self) -> (requirement: AuthorizationRequirementV1)
        ensures
            requirement == spec_minimum_requirement(self),
    {
        match self {
            ProcessAuthorizationOperationV1::Start
            | ProcessAuthorizationOperationV1::Cancel
            | ProcessAuthorizationOperationV1::Retry => AuthorizationRequirementV1::AuthenticatedPrincipal,
            ProcessAuthorizationOperationV1::DecideReview
            | ProcessAuthorizationOperationV1::TerminalOverride => AuthorizationRequirementV1::DistinctPrincipals,
        }
    }
}

/// Typed authorization request for one process operation.
#[derive(Debug, PartialEq, Eq)]
pub struct ProcessAuthorizationRequestV1 {
    /// Immutable process and definition scope targeted by the operation.
    pub scope: ProcessScope,
    /// Authenticated caller identity.
    pub principal_id: PrincipalId,
    /// Typed requested operation.
    pub operation: ProcessAuthorizationOperationV1,
}

/// Fail-closed authorization result returned by an outer policy adapter.
#[derive(Debug, Clone, Copy, PartialEq, Eq, Structural)]
pub enum ProcessAuthorizationDecisionV1 {
    /// The caller is authorized for the requested operation.
    Authorized,
    /// The caller is not authorized; no process mutation may occur.
    Denied,
}

impl ProcessAuthorizationDecisionV1 {
    /// Returns whether the requested operation may proceed.
    pub fn is_authorized(self) -> (authorized: bool)
        ensures
            authorized == (self == ProcessAuthorizationDecisionV1::Authorized),
    {
        match self {
            ProcessAuthorizationDecisionV1::Authorized => true,
            ProcessAuthorizationDecisionV1::Denied => false,
        }
    }

    /// Converts this decision into a fail-closed port result.
    pub fn require_authorized(self) -> (result: Result<(), PortError>)
        ensures
            result == match self {
                ProcessAuthorizationDecisionV1::Authorized => Ok::<(), PortError>(()),
                ProcessAuthorizationDecisionV1::Denied => Err(PortError::Unauthorized),
            },
    {
        match self {
            ProcessAuthorizationDecisionV1::Authorized => Ok(()),
            ProcessAuthorizationDecisionV1::Denied => Err(PortError::Unauthorized),
        }
    }
}

} // verus!
