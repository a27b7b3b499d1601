//! Validated domain records shared by the engines and the ports.

use vstd::prelude::*;

use crate::digest::sha256_of;
use crate::ids::{
    encode_identifier, identifier_encoding, lemma_be_u32_injective,
    lemma_identifier_encoding_unambiguous, lemma_split_at_equal_lengths, push_all, push_be_u32,
    be_u32, ActionId, CanonicalCommitId,
    CanonicalEventId, ContentDigest, DefinitionId, DefinitionVersion, InputId, LogicalTime,
    MigrationId, OperationId, OutcomeId, PrincipalId, ProcessId, ResourceId, ReviewId, StepId,
    TenantId,
};

verus! {

/// Maximum steps in one immutable process definition.
pub const MAX_DEFINITION_STEPS: usize = 128;

/// Maximum total action attempts allowed for one declared step.
pub const MAX_ACTION_ATTEMPTS_PER_STEP: u32 = 64;

/// Maximum resources a single canonical command or event may scope.
pub const MAX_CANONICAL_RESOURCE_IDS: usize = 64;

/// The views of a sequence of values, element by element.
pub open spec fn views<T: View>(s: Seq<T>) -> Seq<T::V> {
    s.map_values(|x: T| x@)
}

/// Two sequences have equal views exactly when they agree element by element.
pub proof fn lemma_views_equal<T: View>(a: Seq<T>, b: Seq<T>)
    ensures
        (views(a) == views(b)) <==> (a.len() == b.len() && forall|i: int|
            0 <= i < a.len() ==> #[trigger] a[i]@ == b[i]@),
{
    assert(views(a).len() == a.len());
    assert(views(b).len() == b.len());
    if views(a) == views(b) {
        assert forall|i: int| 0 <= i < a.len() implies #[trigger] a[i]@ == b[i]@ by {
            assert(views(a)[i] == a[i]@);
            assert(views(b)[i] == b[i]@);
        }
    }
    if a.len() == b.len() && forall|i: int| 0 <= i < a.len() ==> #[trigger] a[i]@ == b[i]@ {
        assert(views(a) =~= views(b));
    }
}

/// Whether two positions of `s` hold the same value (compared by view).
pub open spec fn has_duplicate_views<T: View>(s: Seq<T>) -> bool {
    exists|i: int, j: int| 0 <= i < j < s.len() && #[trigger] s[i]@ == #[trigger] s[j]@
}

/// The view of an optional value.
pub open spec fn opt_view<T: View>(o: Option<T>) -> Option<T::V> {
    match o {
        Some(x) => Some(x@),
        None => None,
    }
}

/// Domain validation failure.
#[derive(Debug, Clone, Copy, PartialEq, Eq, Structural)]
pub enum DomainError {
    /// A tenant identifier did not have its required canonical form.
    InvalidTenantId,
    /// A process identifier did not have its required canonical form.
    InvalidProcessId,
    /// A definition identifier did not have its required canonical form.
    InvalidDefinitionId,
    /// A definition-version identifier did not have its required canonical form.
    InvalidDefinitionVersion,
    /// A step identifier did not have its required canonical form.
    InvalidStepId,
    /// An input identifier did not have its required canonical form.
    InvalidInputId,
    /// An outcome identifier did not have its required canonical form.
    InvalidOutcomeId,
    /// An action identifier did not have its required canonical form.
    InvalidActionId,
    /// A review identifier did not have its required canonical form.
    InvalidReviewId,
    /// A principal identifier did not have its required canonical form.
    InvalidPrincipalId,
    /// A canonical-event identifier did not have its required canonical form.
    InvalidCanonicalEventId,
    /// A canonical-commit identifier did not have its required canonical form.
    InvalidCanonicalCommitId,
    /// A resource identifier did not have its required canonical form.
    InvalidResourceId,
    /// An operation identifier did not have its required canonical form.
    InvalidOperationId,
    /// An external-effect reference did not have its required canonical form.
    InvalidExternalReferenceId,
    /// A migration identifier did not have its required canonical form.
    InvalidMigrationId,
    /// A process definition has no executable steps.
    EmptyDefinitionSteps,
    /// A process definition exceeds the bounded step limit.
    DefinitionStepLimitExceeded,
    /// A process definition declares the same step identity more than once.
    DuplicateStepId,
    /// A canonical operation scope exceeds the bounded resource limit.
    CanonicalResourceLimitExceeded,
    /// A canonical operation scope contains the same resource more than once.
    DuplicateCanonicalResourceId,
    /// An outcome does not belong to the requested process scope.
    OutcomeScopeMismatch,
}

/// Result of comparing a candidate definition with an already pinned one.
#[derive(Debug, Clone, Copy, PartialEq, Eq, Structural)]
pub enum DefinitionCompatibility {
    /// The candidate is equivalent under the pinned identity.
    Exact,
    /// The candidate keeps the definition identity but changes semantics and
    /// therefore requires an explicit migration before it can run.
    RequiresMigration,
    /// The candidate cannot be used for the pinned process at all.
    Incompatible,
}

/// Typed failure when a definition is not safe to use for a pinned process.
#[derive(Debug, Clone, Copy, PartialEq, Eq, Structural)]
pub enum DefinitionCompatibilityError {
    /// Definition identity or version changed.
    IdentityMismatch,
    /// Definition content changed without an explicit migration.
    RequiresMigration,
    /// The stored digest does not match the canonical definition bytes.
    DigestMismatch,
}

/// Typed failure for registering a definition migration.
#[derive(Debug, Clone, Copy, PartialEq, Eq, Structural)]
pub enum DefinitionMigrationError {
    /// A migration cannot change the immutable definition identity.
    IdentityMismatch,
    /// A migration must change version or semantics.
    NoOp,
    /// The destination definition failed its own bound validation.
    InvalidDestination,
    /// The pinned source definition failed bound validation.
    InvalidSource,
}

/// Typed failure for canonical wire encoding.
#[derive(Debug, Clone, Copy, PartialEq, Eq, Structural)]
pub enum CanonicalEncodingError {
    /// The serializer could not encode the value.
    Serialization,
}

/// Typed process input category.
#[derive(Debug, Clone, Copy, PartialEq, Eq, Structural)]
pub enum ProcessInputKind {
    /// A verified committed canonical event.
    CanonicalEvent,
    /// A durable timer firing.
    TimerFired,
    /// An authorized manual-review decision.
    ManualResolution,
}

/// Typed append-only process outcome category.
#[derive(Debug, Clone, Copy, PartialEq, Eq, Structural)]
pub enum ProcessOutcomeKind {
    /// Process creation was recorded.
    Started,
    /// An input was durably accepted.
    InputAccepted,
    /// An action was planned.
    ActionPlanned,
    /// An action attempt started.
    ActionAttempted,
    /// A command committed canonically.
    CommandCommitted,
    /// An action completed successfully without asserting a canonical commit.
    ActionSucceeded,
    /// An action has a known terminal failure.
    ActionFailed,
    /// An action result is ambiguous and therefore cannot be retried blindly.
    ActionOutcomeUnknown,
    /// A retry was planned.
    RetryScheduled,
    /// A durable retry timer firing was accepted.
    TimerFired,
    /// A compensation action was planned.
    CompensationPlanned,
    /// Manual review was opened.
    ReviewOpened,
    /// An authorized manual-review decision was accepted.
    ManualResolutionApplied,
    /// Process completion was recorded.
    Completed,
    /// Process cancellation was recorded.
    Cancelled,
    /// All required compensations completed successfully.
    Compensated,
    /// Process escalation was recorded.
    Escalated,
}

/// Typed durable action category.
#[derive(Debug, Clone, Copy, PartialEq, Eq, Structural)]
pub enum ProcessActionKind {
    /// An idempotent canonical-state command.
    CanonicalCommand,
    /// A timer schedule/cancel operation.
    Timer,
    /// An external effect requiring reconciliation.
    ExternalEffect,
    /// A manual-review escalation.
    ManualReview,
}

/// Typed causal identity of an outcome.
#[derive(Debug, PartialEq, Eq)]
pub enum CausationId {
    /// The outcome was caused by an accepted input.
    Input(InputId),
    /// The outcome was caused by an action.
    Action(ActionId),
}

impl Clone for CausationId {
    fn clone(&self) -> (copy: Self)
        ensures
            copy == *self,
    {
        match self {
            CausationId::Input(id) => CausationId::Input(id.clone()),
            CausationId::Action(id) => CausationId::Action(id.clone()),
        }
    }
}

/// Attributable source that recorded one immutable process outcome.
#[derive(Debug, PartialEq, Eq)]
pub enum OutcomeActor {
    /// The deterministic process runtime recorded the outcome.
    System,
    /// An authenticated principal recorded an authorized outcome.
    Principal(PrincipalId),
}

impl Clone for OutcomeActor {
    fn clone(&self) -> (copy: Self)
        ensures
            copy == *self,
    {
        match self {
            OutcomeActor::System => OutcomeActor::System,
            OutcomeActor::Principal(id) => OutcomeActor::Principal(id.clone()),
        }
    }
}

/// Attributable immutable facts recorded in one process outcome.
#[derive(Debug, PartialEq, Eq)]
pub struct ProcessOutcomeFact {
    /// Immutable idempotency identity for this outcome.
    pub outcome_id: OutcomeId,
    /// Typed causal input or action identity.
    pub causation_id: CausationId,
    /// Attributable source that recorded this immutable fact.
    pub actor: OutcomeActor,
    /// Deterministic recorded-at time supplied by an injected clock.
    pub occurred_at: LogicalTime,
    /// Typed outcome category.
    pub kind: ProcessOutcomeKind,
    /// Canonical payload digest.
    pub payload_digest: ContentDigest,
}

impl ProcessOutcomeFact {
    /// Groups the immutable fact fields for a process outcome record.
    pub fn new(
        outcome_id: OutcomeId,
        causation_id: CausationId,
        actor: OutcomeActor,
        occurred_at: LogicalTime,
        kind: ProcessOutcomeKind,
        payload_digest: ContentDigest,
    ) -> (fact: Self)
        ensures
            fact == (ProcessOutcomeFact {
                outcome_id,
                causation_id,
                actor,
                occurred_at,
                kind,
                payload_digest,
            }),
    {
        ProcessOutcomeFact { outcome_id, causation_id, actor, occurred_at, kind, payload_digest }
    }
}

/// Immutable identity and definition scope of one process, compared by the
/// views of its identities and its exact digest.
pub ghost struct ScopeView {
    pub tenant_id: Seq<char>,
    pub process_id: Seq<char>,
    pub definition_id: Seq<char>,
    pub definition_version: Seq<char>,
    pub definition_digest: ContentDigest,
}

/// Immutable identity and definition scope of one process.
#[derive(Debug)]
pub struct ProcessScope {
    /// Isolated tenant scope.
    pub tenant_id: TenantId,
    /// Owning process instance.
    pub process_id: ProcessId,
    /// Immutable definition identity selected for this process.
    pub definition_id: DefinitionId,
    /// Immutable definition version selected for this process.
    pub definition_version: DefinitionVersion,
    /// Exact definition semantics selected for this process.
    pub definition_digest: ContentDigest,
}

impl View for ProcessScope {
    type V = ScopeView;

    open spec fn view(&self) -> ScopeView {
        ScopeView {
            tenant_id: self.tenant_id@,
            process_id: self.process_id@,
            definition_id: self.definition_id@,
            definition_version: self.definition_version@,
            definition_digest: self.definition_digest,
        }
    }
}

impl Clone for ProcessScope {
    fn clone(&self) -> (copy: Self)
        ensures
            copy == *self,
    {
        ProcessScope {
            tenant_id: self.tenant_id.clone(),
            process_id: self.process_id.clone(),
            definition_id: self.definition_id.clone(),
            definition_version: self.definition_version.clone(),
            definition_digest: self.definition_digest,
        }
    }
}

impl PartialEq for ProcessScope {
    fn eq(&self, other: &Self) -> (same: bool) {
        self.tenant_id == other.tenant_id && self.process_id == other.process_id
            && self.definition_id == other.definition_id && self.definition_version
            == other.definition_version && self.definition_digest == other.definition_digest
    }
}

impl vstd::std_specs::cmp::PartialEqSpecImpl for ProcessScope {
    open spec fn obeys_eq_spec() -> bool {
        true
    }

    open spec fn eq_spec(&self, other: &Self) -> bool {
        self@ == other@
    }
}

impl Eq for ProcessScope {}

impl ProcessScope {
    /// Creates the immutable identity and definition scope of one process.
    pub fn new(
        tenant_id: TenantId,
        process_id: ProcessId,
        definition_id: DefinitionId,
        definition_version: DefinitionVersion,
        definition_digest: ContentDigest,
    ) -> (scope: Self)
        ensures
            scope == (ProcessScope {
                tenant_id,
                process_id,
                definition_id,
                definition_version,
                definition_digest,
            }),
    {
        ProcessScope { tenant_id, process_id, definition_id, definition_version, definition_digest }
    }

    /// The canonical bytes of a scope: each identity length-prefixed, then
    /// the raw digest.
    pub open spec fn spec_canonical_bytes(self) -> Seq<u8> {
        identifier_encoding(self.tenant_id@) + identifier_encoding(self.process_id@)
            + identifier_encoding(self.definition_id@) + identifier_encoding(
            self.definition_version@,
        ) + self.definition_digest.0@
    }

    /// Encodes the complete pinned scope into an unambiguous, deterministic
    /// byte sequence suitable as input to a consumer-selected cryptographic
    /// digest.
    pub fn canonical_bytes(&self) -> (bytes: Vec<u8>)
        ensures
            bytes@ == self.spec_canonical_bytes(),
    {
        let mut bytes = Vec::new();
        encode_identifier(&mut bytes, self.tenant_id.as_str());
        encode_identifier(&mut bytes, self.process_id.as_str());
        encode_identifier(&mut bytes, self.definition_id.as_str());
        encode_identifier(&mut bytes, self.definition_version.as_str());
        push_all(&mut bytes, &self.definition_digest.0);
        assert(bytes@ =~= self.spec_canonical_bytes());
        bytes
    }
}

fn step_ids_have_duplicate(ids: &Vec<StepId>) -> (found: bool)
    ensures
        found == has_duplicate_views(ids@),
{
    let mut i: usize = 0;
    while i < ids.len()
        invariant
            0 <= i <= ids.len(),
            forall|a: int, b: int| 0 <= a < i && a < b < ids.len() ==> ids@[a]@ != ids@[b]@,
        decreases ids.len() - i,
    {
        let mut j: usize = i + 1;
        while j < ids.len()
            invariant
                i < ids.len(),
                i + 1 <= j <= ids.len(),
                forall|a: int, b: int| 0 <= a < i && a < b < ids.len() ==> ids@[a]@ != ids@[b]@,
                forall|b: int| i < b < j ==> ids@[i as int]@ != ids@[b]@,
            decreases ids.len() - j,
        {
            if ids[i] == ids[j] {
                assert(ids@[i as int]@ == ids@[j as int]@);
                return true;
            }
            j = j + 1;
        }
        i = i + 1;
    }
    false
}

fn resource_ids_have_duplicate(ids: &[ResourceId]) -> (found: bool)
    ensures
        found == has_duplicate_views(ids@),
{
    let mut i: usize = 0;
    while i < ids.len()
        invariant
            0 <= i <= ids.len(),
            forall|a: int, b: int| 0 <= a < i && a < b < ids.len() ==> ids@[a]@ != ids@[b]@,
        decreases ids.len() - i,
    {
        let mut j: usize = i + 1;
        while j < ids.len()
            invariant
                i < ids.len(),
                i + 1 <= j <= ids.len(),
                forall|a: int, b: int| 0 <= a < i && a < b < ids.len() ==> ids@[a]@ != ids@[b]@,
                forall|b: int| i < b < j ==> ids@[i as int]@ != ids@[b]@,
            decreases ids.len() - j,
        {
            if ids[i] == ids[j] {
                assert(ids@[i as int]@ == ids@[j as int]@);
                return true;
            }
            j = j + 1;
        }
        i = i + 1;
    }
    false
}

/// The canonical encodings of a sequence of identities, in order.
pub open spec fn identifiers_encoding(ids: Seq<Seq<char>>) -> Seq<u8>
    decreases ids.len(),
{
    if ids.len() == 0 {
        Seq::empty()
    } else {
        identifiers_encoding(ids.drop_last()) + identifier_encoding(ids.last())
    }
}

/// A version-pinned immutable process definition.
#[derive(Debug, PartialEq, Eq)]
pub struct ProcessDefinition {
    /// Stable definition identity.
    pub definition_id: DefinitionId,
    /// Immutable definition version selected when an instance starts.
    pub definition_version: DefinitionVersion,
    /// Digest of the canonical definition representation.
    pub definition_digest: ContentDigest,
    /// Ordered declared step identifiers.
    pub step_ids: Vec<StepId>,
}

impl Clone for ProcessDefinition {
    fn clone(&self) -> (copy: Self)
        ensures
            copy.definition_id == self.definition_id,
            copy.definition_version == self.definition_version,
            copy.definition_digest == self.definition_digest,
            copy.step_ids@ == self.step_ids@,
    {
        ProcessDefinition {
            definition_id: self.definition_id.clone(),
            definition_version: self.definition_version.clone(),
            definition_digest: self.definition_digest,
            step_ids: self.step_ids.clone(),
        }
    }
}

impl ProcessDefinition {
    /// The outcome of validating the declared steps: non-empty, within the
    /// step bound, and free of duplicate step identities (checked in that
    /// order).
    pub open spec fn spec_validate(self) -> Result<(), DomainError> {
        if self.step_ids.len() == 0 {
            Err(DomainError::EmptyDefinitionSteps)
        } else if self.step_ids.len() > MAX_DEFINITION_STEPS {
            Err(DomainError::DefinitionStepLimitExceeded)
        } else if has_duplicate_views(self.step_ids@) {
            Err(DomainError::DuplicateStepId)
        } else {
            Ok(())
        }
    }

    /// Creates a version-pinned process definition.
    pub fn new(
        definition_id: DefinitionId,
        definition_version: DefinitionVersion,
        definition_digest: ContentDigest,
        step_ids: Vec<StepId>,
    ) -> (result: Result<Self, DomainError>)
        ensures
            ({
                let definition = ProcessDefinition {
                    definition_id,
                    definition_version,
                    definition_digest,
                    step_ids,
                };
                match result {
                    Ok(d) => d == definition && definition.spec_validate() is Ok,
                    Err(e) => definition.spec_validate() == Err::<(), DomainError>(e),
                }
            }),
    {
        let definition = ProcessDefinition {
            definition_id,
            definition_version,
            definition_digest,
            step_ids,
        };
        match definition.validate() {
            Ok(()) => Ok(definition),
            Err(e) => Err(e),
        }
    }

    /// Validates bounded, unambiguous definition steps.
    pub fn validate(&self) -> (result: Result<(), DomainError>)
        ensures
            result == self.spec_validate(),
    {
        if self.step_ids.len() == 0 {
            return Err(DomainError::EmptyDefinitionSteps);
        }
        if self.step_ids.len() > MAX_DEFINITION_STEPS {
            return Err(DomainError::DefinitionStepLimitExceeded);
        }
        if step_ids_have_duplicate(&self.step_ids) {
            return Err(DomainError::DuplicateStepId);
        }
        Ok(())
    }

    /// Identity and step bytes of a definition, without the stored digest:
    /// definition identity, version, the step count as a big-endian `u32`
    /// (saturated at `u32::MAX`), then every step identity.
    pub open spec fn spec_canonical_bytes(self) -> Seq<u8> {
        let count: nat = if self.step_ids@.len() <= u32::MAX { self.step_ids@.len() } else { u32::MAX as nat };
        identifier_encoding(self.definition_id@) + identifier_encoding(self.definition_version@)
            + be_u32(count) + identifiers_encoding(views(self.step_ids@))
    }

    /// Encodes definition identity and semantics without including the stored
    /// digest, avoiding a self-referential hash input.
    pub fn canonical_bytes(&self) -> (bytes: Vec<u8>)
        ensures
            bytes@ == self.spec_canonical_bytes(),
    {
        let mut bytes = Vec::new();
        encode_identifier(&mut bytes, self.definition_id.as_str());
        encode_identifier(&mut bytes, self.definition_version.as_str());
        let step_count: u32 = if self.step_ids.len() <= 4294967295 {
            self.step_ids.len() as u32
        } else {
            4294967295
        };
        push_be_u32(&mut bytes, step_count);
        let ghost header = bytes@;
        let mut i: usize = 0;
        while i < self.step_ids.len()
            invariant
                0 <= i <= self.step_ids.len(),
                bytes@ == header + identifiers_encoding(views(self.step_ids@.subrange(0, i as int))),
            decreases self.step_ids.len() - i,
        {
            encode_identifier(&mut bytes, self.step_ids[i].as_str());
            proof {
                let done = views(self.step_ids@.subrange(0, i + 1));
                assert(done.drop_last() =~= views(self.step_ids@.subrange(0, i as int)));
                assert(done.last() == self.step_ids@[i as int]@);
            }
            i = i + 1;
        }
        assert(self.step_ids@.subrange(0, self.step_ids@.len() as int) =~= self.step_ids@);
        assert(bytes@ =~= self.spec_canonical_bytes());
        bytes
    }

    /// The SHA-256 digest of the canonical definition bytes.
    pub open spec fn spec_computed_digest(self) -> Seq<u8> {
        sha256_of(self.spec_canonical_bytes())
    }

    /// Computes the canonical SHA-256 definition digest for registration.
    pub fn computed_digest(&self) -> (digest: ContentDigest)
        ensures
            digest.0@ == self.spec_computed_digest(),
    {
        let bytes = self.canonical_bytes();
        ContentDigest::sha256(bytes.as_slice())
    }

    /// Requires the stored digest to match the canonical definition bytes.
    pub fn require_canonical_digest(&self) -> (result: Result<(), DefinitionCompatibilityError>)
        ensures
            result is Ok <==> self.definition_digest.0@ == self.spec_computed_digest(),
            result matches Err(e) ==> e == DefinitionCompatibilityError::DigestMismatch,
    {
        let computed = self.computed_digest();
        if self.definition_digest == computed {
            Ok(())
        } else {
            proof {
                broadcast use vstd::array::axiom_array_ext_equal;

                if self.definition_digest.0@ == computed.0@ {
                    assert(self.definition_digest.0 =~= computed.0);
                }
            }
            Err(DefinitionCompatibilityError::DigestMismatch)
        }
    }

    /// How `self` relates to `pinned`: another identity or version is
    /// incompatible; the same identity with another digest or step list
    /// requires a migration; otherwise it is exact.
    pub open spec fn spec_compatibility_with(self, pinned: Self) -> DefinitionCompatibility {
        if self.definition_id@ != pinned.definition_id@ || self.definition_version@
            != pinned.definition_version@ {
            DefinitionCompatibility::Incompatible
        } else if self.definition_digest != pinned.definition_digest || views(self.step_ids@)
            != views(pinned.step_ids@) {
            DefinitionCompatibility::RequiresMigration
        } else {
            DefinitionCompatibility::Exact
        }
    }

    /// Classifies whether this definition can replace a pinned definition.
    pub fn compatibility_with(&self, pinned: &Self) -> (compatibility: DefinitionCompatibility)
        ensures
            compatibility == self.spec_compatibility_with(*pinned),
    {
        if self.definition_id != pinned.definition_id || self.definition_version
            != pinned.definition_version {
            DefinitionCompatibility::Incompatible
        } else if self.definition_digest != pinned.definition_digest || !(self.step_ids
            == pinned.step_ids) {
            proof {
                lemma_views_equal(self.step_ids@, pinned.step_ids@);
            }
            DefinitionCompatibility::RequiresMigration
        } else {
            proof {
                lemma_views_equal(self.step_ids@, pinned.step_ids@);
            }
            DefinitionCompatibility::Exact
        }
    }

    /// Fails closed unless this definition is exactly the pinned definition.
    pub fn require_exact_compatibility(&self, pinned: &Self) -> (result: Result<
        (),
        DefinitionCompatibilityError,
    >)
        ensures
            result == match self.spec_compatibility_with(*pinned) {
                DefinitionCompatibility::Exact => Ok(()),
                DefinitionCompatibility::RequiresMigration => Err(
                    DefinitionCompatibilityError::RequiresMigration,
                ),
                DefinitionCompatibility::Incompatible => Err(
                    DefinitionCompatibilityError::IdentityMismatch,
                ),
            },
    {
        match self.compatibility_with(pinned) {
            DefinitionCompatibility::Exact => Ok(()),
            DefinitionCompatibility::RequiresMigration => Err(
                DefinitionCompatibilityError::RequiresMigration,
            ),
            DefinitionCompatibility::Incompatible => Err(
                DefinitionCompatibilityError::IdentityMismatch,
            ),
        }
    }
}

/// Explicit, immutable registration record for a definition migration.
///
/// The executor never applies this record implicitly. A composition root must
/// validate and authorize the migration, transform any process state under its
/// own policy, and retain this record alongside the new definition.
#[derive(Debug, PartialEq, Eq)]
pub struct DefinitionMigration {
    /// Stable migration identity used for idempotent registration.
    pub migration_id: MigrationId,
    /// Definition identity shared by both versions.
    pub definition_id: DefinitionId,
    /// Previously pinned version.
    pub from_version: DefinitionVersion,
    /// Previously registered semantic digest.
    pub from_digest: ContentDigest,
    /// Replacement version.
    pub to_version: DefinitionVersion,
    /// Replacement semantic digest.
    pub to_digest: ContentDigest,
}

impl Clone for DefinitionMigration {
    fn clone(&self) -> (copy: Self)
        ensures
            copy == *self,
    {
        DefinitionMigration {
            migration_id: self.migration_id.clone(),
            definition_id: self.definition_id.clone(),
            from_version: self.from_version.clone(),
            from_digest: self.from_digest,
            to_version: self.to_version.clone(),
            to_digest: self.to_digest,
        }
    }
}

impl DefinitionMigration {
    /// A migration is a no-op when it keeps both version and digest.
    pub open spec fn spec_is_noop(self) -> bool {
        self.from_version@ == self.to_version@ && self.from_digest == self.to_digest
    }

    /// Creates and validates an explicit definition migration record.
    pub fn new(
        migration_id: MigrationId,
        definition_id: DefinitionId,
        from_version: DefinitionVersion,
        from_digest: ContentDigest,
        to_version: DefinitionVersion,
        to_digest: ContentDigest,
    ) -> (result: Result<Self, DefinitionMigrationError>)
        ensures
            ({
                let migration = DefinitionMigration {
                    migration_id,
                    definition_id,
                    from_version,
                    from_digest,
                    to_version,
                    to_digest,
                };
                match result {
                    Ok(m) => m == migration && !migration.spec_is_noop(),
                    Err(e) => migration.spec_is_noop() && e == DefinitionMigrationError::NoOp,
                }
            }),
    {
        let migration = DefinitionMigration {
            migration_id,
            definition_id,
            from_version,
            from_digest,
            to_version,
            to_digest,
        };
        match migration.validate() {
            Ok(()) => Ok(migration),
            Err(e) => Err(e),
        }
    }

    /// Validates that the record represents an actual same-definition change.
    pub fn validate(&self) -> (result: Result<(), DefinitionMigrationError>)
        ensures
            result is Ok <==> !self.spec_is_noop(),
            result matches Err(e) ==> e == DefinitionMigrationError::NoOp,
    {
        if self.from_version == self.to_version && self.from_digest == self.to_digest {
            return Err(DefinitionMigrationError::NoOp);
        }
        Ok(())
    }

    /// The outcome of checking `candidate` as this migration's destination.
    pub open spec fn spec_validate_destination(self, candidate: ProcessDefinition) -> Result<
        (),
        DefinitionMigrationError,
    > {
        if candidate.spec_validate() is Err {
            Err(DefinitionMigrationError::InvalidDestination)
        } else if candidate.definition_id@ != self.definition_id@ || candidate.definition_version@
            != self.to_version@ || candidate.definition_digest != self.to_digest {
            Err(DefinitionMigrationError::IdentityMismatch)
        } else {
            Ok(())
        }
    }

    /// Requires a candidate definition to match the migration destination.
    pub fn validate_destination(&self, candidate: &ProcessDefinition) -> (result: Result<
        (),
        DefinitionMigrationError,
    >)
        ensures
            result == self.spec_validate_destination(*candidate),
    {
        if candidate.validate().is_err() {
            return Err(DefinitionMigrationError::InvalidDestination);
        }
        if candidate.definition_id != self.definition_id || candidate.definition_version
            != self.to_version || candidate.definition_digest != self.to_digest {
            return Err(DefinitionMigrationError::IdentityMismatch);
        }
        Ok(())
    }

    /// The outcome of checking both ends of this migration.
    pub open spec fn spec_validate_source_and_destination(
        self,
        source: ProcessDefinition,
        destination: ProcessDefinition,
    ) -> Result<(), DefinitionMigrationError> {
        if source.spec_validate() is Err {
            Err(DefinitionMigrationError::InvalidSource)
        } else if source.definition_id@ != self.definition_id@ || source.definition_version@
            != self.from_version@ || source.definition_digest != self.from_digest {
            Err(DefinitionMigrationError::IdentityMismatch)
        } else {
            self.spec_validate_destination(destination)
        }
    }

    /// Validates both ends of a migration against the pinned source and
    /// replacement definition before a running process may switch semantics.
    pub fn validate_source_and_destination(
        &self,
        source: &ProcessDefinition,
        destination: &ProcessDefinition,
    ) -> (result: Result<(), DefinitionMigrationError>)
        ensures
            result == self.spec_validate_source_and_destination(*source, *destination),
    {
        if source.validate().is_err() {
            return Err(DefinitionMigrationError::InvalidSource);
        }
        if source.definition_id != self.definition_id || source.definition_version
            != self.from_version || source.definition_digest != self.from_digest {
            return Err(DefinitionMigrationError::IdentityMismatch);
        }
        self.validate_destination(destination)
    }
}

/// A valid migration always connects two definitions that a pinned process
/// could not run interchangeably: the destination is never an exact match of
/// the source, and under an unchanged version it requires that migration.
pub proof fn lemma_migration_never_connects_exact_definitions(
    migration: DefinitionMigration,
    source: ProcessDefinition,
    destination: ProcessDefinition,
)
    requires
        !migration.spec_is_noop(),
        migration.spec_validate_source_and_destination(source, destination) is Ok,
    ensures
        destination.spec_compatibility_with(source) != DefinitionCompatibility::Exact,
        source.spec_compatibility_with(destination) != DefinitionCompatibility::Exact,
        source.definition_version@ == destination.definition_version@
            ==> destination.spec_compatibility_with(source)
            == DefinitionCompatibility::RequiresMigration,
{
}

/// A causally attributable process input.
#[derive(Debug, PartialEq, Eq)]
pub struct ProcessInput {
    /// Isolated tenant scope.
    pub tenant_id: TenantId,
    /// Target process instance.
    pub process_id: ProcessId,
    /// Immutable input identity used for inbox deduplication.
    pub input_id: InputId,
    /// Typed input category.
    pub kind: ProcessInputKind,
    /// Canonical payload digest.
    pub payload_digest: ContentDigest,
}

impl Clone for ProcessInput {
    fn clone(&self) -> (copy: Self)
        ensures
            copy == *self,
    {
        ProcessInput {
            tenant_id: self.tenant_id.clone(),
            process_id: self.process_id.clone(),
            input_id: self.input_id.clone(),
            kind: self.kind,
            payload_digest: self.payload_digest,
        }
    }
}

impl ProcessInput {
    /// Creates a typed process input.
    pub fn new(
        tenant_id: TenantId,
        process_id: ProcessId,
        input_id: InputId,
        kind: ProcessInputKind,
        payload_digest: ContentDigest,
    ) -> (input: Self)
        ensures
            input == (ProcessInput { tenant_id, process_id, input_id, kind, payload_digest }),
    {
        ProcessInput { tenant_id, process_id, input_id, kind, payload_digest }
    }

    /// Validates the immutable input: every typed input is valid by
    /// construction, so this always succeeds.
    pub fn validate(&self) -> (result: Result<(), DomainError>)
        ensures
            result is Ok,
    {
        Ok(())
    }
}

/// Public envelope for one process input.
#[derive(Debug, PartialEq, Eq)]
pub struct ProcessInputEnvelope {
    /// Typed process input supplied to the application boundary.
    pub input: ProcessInput,
}

impl ProcessInputEnvelope {
    /// Wraps one process input.
    pub fn new(input: ProcessInput) -> (envelope: Self)
        ensures
            envelope == (ProcessInputEnvelope { input }),
    {
        ProcessInputEnvelope { input }
    }

    /// Validates the enclosed process input; always succeeds.
    pub fn validate(&self) -> (result: Result<(), DomainError>)
        ensures
            result is Ok,
    {
        self.input.validate()
    }
}

/// One immutable fact in a process outcome log.
#[derive(Debug, PartialEq, Eq)]
pub struct ProcessOutcome {
    /// Isolated tenant scope.
    pub tenant_id: TenantId,
    /// Process instance that owns the outcome.
    pub process_id: ProcessId,
    /// Immutable definition identity pinned when this process started.
    pub definition_id: DefinitionId,
    /// Immutable definition version pinned when this process started.
    pub definition_version: DefinitionVersion,
    /// Digest of the exact pinned definition representation.
    pub definition_digest: ContentDigest,
    /// Strictly ordered per-instance outcome sequence.
    pub sequence: u64,
    /// Immutable outcome identity.
    pub outcome_id: OutcomeId,
    /// Typed causal input or action identity.
    pub causation_id: CausationId,
    /// Attributable source that recorded this immutable fact.
    pub actor: OutcomeActor,
    /// Deterministic recorded-at time supplied by an injected clock.
    pub occurred_at: LogicalTime,
    /// Typed outcome category.
    pub kind: ProcessOutcomeKind,
    /// Canonical payload digest.
    pub payload_digest: ContentDigest,
}

impl Clone for ProcessOutcome {
    fn clone(&self) -> (copy: Self)
        ensures
            copy == *self,
    {
        ProcessOutcome {
            tenant_id: self.tenant_id.clone(),
            process_id: self.process_id.clone(),
            definition_id: self.definition_id.clone(),
            definition_version: self.definition_version.clone(),
            definition_digest: self.definition_digest,
            sequence: self.sequence,
            outcome_id: self.outcome_id.clone(),
            causation_id: self.causation_id.clone(),
            actor: self.actor.clone(),
            occurred_at: self.occurred_at,
            kind: self.kind,
            payload_digest: self.payload_digest,
        }
    }
}

/// The scope carried by a record with the five scope fields.
pub open spec fn scope_view_of(
    tenant_id: TenantId,
    process_id: ProcessId,
    definition_id: DefinitionId,
    definition_version: DefinitionVersion,
    definition_digest: ContentDigest,
) -> ScopeView {
    ScopeView {
        tenant_id: tenant_id@,
        process_id: process_id@,
        definition_id: definition_id@,
        definition_version: definition_version@,
        definition_digest,
    }
}

impl ProcessOutcome {
    /// Creates an immutable process outcome from its scope, sequence and fact.
    pub fn new(scope: ProcessScope, sequence: u64, fact: ProcessOutcomeFact) -> (outcome: Self)
        ensures
            outcome == (ProcessOutcome {
                tenant_id: scope.tenant_id,
                process_id: scope.process_id,
                definition_id: scope.definition_id,
                definition_version: scope.definition_version,
                definition_digest: scope.definition_digest,
                sequence,
                outcome_id: fact.outcome_id,
                causation_id: fact.causation_id,
                actor: fact.actor,
                occurred_at: fact.occurred_at,
                kind: fact.kind,
                payload_digest: fact.payload_digest,
            }),
    {
        ProcessOutcome {
            tenant_id: scope.tenant_id,
            process_id: scope.process_id,
            definition_id: scope.definition_id,
            definition_version: scope.definition_version,
            definition_digest: scope.definition_digest,
            sequence,
            outcome_id: fact.outcome_id,
            causation_id: fact.causation_id,
            actor: fact.actor,
            occurred_at: fact.occurred_at,
            kind: fact.kind,
            payload_digest: fact.payload_digest,
        }
    }

    /// Validates the immutable outcome record; always succeeds.
    pub fn validate(&self) -> (result: Result<(), DomainError>)
        ensures
            result is Ok,
    {
        Ok(())
    }

    /// The view of the process scope carried by this outcome.
    pub open spec fn scope_view(self) -> ScopeView {
        scope_view_of(
            self.tenant_id,
            self.process_id,
            self.definition_id,
            self.definition_version,
            self.definition_digest,
        )
    }

    /// Returns the immutable process scope carried by this outcome.
    pub fn scope(&self) -> (scope: ProcessScope)
        ensures
            scope == (ProcessScope {
                tenant_id: self.tenant_id,
                process_id: self.process_id,
                definition_id: self.definition_id,
                definition_version: self.definition_version,
                definition_digest: self.definition_digest,
            }),
            scope@ == self.scope_view(),
    {
        ProcessScope::new(
            self.tenant_id.clone(),
            self.process_id.clone(),
            self.definition_id.clone(),
            self.definition_version.clone(),
            self.definition_digest,
        )
    }

    /// Validates that this outcome belongs to exactly the expected scope.
    pub fn validate_for_scope(&self, expected: &ProcessScope) -> (result: Result<(), DomainError>)
        ensures
            result is Ok <==> self.scope_view() == expected@,
            result matches Err(e) ==> e == DomainError::OutcomeScopeMismatch,
    {
        if self.scope() == *expected {
            Ok(())
        } else {
            Err(DomainError::OutcomeScopeMismatch)
        }
    }
}

/// A durable, independently idempotent process action.
#[derive(Debug, PartialEq, Eq)]
pub struct ProcessAction {
    /// Isolated tenant scope.
    pub tenant_id: TenantId,
    /// Owning process instance.
    pub process_id: ProcessId,
    /// Immutable definition identity selected for this process.
    pub definition_id: DefinitionId,
    /// Immutable definition version selected for this process.
    pub definition_version: DefinitionVersion,
    /// Exact definition semantics selected for this process.
    pub definition_digest: ContentDigest,
    /// Stable action identity and external idempotency key.
    pub action_id: ActionId,
    /// Pinned definition step identity.
    pub step_id: StepId,
    /// Attempt number for this action.
    pub attempt: u32,
    /// Typed action category.
    pub kind: ProcessActionKind,
    /// Canonical payload digest.
    pub payload_digest: ContentDigest,
}

/// The view of an action: its scope, identities by view, and its values.
pub ghost struct ActionView {
    pub scope: ScopeView,
    pub action_id: Seq<char>,
    pub step_id: Seq<char>,
    pub attempt: u32,
    pub kind: ProcessActionKind,
    pub payload_digest: ContentDigest,
}

impl View for ProcessAction {
    type V = ActionView;

    open spec fn view(&self) -> ActionView {
        ActionView {
            scope: scope_view_of(
                self.tenant_id,
                self.process_id,
                self.definition_id,
                self.definition_version,
                self.definition_digest,
            ),
            action_id: self.action_id@,
            step_id: self.step_id@,
            attempt: self.attempt,
            kind: self.kind,
            payload_digest: self.payload_digest,
        }
    }
}

impl Clone for ProcessAction {
    fn clone(&self) -> (copy: Self)
        ensures
            copy == *self,
    {
        ProcessAction {
            tenant_id: self.tenant_id.clone(),
            process_id: self.process_id.clone(),
            definition_id: self.definition_id.clone(),
            definition_version: self.definition_version.clone(),
            definition_digest: self.definition_digest,
            action_id: self.action_id.clone(),
            step_id: self.step_id.clone(),
            attempt: self.attempt,
            kind: self.kind,
            payload_digest: self.payload_digest,
        }
    }
}

/// The semantic coordinates of one effect attempt, compared by view.
pub ghost struct EffectKeyView {
    pub scope: ScopeView,
    pub step_id: Seq<char>,
    pub attempt: u32,
    pub kind: ProcessActionKind,
    pub payload_digest: ContentDigest,
}

/// Stable semantic idempotency key for one process effect attempt.
///
/// Unlike [`ActionId`], this key is derived from the pinned process definition
/// and the effect's semantic coordinates.
#[derive(Debug)]
pub struct EffectKey {
    /// Isolated tenant scope.
    pub tenant_id: TenantId,
    /// Owning process instance.
    pub process_id: ProcessId,
    /// Immutable definition identity selected for this process.
    pub definition_id: DefinitionId,
    /// Immutable definition version selected for this process.
    pub definition_version: DefinitionVersion,
    /// Exact definition semantics selected for this process.
    pub definition_digest: ContentDigest,
    /// Pinned definition step identity.
    pub step_id: StepId,
    /// Attempt number for this effect.
    pub attempt: u32,
    /// Typed external effect category.
    pub kind: ProcessActionKind,
    /// Canonical payload semantics for this effect attempt.
    pub payload_digest: ContentDigest,
}

impl View for EffectKey {
    type V = EffectKeyView;

    open spec fn view(&self) -> EffectKeyView {
        EffectKeyView {
            scope: scope_view_of(
                self.tenant_id,
                self.process_id,
                self.definition_id,
                self.definition_version,
                self.definition_digest,
            ),
            step_id: self.step_id@,
            attempt: self.attempt,
            kind: self.kind,
            payload_digest: self.payload_digest,
        }
    }
}

impl Clone for EffectKey {
    fn clone(&self) -> (copy: Self)
        ensures
            copy == *self,
    {
        EffectKey {
            tenant_id: self.tenant_id.clone(),
            process_id: self.process_id.clone(),
            definition_id: self.definition_id.clone(),
            definition_version: self.definition_version.clone(),
            definition_digest: self.definition_digest,
            step_id: self.step_id.clone(),
            attempt: self.attempt,
            kind: self.kind,
            payload_digest: self.payload_digest,
        }
    }
}

impl PartialEq for EffectKey {
    fn eq(&self, other: &Self) -> (same: bool) {
        self.tenant_id == other.tenant_id && self.process_id == other.process_id
            && self.definition_id == other.definition_id && self.definition_version
            == other.definition_version && self.definition_digest == other.definition_digest
            && self.step_id == other.step_id && self.attempt == other.attempt && self.kind
            == other.kind && self.payload_digest == other.payload_digest
    }
}

impl vstd::std_specs::cmp::PartialEqSpecImpl for EffectKey {
    open spec fn obeys_eq_spec() -> bool {
        true
    }

    open spec fn eq_spec(&self, other: &Self) -> bool {
        self@ == other@
    }
}

impl Eq for EffectKey {}

/// The one-byte tag of an action kind in canonical bytes.
pub open spec fn action_kind_tag(kind: ProcessActionKind) -> u8 {
    match kind {
        ProcessActionKind::CanonicalCommand => 0,
        ProcessActionKind::Timer => 1,
        ProcessActionKind::ExternalEffect => 2,
        ProcessActionKind::ManualReview => 3,
    }
}

impl EffectKey {
    /// Canonical bytes of an effect key: the scope, the step identity, the
    /// attempt as a big-endian `u32`, the kind tag, then the payload digest.
    pub open spec fn spec_canonical_bytes(self) -> Seq<u8> {
        identifier_encoding(self.tenant_id@) + identifier_encoding(self.process_id@)
            + identifier_encoding(self.definition_id@) + identifier_encoding(
            self.definition_version@,
        ) + self.definition_digest.0@ + identifier_encoding(self.step_id@) + be_u32(
            self.attempt as nat,
        ) + seq![action_kind_tag(self.kind)] + self.payload_digest.0@
    }

    /// Encodes every semantic effect coordinate deterministically.
    pub fn canonical_bytes(&self) -> (bytes: Vec<u8>)
        ensures
            bytes@ == self.spec_canonical_bytes(),
    {
        let mut bytes = Vec::new();
        encode_identifier(&mut bytes, self.tenant_id.as_str());
        encode_identifier(&mut bytes, self.process_id.as_str());
        encode_identifier(&mut bytes, self.definition_id.as_str());
        encode_identifier(&mut bytes, self.definition_version.as_str());
        push_all(&mut bytes, &self.definition_digest.0);
        encode_identifier(&mut bytes, self.step_id.as_str());
        push_be_u32(&mut bytes, self.attempt);
        let tag: u8 = match self.kind {
            ProcessActionKind::CanonicalCommand => 0,
            ProcessActionKind::Timer => 1,
            ProcessActionKind::ExternalEffect => 2,
            ProcessActionKind::ManualReview => 3,
        };
        bytes.push(tag);
        push_all(&mut bytes, &self.payload_digest.0);
        assert(bytes@ =~= self.spec_canonical_bytes());
        bytes
    }
}

impl ProcessAction {
    /// Creates a stable independently idempotent action.
    pub fn new(
        scope: ProcessScope,
        action_id: ActionId,
        step_id: StepId,
        attempt: u32,
        kind: ProcessActionKind,
        payload_digest: ContentDigest,
    ) -> (action: Self)
        ensures
            action == (ProcessAction {
                tenant_id: scope.tenant_id,
                process_id: scope.process_id,
                definition_id: scope.definition_id,
                definition_version: scope.definition_version,
                definition_digest: scope.definition_digest,
                action_id,
                step_id,
                attempt,
                kind,
                payload_digest,
            }),
    {
        ProcessAction {
            tenant_id: scope.tenant_id,
            process_id: scope.process_id,
            definition_id: scope.definition_id,
            definition_version: scope.definition_version,
            definition_digest: scope.definition_digest,
            action_id,
            step_id,
            attempt,
            kind,
            payload_digest,
        }
    }

    /// Validates the immutable action; always succeeds.
    pub fn validate(&self) -> (result: Result<(), DomainError>)
        ensures
            result is Ok,
    {
        Ok(())
    }

    /// The view of the process scope carried by this action.
    pub open spec fn scope_view(self) -> ScopeView {
        scope_view_of(
            self.tenant_id,
            self.process_id,
            self.definition_id,
            self.definition_version,
            self.definition_digest,
        )
    }

    /// Returns the immutable process and definition scope for this action.
    pub fn scope(&self) -> (scope: ProcessScope)
        ensures
            scope == (ProcessScope {
                tenant_id: self.tenant_id,
                process_id: self.process_id,
                definition_id: self.definition_id,
                definition_version: self.definition_version,
                definition_digest: self.definition_digest,
            }),
            scope@ == self.scope_view(),
    {
        ProcessScope::new(
            self.tenant_id.clone(),
            self.process_id.clone(),
            self.definition_id.clone(),
            self.definition_version.clone(),
            self.definition_digest,
        )
    }

    /// The semantic effect key of this action: every coordinate but the
    /// action identity.
    pub open spec fn spec_effect_key(self) -> EffectKey {
        EffectKey {
            tenant_id: self.tenant_id,
            process_id: self.process_id,
            definition_id: self.definition_id,
            definition_version: self.definition_version,
            definition_digest: self.definition_digest,
            step_id: self.step_id,
            attempt: self.attempt,
            kind: self.kind,
            payload_digest: self.payload_digest,
        }
    }

    /// Derives the stable semantic idempotency key for this action attempt.
    pub fn effect_key(&self) -> (key: EffectKey)
        ensures
            key == self.spec_effect_key(),
    {
        EffectKey {
            tenant_id: self.tenant_id.clone(),
            process_id: self.process_id.clone(),
            definition_id: self.definition_id.clone(),
            definition_version: self.definition_version.clone(),
            definition_digest: self.definition_digest,
            step_id: self.step_id.clone(),
            attempt: self.attempt,
            kind: self.kind,
            payload_digest: self.payload_digest,
        }
    }
}

/// The outcome of validating a canonical resource scope: at most
/// `MAX_CANONICAL_RESOURCE_IDS` resources, none of them repeated.
pub open spec fn spec_validate_resource_scope(resource_ids: Seq<ResourceId>) -> Result<
    (),
    DomainError,
> {
    if resource_ids.len() > MAX_CANONICAL_RESOURCE_IDS {
        Err(DomainError::CanonicalResourceLimitExceeded)
    } else if has_duplicate_views(resource_ids) {
        Err(DomainError::DuplicateCanonicalResourceId)
    } else {
        Ok(())
    }
}

/// Validates a canonical operation's bounded, duplicate-free resource scope.
pub fn validate_canonical_resource_scope(resource_ids: &[ResourceId]) -> (result: Result<
    (),
    DomainError,
>)
    ensures
        result == spec_validate_resource_scope(resource_ids@),
{
    if resource_ids.len() > MAX_CANONICAL_RESOURCE_IDS {
        return Err(DomainError::CanonicalResourceLimitExceeded);
    }
    if resource_ids_have_duplicate(resource_ids) {
        return Err(DomainError::DuplicateCanonicalResourceId);
    }
    Ok(())
}

/// A canonical-state command submitted through an adapter port.
#[derive(Debug, PartialEq, Eq)]
pub struct CanonicalCommand {
    /// Tenant authorized for the command.
    pub tenant_id: TenantId,
    /// Penelope action ID reused as canonical idempotency ID.
    pub action_id: ActionId,
    /// Registered typed canonical operation.
    pub operation: OperationId,
    /// Expected resource scope identifiers.
    pub resource_ids: Vec<ResourceId>,
    /// Canonical command payload digest.
    pub payload_digest: ContentDigest,
}

impl Clone for CanonicalCommand {
    fn clone(&self) -> (copy: Self)
        ensures
            copy.tenant_id == self.tenant_id,
            copy.action_id == self.action_id,
            copy.operation == self.operation,
            copy.resource_ids@ == self.resource_ids@,
            copy.payload_digest == self.payload_digest,
    {
        CanonicalCommand {
            tenant_id: self.tenant_id.clone(),
            action_id: self.action_id.clone(),
            operation: self.operation.clone(),
            resource_ids: self.resource_ids.clone(),
            payload_digest: self.payload_digest,
        }
    }
}

impl CanonicalCommand {
    /// Creates a typed canonical command with a validated resource scope.
    pub fn new(
        tenant_id: TenantId,
        action_id: ActionId,
        operation: OperationId,
        resource_ids: Vec<ResourceId>,
        payload_digest: ContentDigest,
    ) -> (result: Result<Self, DomainError>)
        ensures
            match result {
                Ok(command) => command == (CanonicalCommand {
                    tenant_id,
                    action_id,
                    operation,
                    resource_ids,
                    payload_digest,
                }) && spec_validate_resource_scope(resource_ids@) is Ok,
                Err(e) => spec_validate_resource_scope(resource_ids@) == Err::<(), DomainError>(e),
            },
    {
        let command = CanonicalCommand { tenant_id, action_id, operation, resource_ids, payload_digest };
        match command.validate() {
            Ok(()) => Ok(command),
            Err(e) => Err(e),
        }
    }

    /// Validates the bounded, unambiguous canonical resource scope.
    pub fn validate(&self) -> (result: Result<(), DomainError>)
        ensures
            result == spec_validate_resource_scope(self.resource_ids@),
    {
        validate_canonical_resource_scope(self.resource_ids.as_slice())
    }
}

/// Evidence of a verified committed canonical-state result.
#[derive(Debug, PartialEq, Eq)]
pub struct CanonicalEvent {
    /// Tenant of the committed event.
    pub tenant_id: TenantId,
    /// Immutable source delivery/event identity used by the inbox.
    pub source_event_id: CanonicalEventId,
    /// Expected Penelope action/canonical idempotency identity.
    pub action_id: ActionId,
    /// Canonical commit identity.
    pub commit_id: CanonicalCommitId,
    /// Canonical commit sequence.
    pub commit_sequence: u64,
    /// Registered typed canonical operation.
    pub operation: OperationId,
    /// Affected resource scope identifiers.
    pub resource_ids: Vec<ResourceId>,
    /// Canonical event payload digest.
    pub payload_digest: ContentDigest,
}

impl CanonicalEvent {
    /// Whether `self` and `other` hold the same values (identities by view).
    pub open spec fn same_as(self, other: Self) -> bool {
        &&& self.tenant_id == other.tenant_id
        &&& self.source_event_id == other.source_event_id
        &&& self.action_id == other.action_id
        &&& self.commit_id == other.commit_id
        &&& self.commit_sequence == other.commit_sequence
        &&& self.operation == other.operation
        &&& self.resource_ids@ == other.resource_ids@
        &&& self.payload_digest == other.payload_digest
    }
}

impl Clone for CanonicalEvent {
    fn clone(&self) -> (copy: Self)
        ensures
            copy.same_as(*self),
    {
        CanonicalEvent {
            tenant_id: self.tenant_id.clone(),
            source_event_id: self.source_event_id.clone(),
            action_id: self.action_id.clone(),
            commit_id: self.commit_id.clone(),
            commit_sequence: self.commit_sequence,
            operation: self.operation.clone(),
            resource_ids: self.resource_ids.clone(),
            payload_digest: self.payload_digest,
        }
    }
}

impl CanonicalEvent {
    /// Creates a typed committed canonical event with a validated resource
    /// scope.
    pub fn new(
        tenant_id: TenantId,
        source_event_id: CanonicalEventId,
        action_id: ActionId,
        commit_id: CanonicalCommitId,
        commit_sequence: u64,
        operation: OperationId,
        resource_ids: Vec<ResourceId>,
        payload_digest: ContentDigest,
    ) -> (result: Result<Self, DomainError>)
        ensures
            match result {
                Ok(event) => event == (CanonicalEvent {
                    tenant_id,
                    source_event_id,
                    action_id,
                    commit_id,
                    commit_sequence,
                    operation,
                    resource_ids,
                    payload_digest,
                }) && spec_validate_resource_scope(resource_ids@) is Ok,
                Err(e) => spec_validate_resource_scope(resource_ids@) == Err::<(), DomainError>(e),
            },
    {
        let event = CanonicalEvent {
            tenant_id,
            source_event_id,
            action_id,
            commit_id,
            commit_sequence,
            operation,
            resource_ids,
            payload_digest,
        };
        match event.validate() {
            Ok(()) => Ok(event),
            Err(e) => Err(e),
        }
    }

    /// Validates the bounded, unambiguous canonical resource scope.
    pub fn validate(&self) -> (result: Result<(), DomainError>)
        ensures
            result == spec_validate_resource_scope(self.resource_ids@),
    {
        validate_canonical_resource_scope(self.resource_ids.as_slice())
    }
}

/// A durable request for authorized human resolution.
#[derive(Debug, PartialEq, Eq)]
pub struct ManualReview {
    /// Isolated tenant scope.
    pub tenant_id: TenantId,
    /// Owning process instance.
    pub process_id: ProcessId,
    /// Immutable definition identity selected for this process.
    pub definition_id: DefinitionId,
    /// Immutable definition version selected for this process.
    pub definition_version: DefinitionVersion,
    /// Exact definition semantics selected for this process.
    pub definition_digest: ContentDigest,
    /// Stable review identity.
    pub review_id: ReviewId,
    /// Outcome sequence at which review was opened.
    pub opened_at_sequence: u64,
    /// Optional inclusive logical deadline for an authorized review decision.
    pub expires_at: Option<LogicalTime>,
    /// Redacted evidence digest.
    pub evidence_digest: ContentDigest,
}

impl Clone for ManualReview {
    fn clone(&self) -> (copy: Self)
        ensures
            copy == *self,
    {
        ManualReview {
            tenant_id: self.tenant_id.clone(),
            process_id: self.process_id.clone(),
            definition_id: self.definition_id.clone(),
            definition_version: self.definition_version.clone(),
            definition_digest: self.definition_digest,
            review_id: self.review_id.clone(),
            opened_at_sequence: self.opened_at_sequence,
            expires_at: self.expires_at,
            evidence_digest: self.evidence_digest,
        }
    }
}

impl ManualReview {
    /// Creates a durable manual-review escalation.
    pub fn new(
        scope: ProcessScope,
        review_id: ReviewId,
        opened_at_sequence: u64,
        expires_at: Option<LogicalTime>,
        evidence_digest: ContentDigest,
    ) -> (review: Self)
        ensures
            review == (ManualReview {
                tenant_id: scope.tenant_id,
                process_id: scope.process_id,
                definition_id: scope.definition_id,
                definition_version: scope.definition_version,
                definition_digest: scope.definition_digest,
                review_id,
                opened_at_sequence,
                expires_at,
                evidence_digest,
            }),
    {
        ManualReview {
            tenant_id: scope.tenant_id,
            process_id: scope.process_id,
            definition_id: scope.definition_id,
            definition_version: scope.definition_version,
            definition_digest: scope.definition_digest,
            review_id,
            opened_at_sequence,
            expires_at,
            evidence_digest,
        }
    }

    /// Validates the immutable manual-review record; always succeeds.
    pub fn validate(&self) -> (result: Result<(), DomainError>)
        ensures
            result is Ok,
    {
        Ok(())
    }

    /// The view of the process scope carried by this review.
    pub open spec fn scope_view(self) -> ScopeView {
        scope_view_of(
            self.tenant_id,
            self.process_id,
            self.definition_id,
            self.definition_version,
            self.definition_digest,
        )
    }

    /// Returns the immutable process and definition scope for this review.
    pub fn scope(&self) -> (scope: ProcessScope)
        ensures
            scope == (ProcessScope {
                tenant_id: self.tenant_id,
                process_id: self.process_id,
                definition_id: self.definition_id,
                definition_version: self.definition_version,
                definition_digest: self.definition_digest,
            }),
            scope@ == self.scope_view(),
    {
        ProcessScope::new(
            self.tenant_id.clone(),
            self.process_id.clone(),
            self.definition_id.clone(),
            self.definition_version.clone(),
            self.definition_digest,
        )
    }
}

// ---------------------------------------------------------------------------
// Laws of canonical bytes and effect keys.
// ---------------------------------------------------------------------------

/// Whether the four identities of a scope are in canonical form.
pub open spec fn scope_identities_canonical(scope: ScopeView) -> bool {
    &&& TenantId::is_canonical(scope.tenant_id)
    &&& ProcessId::is_canonical(scope.process_id)
    &&& DefinitionId::is_canonical(scope.definition_id)
    &&& DefinitionVersion::is_canonical(scope.definition_version)
}

proof fn lemma_digest_bytes_equal(a: ContentDigest, b: ContentDigest)
    requires
        a.0@ == b.0@,
    ensures
        a == b,
{
    broadcast use vstd::array::axiom_array_ext_equal;

    assert(a.0 =~= b.0);
}

#[verifier::spinoff_prover]
#[verifier::rlimit(50)]
proof fn lemma_scope_prefix_unambiguous(
    a: ScopeView,
    b: ScopeView,
    rest_a: Seq<u8>,
    rest_b: Seq<u8>,
)
    requires
        scope_identities_canonical(a),
        scope_identities_canonical(b),
        identifier_encoding(a.tenant_id) + identifier_encoding(a.process_id) + identifier_encoding(
            a.definition_id,
        ) + identifier_encoding(a.definition_version) + a.definition_digest.0@ + rest_a
            == identifier_encoding(b.tenant_id) + identifier_encoding(b.process_id)
            + identifier_encoding(b.definition_id) + identifier_encoding(b.definition_version)
            + b.definition_digest.0@ + rest_b,
    ensures
        a == b,
        rest_a == rest_b,
{
    let tail_a = a.definition_digest.0@ + rest_a;
    let tail_b = b.definition_digest.0@ + rest_b;
    assert(identifier_encoding(a.tenant_id) + identifier_encoding(a.process_id)
        + identifier_encoding(a.definition_id) + identifier_encoding(a.definition_version)
        + a.definition_digest.0@ + rest_a =~= identifier_encoding(a.tenant_id) + (
    identifier_encoding(a.process_id) + (identifier_encoding(a.definition_id) + (
    identifier_encoding(a.definition_version) + tail_a))));
    assert(identifier_encoding(b.tenant_id) + identifier_encoding(b.process_id)
        + identifier_encoding(b.definition_id) + identifier_encoding(b.definition_version)
        + b.definition_digest.0@ + rest_b =~= identifier_encoding(b.tenant_id) + (
    identifier_encoding(b.process_id) + (identifier_encoding(b.definition_id) + (
    identifier_encoding(b.definition_version) + tail_b))));
    lemma_identifier_encoding_unambiguous(
        a.tenant_id,
        b.tenant_id,
        identifier_encoding(a.process_id) + (identifier_encoding(a.definition_id) + (
        identifier_encoding(a.definition_version) + tail_a)),
        identifier_encoding(b.process_id) + (identifier_encoding(b.definition_id) + (
        identifier_encoding(b.definition_version) + tail_b)),
    );
    lemma_identifier_encoding_unambiguous(
        a.process_id,
        b.process_id,
        identifier_encoding(a.definition_id) + (identifier_encoding(a.definition_version)
            + tail_a),
        identifier_encoding(b.definition_id) + (identifier_encoding(b.definition_version)
            + tail_b),
    );
    lemma_identifier_encoding_unambiguous(
        a.definition_id,
        b.definition_id,
        identifier_encoding(a.definition_version) + tail_a,
        identifier_encoding(b.definition_version) + tail_b,
    );
    lemma_identifier_encoding_unambiguous(
        a.definition_version,
        b.definition_version,
        tail_a,
        tail_b,
    );
    lemma_split_at_equal_lengths(a.definition_digest.0@, rest_a, b.definition_digest.0@, rest_b);
    lemma_digest_bytes_equal(a.definition_digest, b.definition_digest);
}

/// Canonical scope bytes are unambiguous: two scopes with canonical
/// identities have the same canonical bytes exactly when they are the same
/// scope.
#[verifier::spinoff_prover]
pub proof fn lemma_scope_bytes_are_unambiguous(a: ProcessScope, b: ProcessScope)
    requires
        scope_identities_canonical(a@),
        scope_identities_canonical(b@),
    ensures
        a.spec_canonical_bytes() == b.spec_canonical_bytes() <==> a@ == b@,
{
    if a.spec_canonical_bytes() == b.spec_canonical_bytes() {
        assert(a.spec_canonical_bytes() =~= a.spec_canonical_bytes() + Seq::<u8>::empty());
        assert(b.spec_canonical_bytes() =~= b.spec_canonical_bytes() + Seq::<u8>::empty());
        lemma_scope_prefix_unambiguous(a@, b@, Seq::empty(), Seq::empty());
    }
}

#[verifier::spinoff_prover]
proof fn lemma_effect_tail_unambiguous(
    step_a: Seq<char>,
    attempt_a: u32,
    kind_a: ProcessActionKind,
    payload_a: ContentDigest,
    step_b: Seq<char>,
    attempt_b: u32,
    kind_b: ProcessActionKind,
    payload_b: ContentDigest,
)
    requires
        StepId::is_canonical(step_a),
        StepId::is_canonical(step_b),
        identifier_encoding(step_a) + (be_u32(attempt_a as nat) + (seq![action_kind_tag(kind_a)]
            + payload_a.0@)) == identifier_encoding(step_b) + (be_u32(attempt_b as nat) + (seq![
            action_kind_tag(kind_b),
        ] + payload_b.0@)),
    ensures
        step_a == step_b,
        attempt_a == attempt_b,
        kind_a == kind_b,
        payload_a == payload_b,
{
    lemma_identifier_encoding_unambiguous(
        step_a,
        step_b,
        be_u32(attempt_a as nat) + (seq![action_kind_tag(kind_a)] + payload_a.0@),
        be_u32(attempt_b as nat) + (seq![action_kind_tag(kind_b)] + payload_b.0@),
    );
    lemma_split_at_equal_lengths(
        be_u32(attempt_a as nat),
        seq![action_kind_tag(kind_a)] + payload_a.0@,
        be_u32(attempt_b as nat),
        seq![action_kind_tag(kind_b)] + payload_b.0@,
    );
    lemma_be_u32_injective(attempt_a, attempt_b);
    lemma_split_at_equal_lengths(
        seq![action_kind_tag(kind_a)],
        payload_a.0@,
        seq![action_kind_tag(kind_b)],
        payload_b.0@,
    );
    assert(action_kind_tag(kind_a) == seq![action_kind_tag(kind_a)][0]);
    assert(action_kind_tag(kind_b) == seq![action_kind_tag(kind_b)][0]);
    lemma_digest_bytes_equal(payload_a, payload_b);
}

/// The canonical bytes of an effect key: its scope's bytes, then the tail.
#[verifier::spinoff_prover]
proof fn lemma_effect_key_bytes_shape(k: EffectKey)
    ensures
        k.spec_canonical_bytes() == identifier_encoding(k@.scope.tenant_id) + identifier_encoding(
            k@.scope.process_id,
        ) + identifier_encoding(k@.scope.definition_id) + identifier_encoding(
            k@.scope.definition_version,
        ) + k@.scope.definition_digest.0@ + (identifier_encoding(k.step_id@) + (be_u32(
            k.attempt as nat,
        ) + (seq![action_kind_tag(k.kind)] + k.payload_digest.0@))),
{
    assert(k.spec_canonical_bytes() =~= identifier_encoding(k@.scope.tenant_id)
        + identifier_encoding(k@.scope.process_id) + identifier_encoding(k@.scope.definition_id)
        + identifier_encoding(k@.scope.definition_version) + k@.scope.definition_digest.0@ + (
    identifier_encoding(k.step_id@) + (be_u32(k.attempt as nat) + (seq![action_kind_tag(k.kind)]
        + k.payload_digest.0@))));
}

/// Canonical effect-key bytes are unambiguous: two keys with canonical
/// identities have the same canonical bytes exactly when they bind the same
/// scope, step, attempt, kind and payload.
#[verifier::spinoff_prover]
pub proof fn lemma_effect_key_bytes_are_unambiguous(a: EffectKey, b: EffectKey)
    requires
        scope_identities_canonical(a@.scope),
        scope_identities_canonical(b@.scope),
        StepId::is_canonical(a.step_id@),
        StepId::is_canonical(b.step_id@),
    ensures
        a.spec_canonical_bytes() == b.spec_canonical_bytes() <==> a@ == b@,
{
    if a.spec_canonical_bytes() == b.spec_canonical_bytes() {
        lemma_effect_key_bytes_shape(a);
        lemma_effect_key_bytes_shape(b);
        let rest_a = identifier_encoding(a.step_id@) + (be_u32(a.attempt as nat) + (seq![
            action_kind_tag(a.kind),
        ] + a.payload_digest.0@));
        let rest_b = identifier_encoding(b.step_id@) + (be_u32(b.attempt as nat) + (seq![
            action_kind_tag(b.kind),
        ] + b.payload_digest.0@));
        lemma_scope_prefix_unambiguous(a@.scope, b@.scope, rest_a, rest_b);
        lemma_effect_tail_unambiguous(
            a.step_id@,
            a.attempt,
            a.kind,
            a.payload_digest,
            b.step_id@,
            b.attempt,
            b.kind,
            b.payload_digest,
        );
    }
}

/// An action's effect key binds every semantic coordinate of the effect and
/// nothing else: two actions share an effect key exactly when they agree on
/// scope, step, attempt, kind and payload, whatever their action identities.
pub proof fn lemma_effect_key_ignores_only_the_action_identity(a: ProcessAction, b: ProcessAction)
    ensures
        a.spec_effect_key()@ == b.spec_effect_key()@ <==> (a.scope_view() == b.scope_view()
            && a.step_id@ == b.step_id@ && a.attempt == b.attempt && a.kind == b.kind
            && a.payload_digest == b.payload_digest),
{
}

} // verus!
