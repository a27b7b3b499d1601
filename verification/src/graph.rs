//! Deterministic execution for bounded process graphs.
//!
//! A graph definition names an entry step and, for each step and outcome, at
//! most one transition to a destination step (or to the end of the process).
//! Every decision is a pure function of the definition, the projection and
//! one typed input, stated over views by the `spec_*` functions below.

use vstd::prelude::*;

use crate::domain::{opt_view, views, ActionView, ProcessAction, ProcessScope, ScopeView, MAX_DEFINITION_STEPS};
use crate::engine::{
    clone_optional_action_id, issued_contains, steps_have_duplicate, steps_have_duplicate_id,
    ActionResultObservationV1, ActionResultV1, SagaStatusV1, StepPlanV1, StepView,
};
use crate::ids::{ActionId, ContentDigest, DefinitionId, DefinitionVersion, InputId, ProcessId, StepId, TenantId};

verus! {

/// Maximum number of transitions a graph definition may declare.
pub const MAX_GRAPH_TRANSITIONS: usize = 1024;

/// Maximum number of graph events accepted by one replay operation.
pub const MAX_GRAPH_REPLAY_EVENTS: usize = 4096;

/// The outcome class a graph transition is selected by.
#[derive(Debug, Clone, Copy, PartialEq, Eq, Structural)]
pub enum GraphTransitionOutcome {
    /// The step's action succeeded.
    Succeeded,
    /// The step's action failed and may be retried.
    RetryableFailure,
    /// The step's action failed permanently.
    TerminalFailure,
}

/// One edge of a process graph.
#[derive(Debug, PartialEq, Eq)]
pub struct GraphTransition {
    /// Step whose result selects this edge.
    pub from_step: StepId,
    /// Outcome class that selects this edge.
    pub on: GraphTransitionOutcome,
    /// Destination step, or `None` when the process ends here.
    pub to_step: Option<StepId>,
}

/// The view of a graph transition.
pub ghost struct TransitionView {
    pub from_step: Seq<char>,
    pub on: GraphTransitionOutcome,
    pub to_step: Option<Seq<char>>,
}

impl View for GraphTransition {
    type V = TransitionView;

    open spec fn view(&self) -> TransitionView {
        TransitionView { from_step: self.from_step@, on: self.on, to_step: opt_view(self.to_step) }
    }
}

/// Graph-definition invariant failure.
#[derive(Debug, Clone, Copy, PartialEq, Eq, Structural)]
pub enum GraphDefinitionError {
    /// The graph declares no step.
    EmptyDefinition,
    /// The graph exceeds the bounded step limit.
    StepLimitExceeded,
    /// The graph declares the same step identity more than once.
    DuplicateStepId,
    /// The graph allows no step visit at all.
    ZeroStepVisits,
    /// The entry step is not a declared step.
    UnknownEntryStep,
    /// The graph exceeds the bounded transition limit.
    TransitionLimitExceeded,
    /// A transition starts or ends at an undeclared step.
    UnknownTransitionStep,
    /// Two transitions leave the same step on the same outcome.
    DuplicateTransition,
}

/// A bounded process graph.
#[derive(Debug, PartialEq, Eq)]
pub struct ProcessGraphDefinition {
    /// Stable immutable definition identity.
    pub definition_id: DefinitionId,
    /// Pinned definition version selected when this process starts.
    pub definition_version: DefinitionVersion,
    /// Digest of the exact definition semantics used for replay.
    pub definition_digest: ContentDigest,
    /// Declared steps.
    pub steps: Vec<StepPlanV1>,
    /// Step whose action starts the process.
    pub entry_step_id: StepId,
    /// Outcome-selected edges between steps.
    pub transitions: Vec<GraphTransition>,
    /// Upper bound on the number of step actions one process may issue.
    pub max_step_visits: u32,
}

/// The view of a graph definition.
pub ghost struct GraphDefinitionView {
    pub definition_id: Seq<char>,
    pub definition_version: Seq<char>,
    pub definition_digest: ContentDigest,
    pub steps: Seq<StepView>,
    pub entry_step_id: Seq<char>,
    pub transitions: Seq<TransitionView>,
    pub max_step_visits: u32,
}

impl View for ProcessGraphDefinition {
    type V = GraphDefinitionView;

    open spec fn view(&self) -> GraphDefinitionView {
        GraphDefinitionView {
            definition_id: self.definition_id@,
            definition_version: self.definition_version@,
            definition_digest: self.definition_digest,
            steps: views(self.steps@),
            entry_step_id: self.entry_step_id@,
            transitions: views(self.transitions@),
            max_step_visits: self.max_step_visits,
        }
    }
}

/// Whether `i` is the first position of a step named `id`.
pub open spec fn is_first_step(steps: Seq<StepView>, id: Seq<char>, i: int) -> bool {
    &&& 0 <= i < steps.len()
    &&& steps[i].step_id == id
    &&& forall|j: int| 0 <= j < i ==> #[trigger] steps[j].step_id != id
}

/// The position of the first step named `id`, if any step has that name.
pub open spec fn first_step_index(steps: Seq<StepView>, id: Seq<char>) -> Option<int> {
    if exists|i: int| 0 <= i < steps.len() && #[trigger] steps[i].step_id == id {
        Some(choose|i: int| is_first_step(steps, id, i))
    } else {
        None
    }
}

/// Whether `i` is the first transition leaving `from` on `on`.
pub open spec fn is_first_transition(
    transitions: Seq<TransitionView>,
    from: Seq<char>,
    on: GraphTransitionOutcome,
    i: int,
) -> bool {
    &&& 0 <= i < transitions.len()
    &&& transitions[i].from_step == from
    &&& transitions[i].on == on
    &&& forall|j: int|
        0 <= j < i ==> !(#[trigger] transitions[j].from_step == from && transitions[j].on == on)
}

/// The position of the first transition leaving `from` on `on`, if any.
pub open spec fn first_transition_index(
    transitions: Seq<TransitionView>,
    from: Seq<char>,
    on: GraphTransitionOutcome,
) -> Option<int> {
    if exists|i: int|
        0 <= i < transitions.len() && #[trigger] transitions[i].from_step == from
            && transitions[i].on == on {
        Some(choose|i: int| is_first_transition(transitions, from, on, i))
    } else {
        None
    }
}

/// Whether a step named `id` is declared.
pub open spec fn declares_step(steps: Seq<StepView>, id: Seq<char>) -> bool {
    exists|i: int| 0 <= i < steps.len() && #[trigger] steps[i].step_id == id
}

/// Whether a transition starts and, if it does not end the process, ends at
/// declared steps.
pub open spec fn transition_steps_declared(steps: Seq<StepView>, t: TransitionView) -> bool {
    &&& declares_step(steps, t.from_step)
    &&& (t.to_step matches Some(to) ==> declares_step(steps, to))
}

/// Whether some transition starts or ends at an undeclared step.
pub open spec fn has_unknown_transition_step(
    steps: Seq<StepView>,
    transitions: Seq<TransitionView>,
) -> bool {
    exists|i: int|
        0 <= i < transitions.len() && !transition_steps_declared(steps, #[trigger] transitions[i])
}

/// Whether two transitions leave the same step on the same outcome.
pub open spec fn has_duplicate_transition(transitions: Seq<TransitionView>) -> bool {
    exists|i: int, j: int|
        0 <= i < j < transitions.len() && #[trigger] transitions[i].from_step
            == #[trigger] transitions[j].from_step && transitions[i].on == transitions[j].on
}

/// The outcome of validating a graph definition view.
pub open spec fn spec_validate_graph(d: GraphDefinitionView) -> Result<(), GraphDefinitionError> {
    if d.steps.len() == 0 {
        Err(GraphDefinitionError::EmptyDefinition)
    } else if d.steps.len() > MAX_DEFINITION_STEPS {
        Err(GraphDefinitionError::StepLimitExceeded)
    } else if steps_have_duplicate_id(d.steps) {
        Err(GraphDefinitionError::DuplicateStepId)
    } else if d.max_step_visits == 0 {
        Err(GraphDefinitionError::ZeroStepVisits)
    } else if !declares_step(d.steps, d.entry_step_id) {
        Err(GraphDefinitionError::UnknownEntryStep)
    } else if d.transitions.len() > MAX_GRAPH_TRANSITIONS {
        Err(GraphDefinitionError::TransitionLimitExceeded)
    } else if has_unknown_transition_step(d.steps, d.transitions) {
        Err(GraphDefinitionError::UnknownTransitionStep)
    } else if has_duplicate_transition(d.transitions) {
        Err(GraphDefinitionError::DuplicateTransition)
    } else {
        Ok(())
    }
}

/// Finds the first declared step named `step_id`.
fn find_step(steps: &Vec<StepPlanV1>, step_id: &StepId) -> (found: Option<usize>)
    ensures
        match found {
            Some(i) => first_step_index(views(steps@), step_id@) == Some(i as int),
            None => first_step_index(views(steps@), step_id@) is None,
        },
        found is Some <==> declares_step(views(steps@), step_id@),
        found matches Some(i) ==> i < steps.len() && is_first_step(views(steps@), step_id@, i as int),
{
    let ghost sv = views(steps@);
    let mut i: usize = 0;
    while i < steps.len()
        invariant
            0 <= i <= steps.len(),
            sv == views(steps@),
            sv.len() == steps@.len(),
            forall|j: int| 0 <= j < i ==> #[trigger] sv[j].step_id != step_id@,
        decreases steps.len() - i,
    {
        assert(sv[i as int] == steps@[i as int]@);
        if steps[i].step_id == *step_id {
            assert(is_first_step(sv, step_id@, i as int));
            let ghost k = choose|k: int| is_first_step(sv, step_id@, k);
            assert(k == i) by {
                if k < i {
                    assert(sv[k].step_id != step_id@);
                } else if k > i {
                    assert(sv[i as int].step_id != step_id@);
                }
            }
            return Some(i);
        }
        i = i + 1;
    }
    None
}

/// Finds the first transition leaving `from` on `on`.
fn find_transition(
    transitions: &Vec<GraphTransition>,
    from: &StepId,
    on: GraphTransitionOutcome,
) -> (found: Option<usize>)
    ensures
        match found {
            Some(i) => first_transition_index(views(transitions@), from@, on) == Some(i as int),
            None => first_transition_index(views(transitions@), from@, on) is None,
        },
        found matches Some(i) ==> i < transitions.len() && is_first_transition(
            views(transitions@),
            from@,
            on,
            i as int,
        ),
{
    let ghost tv = views(transitions@);
    let mut i: usize = 0;
    while i < transitions.len()
        invariant
            0 <= i <= transitions.len(),
            tv == views(transitions@),
            tv.len() == transitions@.len(),
            forall|j: int|
                0 <= j < i ==> !(#[trigger] tv[j].from_step == from@ && tv[j].on == on),
        decreases transitions.len() - i,
    {
        assert(tv[i as int] == transitions@[i as int]@);
        if transitions[i].from_step == *from && transitions[i].on == on {
            assert(is_first_transition(tv, from@, on, i as int));
            let ghost k = choose|k: int| is_first_transition(tv, from@, on, k);
            assert(k == i) by {
                if k < i {
                    assert(!(tv[k].from_step == from@ && tv[k].on == on));
                } else if k > i {
                    assert(!(tv[i as int].from_step == from@ && tv[i as int].on == on));
                }
            }
            return Some(i);
        }
        i = i + 1;
    }
    None
}

fn has_unknown_step(steps: &Vec<StepPlanV1>, transitions: &Vec<GraphTransition>) -> (found: bool)
    ensures
        found == has_unknown_transition_step(views(steps@), views(transitions@)),
{
    let ghost tv = views(transitions@);
    let mut i: usize = 0;
    while i < transitions.len()
        invariant
            0 <= i <= transitions.len(),
            tv == views(transitions@),
            tv.len() == transitions@.len(),
            forall|j: int|
                0 <= j < i ==> transition_steps_declared(views(steps@), #[trigger] tv[j]),
        decreases transitions.len() - i,
    {
        assert(tv[i as int] == transitions@[i as int]@);
        let transition = &transitions[i];
        let from_known = find_step(steps, &transition.from_step).is_some();
        if !from_known {
            assert(!transition_steps_declared(views(steps@), tv[i as int]));
            return true;
        }
        let to_known = match &transition.to_step {
            Some(to) => {
                assert(tv[i as int].to_step == Some(to@));
                find_step(steps, to).is_some()
            },
            None => true,
        };
        if !to_known {
            assert(!transition_steps_declared(views(steps@), tv[i as int]));
            return true;
        }
        assert(transition_steps_declared(views(steps@), tv[i as int]));
        i = i + 1;
    }
    false
}

fn has_repeated_transition(transitions: &Vec<GraphTransition>) -> (found: bool)
    ensures
        found == has_duplicate_transition(views(transitions@)),
{
    let ghost tv = views(transitions@);
    let mut i: usize = 0;
    while i < transitions.len()
        invariant
            0 <= i <= transitions.len(),
            tv == views(transitions@),
            tv.len() == transitions@.len(),
            forall|a: int, b: int|
                0 <= a < i && a < b < tv.len() ==> !(tv[a].from_step == tv[b].from_step && tv[a].on
                    == tv[b].on),
        decreases transitions.len() - i,
    {
        let mut j: usize = i + 1;
        while j < transitions.len()
            invariant
                i < transitions.len(),
                i + 1 <= j <= transitions.len(),
                tv == views(transitions@),
                tv.len() == transitions@.len(),
                forall|a: int, b: int|
                    0 <= a < i && a < b < tv.len() ==> !(tv[a].from_step == tv[b].from_step
                        && tv[a].on == tv[b].on),
                forall|b: int|
                    i < b < j ==> !(tv[i as int].from_step == tv[b].from_step && tv[i as int].on
                        == tv[b].on),
            decreases transitions.len() - j,
        {
            assert(tv[i as int] == transitions@[i as int]@);
            assert(tv[j as int] == transitions@[j as int]@);
            if transitions[i].from_step == transitions[j].from_step && transitions[i].on
                == transitions[j].on {
                assert(tv[i as int].from_step == tv[j as int].from_step && tv[i as int].on
                    == tv[j as int].on);
                return true;
            }
            j = j + 1;
        }
        i = i + 1;
    }
    false
}

impl ProcessGraphDefinition {
    /// Validates the graph: a bounded, non-empty set of uniquely named steps,
    /// a positive visit bound, a declared entry step, and a bounded set of
    /// transitions between declared steps with at most one edge per step and
    /// outcome.
    pub fn validate(&self) -> (result: Result<(), GraphDefinitionError>)
        ensures
            result == spec_validate_graph(self@),
    {
        if self.steps.len() == 0 {
            return Err(GraphDefinitionError::EmptyDefinition);
        }
        if self.steps.len() > MAX_DEFINITION_STEPS {
            return Err(GraphDefinitionError::StepLimitExceeded);
        }
        if steps_have_duplicate(&self.steps) {
            return Err(GraphDefinitionError::DuplicateStepId);
        }
        if self.max_step_visits == 0 {
            return Err(GraphDefinitionError::ZeroStepVisits);
        }
        if find_step(&self.steps, &self.entry_step_id).is_none() {
            return Err(GraphDefinitionError::UnknownEntryStep);
        }
        if self.transitions.len() > MAX_GRAPH_TRANSITIONS {
            return Err(GraphDefinitionError::TransitionLimitExceeded);
        }
        if has_unknown_step(&self.steps, &self.transitions) {
            return Err(GraphDefinitionError::UnknownTransitionStep);
        }
        if has_repeated_transition(&self.transitions) {
            return Err(GraphDefinitionError::DuplicateTransition);
        }
        Ok(())
    }
}

/// Replayable projection for a graph process.
#[derive(Debug, PartialEq, Eq)]
pub struct GraphSagaProjection {
    /// Pinned process scope.
    pub scope: ProcessScope,
    /// Current step awaiting an observation.
    pub current_step_id: Option<StepId>,
    /// Number of step actions issued so far.
    pub step_visits: u32,
    /// Active action identity, if the process is running.
    pub active_action_id: Option<ActionId>,
    /// Every action identity issued by this process.
    pub issued_action_ids: Vec<ActionId>,
    /// Current lifecycle status.
    pub status: SagaStatusV1,
}

/// The view of a graph projection.
pub ghost struct GraphProjectionView {
    pub scope: ScopeView,
    pub current_step_id: Option<Seq<char>>,
    pub step_visits: u32,
    pub active_action_id: Option<Seq<char>>,
    pub issued_action_ids: Seq<Seq<char>>,
    pub status: SagaStatusV1,
}

impl View for GraphSagaProjection {
    type V = GraphProjectionView;

    open spec fn view(&self) -> GraphProjectionView {
        GraphProjectionView {
            scope: self.scope@,
            current_step_id: opt_view(self.current_step_id),
            step_visits: self.step_visits,
            active_action_id: opt_view(self.active_action_id),
            issued_action_ids: views(self.issued_action_ids@),
            status: self.status,
        }
    }
}

fn clone_optional_step_id(id: &Option<StepId>) -> (copy: Option<StepId>)
    ensures
        copy == *id,
{
    match id {
        Some(s) => Some(s.clone()),
        None => None,
    }
}

impl Clone for GraphSagaProjection {
    fn clone(&self) -> (copy: Self)
        ensures
            copy@ == self@,
    {
        let issued = self.issued_action_ids.clone();
        assert(issued@ == self.issued_action_ids@);
        GraphSagaProjection {
            scope: self.scope.clone(),
            current_step_id: clone_optional_step_id(&self.current_step_id),
            step_visits: self.step_visits,
            active_action_id: clone_optional_action_id(&self.active_action_id),
            issued_action_ids: issued,
            status: self.status,
        }
    }
}

/// Typed graph input accepted by the deterministic executor.
#[derive(Debug, PartialEq, Eq)]
#[allow(inconsistent_fields)]
pub enum GraphSagaInput {
    /// Starts a graph at its declared entry step.
    Start {
        /// Immutable inbox identity.
        input_id: InputId,
        /// Fresh action identity for the entry step.
        action_id: ActionId,
    },
    /// Applies a result to the currently active graph action.
    ActionResult {
        /// Immutable inbox identity.
        input_id: InputId,
        /// Correlated result observation.
        observation: ActionResultObservationV1,
        /// Fresh action identity for a selected destination step.
        next_action_id: Option<ActionId>,
    },
}

/// Immutable graph event suitable for an append-only process log.
#[derive(Debug, PartialEq, Eq)]
#[allow(inconsistent_fields)]
pub enum GraphSagaEvent {
    /// Recorded process start.
    Started {
        /// Accepted input identity.
        input_id: InputId,
        /// Entry action identity.
        action_id: ActionId,
    },
    /// Recorded action result and selected next action identity.
    ActionResultObserved {
        /// Accepted input identity.
        input_id: InputId,
        /// Correlated result.
        observation: ActionResultObservationV1,
        /// Destination action identity, when another step is selected.
        next_action_id: Option<ActionId>,
    },
}

impl Clone for GraphSagaEvent {
    fn clone(&self) -> (copy: Self)
        ensures
            copy == *self,
    {
        match self {
            GraphSagaEvent::Started { input_id, action_id } => GraphSagaEvent::Started {
                input_id: input_id.clone(),
                action_id: action_id.clone(),
            },
            GraphSagaEvent::ActionResultObserved { input_id, observation, next_action_id } =>
                GraphSagaEvent::ActionResultObserved {
                input_id: input_id.clone(),
                observation: observation.clone(),
                next_action_id: clone_optional_action_id(next_action_id),
            },
        }
    }
}

impl GraphSagaEvent {
    /// The accepted input identity an event records.
    pub open spec fn spec_input_id(self) -> InputId {
        match self {
            GraphSagaEvent::Started { input_id, .. } => input_id,
            GraphSagaEvent::ActionResultObserved { input_id, .. } => input_id,
        }
    }
}

/// Ordered envelope for graph events in a durable process log.
#[derive(Debug, PartialEq, Eq)]
pub struct GraphSagaEventEnvelope {
    /// Zero-based contiguous position in the process log.
    pub sequence: u64,
    /// Immutable graph event at this position.
    pub event: GraphSagaEvent,
}

/// Graph execution failure.
#[derive(Debug, Clone, Copy, PartialEq, Eq, Structural)]
pub enum GraphEngineError {
    /// Graph definition failed validation.
    InvalidDefinition {
        /// Underlying graph-definition invariant failure.
        source: GraphDefinitionError,
    },
    /// A start was requested for an existing process.
    AlreadyStarted,
    /// A result was supplied without a running process.
    NotRunning,
    /// Result action does not match the active action.
    ActionMismatch,
    /// Input identity was already accepted by the process.
    DuplicateInput,
    /// A destination action identity was missing or unexpectedly present.
    ActionIdentityMismatch,
    /// A fresh action identity was already issued by this process.
    DuplicateActionId,
    /// The graph supplied no edge for the observed result.
    MissingTransition,
    /// The graph's explicit visit bound was exceeded.
    VisitLimitExceeded,
    /// Event replay did not match the pinned process scope.
    ScopeMismatch,
    /// Event sequence was not zero-based and contiguous.
    SequenceMismatch,
    /// Replay input exceeded the bounded process-log limit.
    ReplayLimitExceeded,
}

/// Result of one pure graph decision.
#[derive(Debug, PartialEq, Eq)]
pub struct GraphSagaDecision {
    /// Projection after applying the decision.
    pub projection: GraphSagaProjection,
    /// Action to dispatch, if the process remains runnable.
    pub next_action: Option<ProcessAction>,
    /// Immutable event to append before dispatching the action.
    pub event: GraphSagaEvent,
}

/// The view of a graph decision.
pub ghost struct GraphDecisionView {
    pub projection: GraphProjectionView,
    pub next_action: Option<ActionView>,
    pub event: GraphSagaEvent,
}

impl View for GraphSagaDecision {
    type V = GraphDecisionView;

    open spec fn view(&self) -> GraphDecisionView {
        GraphDecisionView {
            projection: self.projection@,
            next_action: opt_view(self.next_action),
            event: self.event,
        }
    }
}

/// The view of a graph decision result.
pub open spec fn graph_decision_result(r: Result<GraphSagaDecision, GraphEngineError>) -> Result<
    GraphDecisionView,
    GraphEngineError,
> {
    match r {
        Ok(d) => Ok(d@),
        Err(e) => Err(e),
    }
}

/// The graph transition outcome class of an observed result; an unknown
/// result is never routed by an edge and maps to a terminal failure.
pub open spec fn spec_transition_outcome(result: ActionResultV1) -> GraphTransitionOutcome {
    match result {
        ActionResultV1::Succeeded => GraphTransitionOutcome::Succeeded,
        ActionResultV1::RetryableFailure => GraphTransitionOutcome::RetryableFailure,
        _ => GraphTransitionOutcome::TerminalFailure,
    }
}

fn transition_outcome(result: ActionResultV1) -> (outcome: GraphTransitionOutcome)
    ensures
        outcome == spec_transition_outcome(result),
{
    match result {
        ActionResultV1::Succeeded => GraphTransitionOutcome::Succeeded,
        ActionResultV1::RetryableFailure => GraphTransitionOutcome::RetryableFailure,
        ActionResultV1::TerminalFailure | ActionResultV1::Unknown => {
            GraphTransitionOutcome::TerminalFailure
        },
    }
}

/// The action that runs step `step_id` on its `visit`-th visit (attempt
/// `visit - 1`), scoped to `scope`.
pub open spec fn spec_graph_action(
    d: GraphDefinitionView,
    scope: ScopeView,
    step_id: Seq<char>,
    action_id: Seq<char>,
    visit: u32,
) -> Result<ActionView, GraphEngineError> {
    match first_step_index(d.steps, step_id) {
        None => Err(GraphEngineError::ActionIdentityMismatch),
        Some(k) => Ok(
            ActionView {
                scope,
                action_id,
                step_id: d.steps[k].step_id,
                attempt: if visit == 0 {
                    0
                } else {
                    (visit - 1) as u32
                },
                kind: d.steps[k].action_kind,
                payload_digest: d.steps[k].payload_digest,
            },
        ),
    }
}

fn action_for(
    definition: &ProcessGraphDefinition,
    scope: &ProcessScope,
    step_id: &StepId,
    action_id: ActionId,
    visit: u32,
) -> (result: Result<ProcessAction, GraphEngineError>)
    ensures
        match result {
            Ok(action) => spec_graph_action(definition@, scope@, step_id@, action_id@, visit) == Ok::<
                ActionView,
                GraphEngineError,
            >(action@),
            Err(e) => spec_graph_action(definition@, scope@, step_id@, action_id@, visit) == Err::<
                ActionView,
                GraphEngineError,
            >(e),
        },
{
    match find_step(&definition.steps, step_id) {
        None => Err(GraphEngineError::ActionIdentityMismatch),
        Some(k) => {
            let step = &definition.steps[k];
            assert(views(definition.steps@)[k as int] == step@);
            let attempt: u32 = if visit == 0 {
                0
            } else {
                visit - 1
            };
            Ok(
                ProcessAction::new(
                    scope.clone(),
                    action_id,
                    step.step_id.clone(),
                    attempt,
                    step.action_kind,
                    step.payload_digest,
                ),
            )
        },
    }
}

/// A fresh action identity for a destination step: it must be supplied and
/// never issued before by this process.
pub open spec fn spec_graph_fresh_action(p: GraphProjectionView, next: Option<Seq<char>>) -> Result<
    Seq<char>,
    GraphEngineError,
> {
    match next {
        None => Err(GraphEngineError::ActionIdentityMismatch),
        Some(a) => if p.issued_action_ids.contains(a) {
            Err(GraphEngineError::DuplicateActionId)
        } else {
            Ok(a)
        },
    }
}

fn ensure_new_action(projection: &GraphSagaProjection, next_action_id: &Option<ActionId>) -> (result:
    Result<ActionId, GraphEngineError>)
    ensures
        match result {
            Ok(a) => spec_graph_fresh_action(projection@, opt_view(*next_action_id)) == Ok::<
                Seq<char>,
                GraphEngineError,
            >(a@),
            Err(e) => spec_graph_fresh_action(projection@, opt_view(*next_action_id)) == Err::<
                Seq<char>,
                GraphEngineError,
            >(e),
        },
{
    match next_action_id {
        None => Err(GraphEngineError::ActionIdentityMismatch),
        Some(action_id) => {
            if issued_contains(&projection.issued_action_ids, action_id) {
                Err(GraphEngineError::DuplicateActionId)
            } else {
                Ok(action_id.clone())
            }
        },
    }
}

/// The scope a graph process runs in: the tenant, the process and the
/// definition's pinned identity.
pub open spec fn graph_scope(d: GraphDefinitionView, tenant: Seq<char>, process: Seq<char>) -> ScopeView {
    ScopeView {
        tenant_id: tenant,
        process_id: process,
        definition_id: d.definition_id,
        definition_version: d.definition_version,
        definition_digest: d.definition_digest,
    }
}

/// Starting a graph: a valid definition, a start input, the entry step's
/// first visit planned under the input's action identity.
pub open spec fn spec_start_graph(
    d: GraphDefinitionView,
    tenant: Seq<char>,
    process: Seq<char>,
    input: GraphSagaInput,
) -> Result<GraphDecisionView, GraphEngineError> {
    match spec_validate_graph(d) {
        Err(source) => Err(GraphEngineError::InvalidDefinition { source }),
        Ok(_) => match input {
            GraphSagaInput::Start { input_id, action_id } => {
                let scope = graph_scope(d, tenant, process);
                match spec_graph_action(d, scope, d.entry_step_id, action_id@, 1) {
                    Err(e) => Err(e),
                    Ok(action) => Ok(
                        GraphDecisionView {
                            projection: GraphProjectionView {
                                scope,
                                current_step_id: Some(d.entry_step_id),
                                step_visits: 1,
                                active_action_id: Some(action_id@),
                                issued_action_ids: seq![action_id@],
                                status: SagaStatusV1::Running,
                            },
                            next_action: Some(action),
                            event: GraphSagaEvent::Started { input_id, action_id },
                        },
                    ),
                }
            },
            _ => Err(GraphEngineError::AlreadyStarted),
        },
    }
}

/// Starts a graph process at its validated entry step.
pub fn start_graph(
    definition: &ProcessGraphDefinition,
    tenant_id: TenantId,
    process_id: ProcessId,
    input: GraphSagaInput,
) -> (result: Result<GraphSagaDecision, GraphEngineError>)
    ensures
        graph_decision_result(result) == spec_start_graph(
            definition@,
            tenant_id@,
            process_id@,
            input,
        ),
{
    match definition.validate() {
        Err(source) => {
            return Err(GraphEngineError::InvalidDefinition { source });
        },
        Ok(()) => {},
    }
    let (input_id, action_id) = match input {
        GraphSagaInput::Start { input_id, action_id } => (input_id, action_id),
        _ => {
            return Err(GraphEngineError::AlreadyStarted);
        },
    };
    let scope = ProcessScope::new(
        tenant_id,
        process_id,
        definition.definition_id.clone(),
        definition.definition_version.clone(),
        definition.definition_digest,
    );
    let action = match action_for(definition, &scope, &definition.entry_step_id, action_id.clone(), 1)
    {
        Err(e) => {
            return Err(e);
        },
        Ok(a) => a,
    };
    let mut issued: Vec<ActionId> = Vec::new();
    issued.push(action_id.clone());
    assert(views(issued@) =~= seq![action_id@]);
    let projection = GraphSagaProjection {
        scope,
        current_step_id: Some(definition.entry_step_id.clone()),
        step_visits: 1,
        active_action_id: Some(action_id.clone()),
        issued_action_ids: issued,
        status: SagaStatusV1::Running,
    };
    Ok(
        GraphSagaDecision {
            projection,
            next_action: Some(action),
            event: GraphSagaEvent::Started { input_id, action_id },
        },
    )
}


/// Applying a correlated result: the definition must be valid, the input a
/// result for the running process's active action. An unknown result
/// escalates without following an edge; otherwise the first edge leaving
/// the current step on the result's outcome class is followed, either to a
/// destination step (a fresh action within the visit bound) or to the end of
/// the process (completed after a success, escalated after a failure).
pub open spec fn spec_apply_graph_result(
    d: GraphDefinitionView,
    p: GraphProjectionView,
    input: GraphSagaInput,
) -> Result<GraphDecisionView, GraphEngineError> {
    match spec_validate_graph(d) {
        Err(source) => Err(GraphEngineError::InvalidDefinition { source }),
        Ok(_) => match input {
            GraphSagaInput::ActionResult { input_id, observation, next_action_id } => {
                let event = GraphSagaEvent::ActionResultObserved {
                    input_id,
                    observation,
                    next_action_id,
                };
                if p.status != SagaStatusV1::Running {
                    Err(GraphEngineError::NotRunning)
                } else if p.active_action_id != Some(observation.action_id@) {
                    Err(GraphEngineError::ActionMismatch)
                } else if p.current_step_id is None {
                    Err(GraphEngineError::NotRunning)
                } else if observation.result == ActionResultV1::Unknown {
                    if next_action_id is Some {
                        Err(GraphEngineError::ActionIdentityMismatch)
                    } else {
                        Ok(
                            GraphDecisionView {
                                projection: GraphProjectionView {
                                    current_step_id: None,
                                    active_action_id: None,
                                    status: SagaStatusV1::Escalated,
                                    ..p
                                },
                                next_action: None,
                                event,
                            },
                        )
                    }
                } else {
                    match first_transition_index(
                        d.transitions,
                        p.current_step_id->0,
                        spec_transition_outcome(observation.result),
                    ) {
                        None => Err(GraphEngineError::MissingTransition),
                        Some(t) => match d.transitions[t].to_step {
                            Some(to) => match spec_graph_fresh_action(p, opt_view(next_action_id)) {
                                Err(e) => Err(e),
                                Ok(a) => if p.step_visits == u32::MAX || p.step_visits + 1
                                    > d.max_step_visits {
                                    Err(GraphEngineError::VisitLimitExceeded)
                                } else {
                                    let visits = (p.step_visits + 1) as u32;
                                    match spec_graph_action(d, p.scope, to, a, visits) {
                                        Err(e) => Err(e),
                                        Ok(action) => Ok(
                                            GraphDecisionView {
                                                projection: GraphProjectionView {
                                                    current_step_id: Some(to),
                                                    step_visits: visits,
                                                    active_action_id: Some(a),
                                                    issued_action_ids: p.issued_action_ids.push(a),
                                                    ..p
                                                },
                                                next_action: Some(action),
                                                event,
                                            },
                                        ),
                                    }
                                },
                            },
                            None => if next_action_id is Some {
                                Err(GraphEngineError::ActionIdentityMismatch)
                            } else {
                                Ok(
                                    GraphDecisionView {
                                        projection: GraphProjectionView {
                                            current_step_id: None,
                                            active_action_id: None,
                                            status: if observation.result
                                                == ActionResultV1::Succeeded {
                                                SagaStatusV1::Completed
                                            } else {
                                                SagaStatusV1::Escalated
                                            },
                                            ..p
                                        },
                                        next_action: None,
                                        event,
                                    },
                                )
                            },
                        },
                    }
                }
            },
            _ => Err(GraphEngineError::NotRunning),
        },
    }
}

fn same_active(active: &Option<ActionId>, observed: &ActionId) -> (same: bool)
    ensures
        same == (opt_view(*active) == Some(observed@)),
{
    match active {
        Some(a) => *a == *observed,
        None => false,
    }
}

/// Applies one correlated graph action result.
pub fn apply_graph_result(
    definition: &ProcessGraphDefinition,
    projection: &GraphSagaProjection,
    input: GraphSagaInput,
) -> (result: Result<GraphSagaDecision, GraphEngineError>)
    ensures
        graph_decision_result(result) == spec_apply_graph_result(definition@, projection@, input),
{
    match definition.validate() {
        Err(source) => {
            return Err(GraphEngineError::InvalidDefinition { source });
        },
        Ok(()) => {},
    }
    let (input_id, observation, next_action_id) = match input {
        GraphSagaInput::ActionResult { input_id, observation, next_action_id } => (
            input_id,
            observation,
            next_action_id,
        ),
        _ => {
            return Err(GraphEngineError::NotRunning);
        },
    };
    if projection.status != SagaStatusV1::Running {
        return Err(GraphEngineError::NotRunning);
    }
    if !same_active(&projection.active_action_id, &observation.action_id) {
        return Err(GraphEngineError::ActionMismatch);
    }
    let step_id = match &projection.current_step_id {
        None => {
            return Err(GraphEngineError::NotRunning);
        },
        Some(step_id) => step_id,
    };
    if observation.result == ActionResultV1::Unknown {
        if next_action_id.is_some() {
            return Err(GraphEngineError::ActionIdentityMismatch);
        }
        let copy = projection.clone();
        let escalated = GraphSagaProjection {
            current_step_id: None,
            active_action_id: None,
            status: SagaStatusV1::Escalated,
            ..copy
        };
        return Ok(
            GraphSagaDecision {
                projection: escalated,
                next_action: None,
                event: GraphSagaEvent::ActionResultObserved {
                    input_id,
                    observation,
                    next_action_id,
                },
            },
        );
    }
    let outcome = transition_outcome(observation.result);
    let t = match find_transition(&definition.transitions, step_id, outcome) {
        None => {
            return Err(GraphEngineError::MissingTransition);
        },
        Some(t) => t,
    };
    let transition = &definition.transitions[t];
    assert(views(definition.transitions@)[t as int] == transition@);
    let copy = projection.clone();
    match &transition.to_step {
        Some(to_step) => {
            let action_id = match ensure_new_action(projection, &next_action_id) {
                Err(e) => {
                    return Err(e);
                },
                Ok(a) => a,
            };
            if projection.step_visits == u32::MAX {
                return Err(GraphEngineError::VisitLimitExceeded);
            }
            let next_visits = projection.step_visits + 1;
            if next_visits > definition.max_step_visits {
                return Err(GraphEngineError::VisitLimitExceeded);
            }
            let action = match action_for(
                definition,
                &projection.scope,
                to_step,
                action_id.clone(),
                next_visits,
            ) {
                Err(e) => {
                    return Err(e);
                },
                Ok(a) => a,
            };
            let mut issued = projection.issued_action_ids.clone();
            assert(issued@ == projection.issued_action_ids@);
            let ghost before = issued@;
            issued.push(action_id.clone());
            assert(views(issued@) =~= views(before).push(action_id@));
            let advanced = GraphSagaProjection {
                current_step_id: Some(to_step.clone()),
                step_visits: next_visits,
                active_action_id: Some(action_id),
                issued_action_ids: issued,
                ..copy
            };
            Ok(
                GraphSagaDecision {
                    projection: advanced,
                    next_action: Some(action),
                    event: GraphSagaEvent::ActionResultObserved {
                        input_id,
                        observation,
                        next_action_id,
                    },
                },
            )
        },
        None => {
            if next_action_id.is_some() {
                return Err(GraphEngineError::ActionIdentityMismatch);
            }
            let status = if observation.result == ActionResultV1::Succeeded {
                SagaStatusV1::Completed
            } else {
                SagaStatusV1::Escalated
            };
            let finished = GraphSagaProjection {
                current_step_id: None,
                active_action_id: None,
                status,
                ..copy
            };
            Ok(
                GraphSagaDecision {
                    projection: finished,
                    next_action: None,
                    event: GraphSagaEvent::ActionResultObserved {
                        input_id,
                        observation,
                        next_action_id,
                    },
                },
            )
        },
    }
}


/// Whether one of the first `n` events records the input identity `id`.
pub open spec fn input_seen(events: Seq<GraphSagaEvent>, n: int, id: Seq<char>) -> bool {
    exists|j: int| 0 <= j < n && #[trigger] events[j].spec_input_id()@ == id
}

/// One graph replay step: a start record rebuilds the initial projection, a
/// result record is applied to the projection rebuilt so far, and any other
/// order is refused.
pub open spec fn spec_graph_replay_step(
    d: GraphDefinitionView,
    tenant: Seq<char>,
    process: Seq<char>,
    current: Option<GraphProjectionView>,
    event: GraphSagaEvent,
) -> Result<Option<GraphProjectionView>, GraphEngineError> {
    match current {
        None => match event {
            GraphSagaEvent::Started { input_id, action_id } => match spec_start_graph(
                d,
                tenant,
                process,
                GraphSagaInput::Start { input_id, action_id },
            ) {
                Ok(decision) => Ok(Some(decision.projection)),
                Err(e) => Err(e),
            },
            _ => Err(GraphEngineError::AlreadyStarted),
        },
        Some(c) => match event {
            GraphSagaEvent::ActionResultObserved { input_id, observation, next_action_id } =>
                match spec_apply_graph_result(
                d,
                c,
                GraphSagaInput::ActionResult { input_id, observation, next_action_id },
            ) {
                Ok(decision) => Ok(Some(decision.projection)),
                Err(e) => Err(e),
            },
            _ => Err(GraphEngineError::AlreadyStarted),
        },
    }
}

/// The graph replay state after the first `n` events: the first failing
/// event's error (a repeated input identity among them), or the projection
/// rebuilt so far.
pub open spec fn spec_graph_replay_prefix(
    d: GraphDefinitionView,
    tenant: Seq<char>,
    process: Seq<char>,
    events: Seq<GraphSagaEvent>,
    n: nat,
) -> Result<Option<GraphProjectionView>, GraphEngineError>
    decreases n,
{
    if n == 0 {
        Ok(None)
    } else {
        match spec_graph_replay_prefix(d, tenant, process, events, (n - 1) as nat) {
            Err(e) => Err(e),
            Ok(current) => if input_seen(events, n - 1, events[n - 1].spec_input_id()@) {
                Err(GraphEngineError::DuplicateInput)
            } else {
                spec_graph_replay_step(d, tenant, process, current, events[n - 1])
            },
        }
    }
}

/// The projection rebuilt from a whole bounded graph log.
pub open spec fn spec_replay_graph(
    d: GraphDefinitionView,
    tenant: Seq<char>,
    process: Seq<char>,
    events: Seq<GraphSagaEvent>,
) -> Result<GraphProjectionView, GraphEngineError> {
    if events.len() > MAX_GRAPH_REPLAY_EVENTS {
        Err(GraphEngineError::ReplayLimitExceeded)
    } else {
        match spec_graph_replay_prefix(d, tenant, process, events, events.len()) {
            Err(e) => Err(e),
            Ok(None) => Err(GraphEngineError::NotRunning),
            Ok(Some(projection)) => Ok(projection),
        }
    }
}

/// The view of a graph replay result.
pub open spec fn graph_projection_result(r: Result<GraphSagaProjection, GraphEngineError>) -> Result<
    GraphProjectionView,
    GraphEngineError,
> {
    match r {
        Ok(p) => Ok(p@),
        Err(e) => Err(e),
    }
}

/// Once a graph replay prefix fails, every longer prefix fails with the same
/// error.
pub proof fn lemma_graph_replay_error_persists(
    d: GraphDefinitionView,
    tenant: Seq<char>,
    process: Seq<char>,
    events: Seq<GraphSagaEvent>,
    m: nat,
    n: nat,
)
    requires
        m <= n,
        spec_graph_replay_prefix(d, tenant, process, events, m) is Err,
    ensures
        spec_graph_replay_prefix(d, tenant, process, events, n) == spec_graph_replay_prefix(
            d,
            tenant,
            process,
            events,
            m,
        ),
    decreases n - m,
{
    if m < n {
        lemma_graph_replay_error_persists(d, tenant, process, events, m, (n - 1) as nat);
    }
}

fn event_input_id(event: &GraphSagaEvent) -> (id: &InputId)
    ensures
        *id == event.spec_input_id(),
{
    match event {
        GraphSagaEvent::Started { input_id, .. } => input_id,
        GraphSagaEvent::ActionResultObserved { input_id, .. } => input_id,
    }
}

fn graph_replay_step(
    definition: &ProcessGraphDefinition,
    tenant_id: &TenantId,
    process_id: &ProcessId,
    current: Option<GraphSagaProjection>,
    event: &GraphSagaEvent,
) -> (result: Result<Option<GraphSagaProjection>, GraphEngineError>)
    ensures
        match result {
            Ok(next) => spec_graph_replay_step(
                definition@,
                tenant_id@,
                process_id@,
                opt_view(current),
                *event,
            ) == Ok::<Option<GraphProjectionView>, GraphEngineError>(opt_view(next)),
            Err(e) => spec_graph_replay_step(
                definition@,
                tenant_id@,
                process_id@,
                opt_view(current),
                *event,
            ) == Err::<Option<GraphProjectionView>, GraphEngineError>(e),
        },
{
    match current {
        None => match event {
            GraphSagaEvent::Started { input_id, action_id } => {
                match start_graph(
                    definition,
                    tenant_id.clone(),
                    process_id.clone(),
                    GraphSagaInput::Start { input_id: input_id.clone(), action_id: action_id.clone() },
                ) {
                    Ok(decision) => Ok(Some(decision.projection)),
                    Err(e) => Err(e),
                }
            },
            _ => Err(GraphEngineError::AlreadyStarted),
        },
        Some(c) => match event {
            GraphSagaEvent::ActionResultObserved { input_id, observation, next_action_id } => {
                match apply_graph_result(
                    definition,
                    &c,
                    GraphSagaInput::ActionResult {
                        input_id: input_id.clone(),
                        observation: observation.clone(),
                        next_action_id: clone_optional_action_id(next_action_id),
                    },
                ) {
                    Ok(decision) => Ok(Some(decision.projection)),
                    Err(e) => Err(e),
                }
            },
            _ => Err(GraphEngineError::AlreadyStarted),
        },
    }
}

fn input_accepted(accepted: &Vec<InputId>, id: &InputId) -> (found: bool)
    ensures
        found == exists|j: int| 0 <= j < accepted@.len() && #[trigger] accepted@[j]@ == id@,
{
    let mut i: usize = 0;
    while i < accepted.len()
        invariant
            0 <= i <= accepted.len(),
            forall|j: int| 0 <= j < i ==> #[trigger] accepted@[j]@ != id@,
        decreases accepted.len() - i,
    {
        if accepted[i] == *id {
            assert(accepted@[i as int]@ == id@);
            return true;
        }
        i = i + 1;
    }
    false
}

/// Replays graph events into a deterministic projection.
///
/// A log longer than [`MAX_GRAPH_REPLAY_EVENTS`] is refused before any
/// event is evaluated; each event's input identity must be new to the log.
pub fn replay_graph(
    definition: &ProcessGraphDefinition,
    tenant_id: &TenantId,
    process_id: &ProcessId,
    events: &[GraphSagaEvent],
) -> (result: Result<GraphSagaProjection, GraphEngineError>)
    ensures
        graph_projection_result(result) == spec_replay_graph(
            definition@,
            tenant_id@,
            process_id@,
            events@,
        ),
{
    if events.len() > MAX_GRAPH_REPLAY_EVENTS {
        return Err(GraphEngineError::ReplayLimitExceeded);
    }
    let mut projection: Option<GraphSagaProjection> = None;
    let mut accepted: Vec<InputId> = Vec::new();
    let mut i: usize = 0;
    while i < events.len()
        invariant
            0 <= i <= events.len(),
            events.len() <= MAX_GRAPH_REPLAY_EVENTS,
            accepted@.len() == i,
            forall|j: int| 0 <= j < i ==> #[trigger] accepted@[j]@ == events@[j].spec_input_id()@,
            spec_graph_replay_prefix(definition@, tenant_id@, process_id@, events@, i as nat)
                == Ok::<Option<GraphProjectionView>, GraphEngineError>(opt_view(projection)),
        decreases events.len() - i,
    {
        let event = &events[i];
        let observed = event_input_id(event);
        let seen = input_accepted(&accepted, observed);
        assert(seen == input_seen(events@, i as int, events@[i as int].spec_input_id()@)) by {
            if seen {
                let j = choose|j: int| 0 <= j < accepted@.len() && #[trigger] accepted@[j]@ == observed@;
                assert(events@[j].spec_input_id()@ == events@[i as int].spec_input_id()@);
            }
            if input_seen(events@, i as int, events@[i as int].spec_input_id()@) {
                let j = choose|j: int| 0 <= j < i && #[trigger] events@[j].spec_input_id()@
                    == events@[i as int].spec_input_id()@;
                assert(accepted@[j]@ == observed@);
            }
        }
        if seen {
            proof {
                lemma_graph_replay_error_persists(
                    definition@,
                    tenant_id@,
                    process_id@,
                    events@,
                    (i + 1) as nat,
                    events@.len(),
                );
            }
            return Err(GraphEngineError::DuplicateInput);
        }
        accepted.push(observed.clone());
        match graph_replay_step(definition, tenant_id, process_id, projection, event) {
            Err(e) => {
                proof {
                    lemma_graph_replay_error_persists(
                        definition@,
                        tenant_id@,
                        process_id@,
                        events@,
                        (i + 1) as nat,
                        events@.len(),
                    );
                }
                return Err(e);
            },
            Ok(next) => {
                projection = next;
            },
        }
        i = i + 1;
    }
    match projection {
        Some(p) => Ok(p),
        None => Err(GraphEngineError::NotRunning),
    }
}

/// Whether every graph envelope carries its zero-based position.
pub open spec fn graph_sequence_is_contiguous(envelopes: Seq<GraphSagaEventEnvelope>) -> bool {
    forall|i: int| 0 <= i < envelopes.len() ==> #[trigger] envelopes[i].sequence == i
}

/// The events carried by a sequence of graph envelopes, in order.
pub open spec fn graph_envelope_events(envelopes: Seq<GraphSagaEventEnvelope>) -> Seq<
    GraphSagaEvent,
> {
    envelopes.map_values(|e: GraphSagaEventEnvelope| e.event)
}

/// Replays graph events after validating their durable sequence envelope:
/// an oversized log is refused first, then any gap, duplicate or reordered
/// envelope, before any event is evaluated.
pub fn replay_graph_ordered(
    definition: &ProcessGraphDefinition,
    tenant_id: &TenantId,
    process_id: &ProcessId,
    events: &[GraphSagaEventEnvelope],
) -> (result: Result<GraphSagaProjection, GraphEngineError>)
    ensures
        graph_projection_result(result) == if events@.len() > MAX_GRAPH_REPLAY_EVENTS {
            Err(GraphEngineError::ReplayLimitExceeded)
        } else if !graph_sequence_is_contiguous(events@) {
            Err(GraphEngineError::SequenceMismatch)
        } else {
            spec_replay_graph(definition@, tenant_id@, process_id@, graph_envelope_events(events@))
        },
{
    if events.len() > MAX_GRAPH_REPLAY_EVENTS {
        return Err(GraphEngineError::ReplayLimitExceeded);
    }
    let mut unwrapped: Vec<GraphSagaEvent> = Vec::new();
    let mut i: usize = 0;
    while i < events.len()
        invariant
            0 <= i <= events.len(),
            events.len() <= MAX_GRAPH_REPLAY_EVENTS,
            forall|k: int| 0 <= k < i ==> #[trigger] events@[k].sequence == k,
            unwrapped@ == graph_envelope_events(events@.subrange(0, i as int)),
        decreases events.len() - i,
    {
        if events[i].sequence != i as u64 {
            assert(events@[i as int].sequence != i);
            return Err(GraphEngineError::SequenceMismatch);
        }
        unwrapped.push(events[i].event.clone());
        proof {
            assert(graph_envelope_events(events@.subrange(0, i + 1)) =~= graph_envelope_events(
                events@.subrange(0, i as int),
            ).push(events@[i as int].event));
        }
        i = i + 1;
    }
    proof {
        assert(events@.subrange(0, events@.len() as int) =~= events@);
    }
    replay_graph(definition, tenant_id, process_id, unwrapped.as_slice())
}


// ---------------------------------------------------------------------------
// Laws of the graph engine.
// ---------------------------------------------------------------------------

/// An accepted start plans the entry step's first visit, within the bound.
pub proof fn lemma_start_visits_once(
    d: GraphDefinitionView,
    tenant: Seq<char>,
    process: Seq<char>,
    input: GraphSagaInput,
)
    ensures
        spec_start_graph(d, tenant, process, input) matches Ok(decision)
            ==> decision.projection.step_visits == 1 && 1 <= d.max_step_visits,
{
}

/// An accepted result never lets a process exceed its explicit visit
/// bound: it either issues no new step action, or issues one more visit
/// that stays within `max_step_visits`.
pub proof fn lemma_result_respects_visit_bound(
    d: GraphDefinitionView,
    p: GraphProjectionView,
    input: GraphSagaInput,
)
    ensures
        spec_apply_graph_result(d, p, input) matches Ok(decision) ==> ({
            ||| decision.projection.step_visits == p.step_visits && decision.next_action is None
            ||| decision.projection.step_visits == p.step_visits + 1
                && decision.projection.step_visits <= d.max_step_visits
        }),
{
}

/// An unknown result never follows an edge: the process escalates with no
/// further action.
pub proof fn lemma_graph_unknown_result_escalates(
    d: GraphDefinitionView,
    p: GraphProjectionView,
    input: GraphSagaInput,
)
    ensures
        (input matches GraphSagaInput::ActionResult { observation, .. }
            && observation.result == ActionResultV1::Unknown) ==> (spec_apply_graph_result(
            d,
            p,
            input,
        ) matches Ok(decision) ==> decision.next_action is None && decision.projection.status
            == SagaStatusV1::Escalated),
{
}

/// Whether the first `n` events record pairwise distinct input identities.
pub open spec fn inputs_distinct(events: Seq<GraphSagaEvent>, n: int) -> bool {
    forall|i: int, j: int|
        0 <= i < j < n ==> #[trigger] events[i].spec_input_id()@ != #[trigger] events[j].spec_input_id()@
}

proof fn lemma_accepted_prefix_has_distinct_inputs(
    d: GraphDefinitionView,
    tenant: Seq<char>,
    process: Seq<char>,
    events: Seq<GraphSagaEvent>,
    n: nat,
)
    requires
        n <= events.len(),
        spec_graph_replay_prefix(d, tenant, process, events, n) is Ok,
    ensures
        inputs_distinct(events, n as int),
    decreases n,
{
    if n > 0 {
        let m = (n - 1) as nat;
        lemma_accepted_prefix_has_distinct_inputs(d, tenant, process, events, m);
        assert forall|i: int, j: int| 0 <= i < j < n implies #[trigger] events[i].spec_input_id()@
            != #[trigger] events[j].spec_input_id()@ by {
            if j == m {
                if events[i].spec_input_id()@ == events[j].spec_input_id()@ {
                    assert(input_seen(events, m as int, events[m as int].spec_input_id()@));
                }
            }
        }
    }
}

/// A graph log that replays successfully never records the same input
/// identity twice: duplicate deliveries are refused, not applied again.
pub proof fn lemma_replayed_graph_inputs_are_distinct(
    d: GraphDefinitionView,
    tenant: Seq<char>,
    process: Seq<char>,
    events: Seq<GraphSagaEvent>,
)
    requires
        spec_replay_graph(d, tenant, process, events) is Ok,
    ensures
        inputs_distinct(events, events.len() as int),
{
    lemma_accepted_prefix_has_distinct_inputs(d, tenant, process, events, events.len());
}

proof fn lemma_graph_replay_prefix_extends(
    d: GraphDefinitionView,
    tenant: Seq<char>,
    process: Seq<char>,
    events: Seq<GraphSagaEvent>,
    event: GraphSagaEvent,
    n: nat,
)
    requires
        n <= events.len(),
    ensures
        spec_graph_replay_prefix(d, tenant, process, events.push(event), n)
            == spec_graph_replay_prefix(d, tenant, process, events, n),
    decreases n,
{
    if n > 0 {
        lemma_graph_replay_prefix_extends(d, tenant, process, events, event, (n - 1) as nat);
        let extended = events.push(event);
        assert(extended[n - 1] == events[n - 1]);
        assert(input_seen(extended, n - 1, extended[n - 1].spec_input_id()@) == input_seen(
            events,
            n - 1,
            events[n - 1].spec_input_id()@,
        )) by {
            if input_seen(extended, n - 1, extended[n - 1].spec_input_id()@) {
                let k = choose|k: int| 0 <= k < n - 1 && #[trigger] extended[k].spec_input_id()@
                    == extended[n - 1].spec_input_id()@;
                assert(events[k] == extended[k]);
            }
            if input_seen(events, n - 1, events[n - 1].spec_input_id()@) {
                let k = choose|k: int| 0 <= k < n - 1 && #[trigger] events[k].spec_input_id()@
                    == events[n - 1].spec_input_id()@;
                assert(events[k] == extended[k]);
            }
        }
    }
}

/// Replaying one more result record with a new input identity after a
/// bounded graph log that replays successfully yields exactly the projection
/// of the live result transition: live execution and replay converge.
pub proof fn lemma_graph_replay_applies_live_result(
    d: GraphDefinitionView,
    tenant: Seq<char>,
    process: Seq<char>,
    events: Seq<GraphSagaEvent>,
    input_id: InputId,
    observation: ActionResultObservationV1,
    next_action_id: Option<ActionId>,
)
    requires
        spec_replay_graph(d, tenant, process, events) is Ok,
        events.len() < MAX_GRAPH_REPLAY_EVENTS,
        !input_seen(events, events.len() as int, input_id@),
    ensures
        spec_replay_graph(
            d,
            tenant,
            process,
            events.push(
                GraphSagaEvent::ActionResultObserved { input_id, observation, next_action_id },
            ),
        ) == match spec_apply_graph_result(
            d,
            spec_replay_graph(d, tenant, process, events)->Ok_0,
            GraphSagaInput::ActionResult { input_id, observation, next_action_id },
        ) {
            Ok(decision) => Ok(decision.projection),
            Err(e) => Err(e),
        },
{
    let event = GraphSagaEvent::ActionResultObserved { input_id, observation, next_action_id };
    let n = events.len();
    lemma_graph_replay_prefix_extends(d, tenant, process, events, event, n);
    let extended = events.push(event);
    assert(extended[n as int] == event);
    assert(input_seen(extended, n as int, extended[n as int].spec_input_id()@) == input_seen(
        events,
        n as int,
        input_id@,
    )) by {
        if input_seen(extended, n as int, extended[n as int].spec_input_id()@) {
            let k = choose|k: int| 0 <= k < n && #[trigger] extended[k].spec_input_id()@
                == extended[n as int].spec_input_id()@;
            assert(events[k] == extended[k]);
        }
    }
}

/// Replaying the start record of a graph rebuilds exactly the projection
/// of the live start.
pub proof fn lemma_graph_replay_of_start_record(
    d: GraphDefinitionView,
    tenant: Seq<char>,
    process: Seq<char>,
    input_id: InputId,
    action_id: ActionId,
)
    ensures
        spec_replay_graph(
            d,
            tenant,
            process,
            seq![GraphSagaEvent::Started { input_id, action_id }],
        ) == match spec_start_graph(
            d,
            tenant,
            process,
            GraphSagaInput::Start { input_id, action_id },
        ) {
            Ok(decision) => Ok(decision.projection),
            Err(e) => Err(e),
        },
{
    let events = seq![GraphSagaEvent::Started { input_id, action_id }];
    assert(!input_seen(events, 0, events[0].spec_input_id()@));
    assert(spec_graph_replay_prefix(d, tenant, process, events, 0) == Ok::<
        Option<GraphProjectionView>,
        GraphEngineError,
    >(None));
}


/// An accepted result either moves the running process to a destination
/// step with a new action, or ends it with no action: completed exactly when
/// the observed result succeeded, and escalated after any failure or unknown
/// result.
pub proof fn lemma_graph_end_is_completed_only_after_success(
    d: GraphDefinitionView,
    p: GraphProjectionView,
    input: GraphSagaInput,
)
    ensures
        spec_apply_graph_result(d, p, input) matches Ok(decision) ==> (input matches
            GraphSagaInput::ActionResult { observation, .. } && {
            &&& decision.next_action is Some ==> decision.projection.status
                == SagaStatusV1::Running
            &&& decision.next_action is None ==> (decision.projection.status
                == SagaStatusV1::Completed || decision.projection.status
                == SagaStatusV1::Escalated)
            &&& decision.next_action is None ==> (decision.projection.status
                == SagaStatusV1::Completed <==> observation.result == ActionResultV1::Succeeded)
        }),
{
}

/// A step named `id` at position `i` means some first position names it.
proof fn lemma_first_step_exists(steps: Seq<StepView>, id: Seq<char>, i: int)
    requires
        0 <= i < steps.len(),
        steps[i].step_id == id,
    ensures
        exists|k: int| is_first_step(steps, id, k),
    decreases i,
{
    if exists|j: int| 0 <= j < i && #[trigger] steps[j].step_id == id {
        let j = choose|j: int| 0 <= j < i && #[trigger] steps[j].step_id == id;
        lemma_first_step_exists(steps, id, j);
    } else {
        assert(is_first_step(steps, id, i));
    }
}

/// The first position of a named step, when there is one, holds a step of
/// that name.
proof fn lemma_first_step_index_names_the_step(steps: Seq<StepView>, id: Seq<char>)
    ensures
        first_step_index(steps, id) matches Some(k) ==> 0 <= k < steps.len() && steps[k].step_id
            == id,
{
    if exists|i: int| 0 <= i < steps.len() && #[trigger] steps[i].step_id == id {
        let i = choose|i: int| 0 <= i < steps.len() && #[trigger] steps[i].step_id == id;
        lemma_first_step_exists(steps, id, i);
    }
}

/// The action planned for a destination step runs that declared step: the
/// step's own identity, action kind and payload digest, at the attempt of
/// its visit, in the process's scope.
pub proof fn lemma_graph_action_runs_the_declared_step(
    d: GraphDefinitionView,
    p: GraphProjectionView,
    input: GraphSagaInput,
)
    ensures
        spec_apply_graph_result(d, p, input) matches Ok(decision) ==> (decision.next_action
            matches Some(action) ==> {
            &&& decision.projection.current_step_id == Some(action.step_id)
            &&& first_step_index(d.steps, action.step_id) matches Some(k) && d.steps[k].step_id
                == action.step_id && d.steps[k].action_kind == action.kind
                && d.steps[k].payload_digest == action.payload_digest
            &&& action.attempt + 1 == decision.projection.step_visits
            &&& action.scope == p.scope
        }),
{
    if spec_apply_graph_result(d, p, input) is Ok {
        if let GraphSagaInput::ActionResult { observation, .. } = input {
            if let Some(t) = first_transition_index(
                d.transitions,
                p.current_step_id->0,
                spec_transition_outcome(observation.result),
            ) {
                if let Some(to) = d.transitions[t].to_step {
                    lemma_first_step_index_names_the_step(d.steps, to);
                }
            }
        }
    }
}

} // verus!
