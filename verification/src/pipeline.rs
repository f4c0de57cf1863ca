//! The invocation state machine: the decisions of one complete pipeline run.
//!
//! One invocation drives a fixed lifecycle: create a single-use worker bound
//! to one module and one grant set, run the module's top-level code to
//! completion, look up the named global function, call it with the marshaled
//! argument, and marshal its return value back. The engine-side work itself
//! is performed by an unverified host shell: the machine hands it one
//! [`EngineAction`] at a time, the shell performs it and reports an
//! [`EngineEvent`] back. Every decision — what to do next, how each failure
//! short-circuits the rest, and what the final outcome is — is taken here.

use vstd::prelude::*;

use crate::errors::BridgeError;
use crate::errors::ErrorModel;
use crate::permissions::GrantSetModel;
use crate::permissions::PermissionGrantSet;
use crate::value::EngineModel;
use crate::value::EngineValue;
use crate::value::Value;
use crate::value::ValueModel;
use crate::value::marshal_argument;
use crate::value::marshal_model;
use crate::value::unmarshal_model;
use crate::value::unmarshal_result;

verus! {

/// The lifecycle phase of one invocation.
#[derive(Clone, Copy, PartialEq, Eq, Structural, Debug)]
pub enum Phase {
    /// The worker bound to the module and grants is being created.
    CreatingWorker,
    /// The module graph is being resolved and its top-level code run.
    Evaluating,
    /// The named function is being looked up in the module's global scope.
    LookingUp,
    /// The function is being called with the marshaled argument.
    Calling,
    /// The invocation has finished, successfully or not.
    Done,
}

/// What the host shell must do next on the engine's side.
#[derive(Debug)]
pub enum EngineAction {
    /// Create the single-use worker bound to the request's module and grants.
    CreateWorker,
    /// Resolve the module's import graph and run its top-level code until all
    /// synchronous and microtask work has settled.
    EvaluateModule,
    /// Look up the requested function in the module's global scope.
    LookUpFunction,
    /// Call the function with an undefined receiver and this marshaled value
    /// as its sole argument, synchronously.
    CallFunction(EngineValue),
    /// The invocation is complete: collect the outcome and release the worker.
    Finish,
}

/// The mathematical shape of an [`EngineAction`].
pub enum ActionModel {
    CreateWorker,
    EvaluateModule,
    LookUpFunction,
    CallFunction(EngineModel),
    Finish,
}

impl View for EngineAction {
    type V = ActionModel;

    open spec fn view(&self) -> ActionModel {
        match self {
            EngineAction::CreateWorker => ActionModel::CreateWorker,
            EngineAction::EvaluateModule => ActionModel::EvaluateModule,
            EngineAction::LookUpFunction => ActionModel::LookUpFunction,
            EngineAction::CallFunction(e) => ActionModel::CallFunction(e@),
            EngineAction::Finish => ActionModel::Finish,
        }
    }
}

/// What the engine reported back for the last requested action.
#[derive(Debug)]
pub enum EngineEvent {
    /// The worker was created and its module pre-registered.
    WorkerReady,
    /// Engine initialization or module pre-registration failed.
    WorkerFailed(String),
    /// Top-level evaluation ran to completion; carries the exit signal, which
    /// is passed through unexamined.
    EvaluationSettled(i64),
    /// Module resolution failed or top-level code threw.
    EvaluationFailed(String),
    /// The named global exists and is callable.
    FunctionFound,
    /// The named global is missing or not callable.
    FunctionMissing,
    /// The call returned this engine value.
    CallReturned(EngineValue),
    /// The call threw; carries the thrown value's message and diagnostic form.
    CallThrew(String, String),
}

/// The mathematical shape of an [`EngineEvent`].
pub enum EventModel {
    WorkerReady,
    WorkerFailed(Seq<char>),
    EvaluationSettled(int),
    EvaluationFailed(Seq<char>),
    FunctionFound,
    FunctionMissing,
    CallReturned(EngineModel),
    CallThrew(Seq<char>, Seq<char>),
}

impl View for EngineEvent {
    type V = EventModel;

    open spec fn view(&self) -> EventModel {
        match self {
            EngineEvent::WorkerReady => EventModel::WorkerReady,
            EngineEvent::WorkerFailed(m) => EventModel::WorkerFailed(m@),
            EngineEvent::EvaluationSettled(c) => EventModel::EvaluationSettled(*c as int),
            EngineEvent::EvaluationFailed(m) => EventModel::EvaluationFailed(m@),
            EngineEvent::FunctionFound => EventModel::FunctionFound,
            EngineEvent::FunctionMissing => EventModel::FunctionMissing,
            EngineEvent::CallReturned(e) => EventModel::CallReturned(e@),
            EngineEvent::CallThrew(m, d) => EventModel::CallThrew(m@, d@),
        }
    }
}

/// The mathematical state of one invocation.
pub struct InvocationModel {
    pub module: Seq<char>,
    pub function_name: Seq<char>,
    pub argument: ValueModel,
    pub grants: GrantSetModel,
    pub phase: Phase,
    /// Whether an event has reported that top-level evaluation settled.
    pub settled: bool,
    /// Whether the machine has requested the function lookup.
    pub lookup_attempted: bool,
    /// The exit signal reported by evaluation, passed through unexamined.
    pub exit_signal: Option<int>,
    pub outcome: Option<Result<ValueModel, ErrorModel>>,
}

/// The state a fresh invocation starts in.
pub open spec fn start_model(
    module: Seq<char>,
    function_name: Seq<char>,
    argument: ValueModel,
    grants: GrantSetModel,
) -> InvocationModel {
    InvocationModel {
        module,
        function_name,
        argument,
        grants,
        phase: Phase::CreatingWorker,
        settled: false,
        lookup_attempted: false,
        exit_signal: None,
        outcome: None,
    }
}

/// Which events the engine may report in which phase. A finished invocation
/// accepts no further event.
pub open spec fn event_fits(phase: Phase, e: EventModel) -> bool {
    match phase {
        Phase::CreatingWorker => e is WorkerReady || e is WorkerFailed,
        Phase::Evaluating => e is EvaluationSettled || e is EvaluationFailed,
        Phase::LookingUp => e is FunctionFound || e is FunctionMissing,
        Phase::Calling => e is CallReturned || e is CallThrew,
        Phase::Done => false,
    }
}

/// One step of the machine: the state after the engine reported `e`. Every
/// failure is terminal and short-circuits all later stages; an event that does
/// not fit the phase changes nothing.
pub open spec fn step_model(s: InvocationModel, e: EventModel) -> InvocationModel {
    match (s.phase, e) {
        (Phase::CreatingWorker, EventModel::WorkerReady) => InvocationModel {
            phase: Phase::Evaluating,
            ..s
        },
        (Phase::CreatingWorker, EventModel::WorkerFailed(m)) => InvocationModel {
            phase: Phase::Done,
            outcome: Some(Err(ErrorModel::WorkerCreation(m))),
            ..s
        },
        (Phase::Evaluating, EventModel::EvaluationSettled(code)) => InvocationModel {
            phase: Phase::LookingUp,
            settled: true,
            lookup_attempted: true,
            exit_signal: Some(code),
            ..s
        },
        (Phase::Evaluating, EventModel::EvaluationFailed(m)) => InvocationModel {
            phase: Phase::Done,
            outcome: Some(Err(ErrorModel::ModuleEvaluation(m))),
            ..s
        },
        (Phase::LookingUp, EventModel::FunctionFound) => InvocationModel {
            phase: Phase::Calling,
            ..s
        },
        (Phase::LookingUp, EventModel::FunctionMissing) => InvocationModel {
            phase: Phase::Done,
            outcome: Some(Err(ErrorModel::FunctionNotFound(s.function_name))),
            ..s
        },
        (Phase::Calling, EventModel::CallReturned(ev)) => InvocationModel {
            phase: Phase::Done,
            outcome: Some(
                match unmarshal_model(ev) {
                    Some(v) => Ok(v),
                    None => Err(ErrorModel::ResultMarshal),
                },
            ),
            ..s
        },
        (Phase::Calling, EventModel::CallThrew(m, d)) => InvocationModel {
            phase: Phase::Done,
            outcome: Some(Err(ErrorModel::ScriptThrow(m, d))),
            ..s
        },
        _ => s,
    }
}

/// The action the machine requests in a given state.
pub open spec fn requested_action(s: InvocationModel) -> ActionModel {
    match s.phase {
        Phase::CreatingWorker => ActionModel::CreateWorker,
        Phase::Evaluating => ActionModel::EvaluateModule,
        Phase::LookingUp => ActionModel::LookUpFunction,
        Phase::Calling => ActionModel::CallFunction(marshal_model(s.argument)),
        Phase::Done => ActionModel::Finish,
    }
}

/// The machine's invariant: lookup and call happen only after evaluation
/// settled, an outcome exists exactly when the invocation is done, the exit
/// signal exists exactly when evaluation settled, and an evaluation failure
/// precludes any lookup.
pub open spec fn machine_inv(s: InvocationModel) -> bool {
    &&& ((s.phase is LookingUp || s.phase is Calling) ==> s.settled)
    &&& ((s.phase is CreatingWorker || s.phase is Evaluating) ==> !s.settled
        && !s.lookup_attempted)
    &&& (s.lookup_attempted ==> s.settled)
    &&& ((s.phase is Done) <==> s.outcome is Some)
    &&& (s.settled <==> s.exit_signal is Some)
    &&& ((s.outcome matches Some(Err(ErrorModel::ModuleEvaluation(_)))) ==> !s.lookup_attempted)
}

/// One step preserves the machine's invariant.
pub proof fn lemma_step_preserves_inv(s: InvocationModel, e: EventModel)
    requires
        machine_inv(s),
    ensures
        machine_inv(step_model(s, e)),
{
}

/// The state after the engine reported a whole sequence of events.
pub open spec fn run_model(s: InvocationModel, events: Seq<EventModel>) -> InvocationModel
    decreases events.len(),
{
    if events.len() == 0 {
        s
    } else {
        run_model(step_model(s, events[0]), events.drop_first())
    }
}

/// Whether a sequence of events fits the machine's protocol from state `s` on:
/// each event fits the phase the machine is in when it arrives.
pub open spec fn valid_trace(s: InvocationModel, events: Seq<EventModel>) -> bool
    decreases events.len(),
{
    events.len() == 0 || (event_fits(s.phase, events[0]) && valid_trace(
        step_model(s, events[0]),
        events.drop_first(),
    ))
}

/// A whole run preserves the machine's invariant.
pub proof fn lemma_run_preserves_inv(s: InvocationModel, events: Seq<EventModel>)
    requires
        machine_inv(s),
    ensures
        machine_inv(run_model(s, events)),
    decreases events.len(),
{
    if events.len() > 0 {
        lemma_step_preserves_inv(s, events[0]);
        lemma_run_preserves_inv(step_model(s, events[0]), events.drop_first());
    }
}

/// Evaluation settles only by an event that says so: if the machine was not
/// settled and is settled after a run, some event in the run reported that
/// evaluation settled.
pub proof fn lemma_settled_needs_event(s: InvocationModel, events: Seq<EventModel>)
    requires
        !s.settled,
    ensures
        run_model(s, events).settled ==> exists|j: int|
            0 <= j < events.len() && (#[trigger] events[j]) is EvaluationSettled,
    decreases events.len(),
{
    if events.len() > 0 {
        let s1 = step_model(s, events[0]);
        if events[0] is EvaluationSettled {
            if run_model(s, events).settled {
                assert((events[0]) is EvaluationSettled);
            }
        } else {
            assert(!s1.settled);
            lemma_settled_needs_event(s1, events.drop_first());
            if run_model(s, events).settled {
                let rest = events.drop_first();
                let j = choose|j: int|
                    0 <= j < rest.len() && (#[trigger] rest[j]) is EvaluationSettled;
                assert(events[j + 1] == rest[j]);
            }
        }
    }
}

/// Ordering law: from a fresh start, the machine requests the function call
/// only after some event reported that module evaluation settled — invocation
/// never runs before evaluation completes.
pub proof fn lemma_no_call_before_settlement(start: InvocationModel, events: Seq<EventModel>)
    requires
        machine_inv(start),
        !start.settled,
    ensures
        requested_action(run_model(start, events)) is CallFunction ==> exists|j: int|
            0 <= j < events.len() && (#[trigger] events[j]) is EvaluationSettled,
{
    lemma_run_preserves_inv(start, events);
    lemma_settled_needs_event(start, events);
}

/// A finished or post-evaluation machine never sees an evaluation event again
/// on a valid trace.
proof fn lemma_no_evaluation_event_after(s: InvocationModel, events: Seq<EventModel>)
    requires
        valid_trace(s, events),
        s.phase is LookingUp || s.phase is Calling || s.phase is Done,
    ensures
        forall|j: int|
            0 <= j < events.len() ==> !((#[trigger] events[j]) is EvaluationFailed) && !(
            events[j] is EvaluationSettled),
    decreases events.len(),
{
    if events.len() > 0 {
        let s1 = step_model(s, events[0]);
        assert(s1.phase is LookingUp || s1.phase is Calling || s1.phase is Done);
        lemma_no_evaluation_event_after(s1, events.drop_first());
        assert forall|j: int|
            0 <= j < events.len() implies !((#[trigger] events[j]) is EvaluationFailed) && !(
        events[j] is EvaluationSettled) by {
            if j > 0 {
                assert(events.drop_first()[j - 1] == events[j]);
            }
        }
    }
}

/// Short-circuit law: on a valid trace, an evaluation failure is the last
/// event, the outcome is exactly a module-evaluation error carrying the
/// reported message, and no function lookup was or will be attempted.
pub proof fn lemma_evaluation_failure_short_circuits(
    start: InvocationModel,
    events: Seq<EventModel>,
    j: int,
)
    requires
        machine_inv(start),
        start.phase is CreatingWorker || start.phase is Evaluating,
        valid_trace(start, events),
        0 <= j < events.len(),
        events[j] is EvaluationFailed,
    ensures
        j == events.len() - 1,
        run_model(start, events).outcome == Some(
            Err::<ValueModel, ErrorModel>(
                ErrorModel::ModuleEvaluation(events[j]->EvaluationFailed_0),
            ),
        ),
        !run_model(start, events).lookup_attempted,
    decreases events.len(),
{
    let s1 = step_model(start, events[0]);
    let rest = events.drop_first();
    if j == 0 {
        assert(event_fits(start.phase, events[0]));
        if rest.len() > 0 {
            assert(valid_trace(s1, rest));
            assert(event_fits(s1.phase, rest[0]));
            assert(false);
        }
        assert(run_model(start, events) == s1);
    } else {
        assert(rest[j - 1] == events[j]);
        if !(s1.phase is CreatingWorker || s1.phase is Evaluating) {
            lemma_no_evaluation_event_after(s1, rest);
            assert(false);
        }
        lemma_step_preserves_inv(start, events[0]);
        lemma_evaluation_failure_short_circuits(s1, rest, j - 1);
    }
}

/// Missing-function law: in the lookup phase, a missing or non-callable global
/// yields exactly a function-not-found error carrying the requested name — in
/// particular never a marshalling error.
pub proof fn lemma_missing_function_yields_not_found(s: InvocationModel)
    requires
        s.phase is LookingUp,
    ensures
        step_model(s, EventModel::FunctionMissing).outcome == Some(
            Err::<ValueModel, ErrorModel>(ErrorModel::FunctionNotFound(s.function_name)),
        ),
        step_model(s, EventModel::FunctionMissing).phase is Done,
{
}

/// Round-trip law at the machine level: if the invoked function returns the
/// marshaled argument unchanged, as an identity function does, the outcome is
/// a value structurally equal to the original structured argument.
pub proof fn lemma_identity_call_round_trips(s: InvocationModel)
    requires
        s.phase is Calling,
    ensures
        step_model(s, EventModel::CallReturned(marshal_model(s.argument))).outcome == Some(
            Ok::<ValueModel, ErrorModel>(s.argument),
        ),
{
    crate::value::lemma_marshal_round_trip(s.argument);
}

/// The mathematical shape of a stored outcome.
pub open spec fn outcome_model(o: Option<Result<Value, BridgeError>>) -> Option<
    Result<ValueModel, ErrorModel>,
> {
    match o {
        None => None,
        Some(Ok(v)) => Some(Ok(v@)),
        Some(Err(e)) => Some(Err(e@)),
    }
}

/// One invocation in progress: the request it was built from, the lifecycle
/// phase it is in, and the outcome once it is done. The state changes only
/// through [`Self::on_event`], which follows [`step_model`] exactly.
pub struct Invocation {
    module: String,
    function_name: String,
    argument: Value,
    grants: PermissionGrantSet,
    phase: Phase,
    settled: bool,
    lookup_attempted: bool,
    exit_signal: Option<i64>,
    outcome: Option<Result<Value, BridgeError>>,
}

impl View for Invocation {
    type V = InvocationModel;

    closed spec fn view(&self) -> InvocationModel {
        InvocationModel {
            module: self.module@,
            function_name: self.function_name@,
            argument: self.argument@,
            grants: self.grants@,
            phase: self.phase,
            settled: self.settled,
            lookup_attempted: self.lookup_attempted,
            exit_signal: match self.exit_signal {
                Some(c) => Some(c as int),
                None => None,
            },
            outcome: outcome_model(self.outcome),
        }
    }
}

impl Invocation {
    /// Begins one invocation for the given module, function name, structured
    /// argument and grant set, and requests the first engine action: creating
    /// the worker.
    pub fn start(
        module: String,
        function_name: String,
        argument: Value,
        grants: PermissionGrantSet,
    ) -> (r: (Invocation, EngineAction))
        ensures
            r.0@ == start_model(module@, function_name@, argument@, grants@),
            r.1@ == requested_action(r.0@),
            machine_inv(r.0@),
    {
        let machine = Invocation {
            module,
            function_name,
            argument,
            grants,
            phase: Phase::CreatingWorker,
            settled: false,
            lookup_attempted: false,
            exit_signal: None,
            outcome: None,
        };
        (machine, EngineAction::CreateWorker)
    }

    /// Feeds the engine's report for the last action into the machine and
    /// returns what the host shell must do next. Follows [`step_model`]: any
    /// failure event makes the invocation finish with the matching error and
    /// no later stage runs.
    pub fn on_event(&mut self, event: EngineEvent) -> (r: EngineAction)
        requires
            event_fits(old(self)@.phase, event@),
        ensures
            final(self)@ == step_model(old(self)@, event@),
            r@ == requested_action(final(self)@),
    {
        match event {
            EngineEvent::WorkerReady => {
                self.phase = Phase::Evaluating;
                EngineAction::EvaluateModule
            },
            EngineEvent::WorkerFailed(m) => {
                self.phase = Phase::Done;
                self.outcome = Some(Err(BridgeError::WorkerCreation(m)));
                EngineAction::Finish
            },
            EngineEvent::EvaluationSettled(code) => {
                self.phase = Phase::LookingUp;
                self.settled = true;
                self.lookup_attempted = true;
                self.exit_signal = Some(code);
                EngineAction::LookUpFunction
            },
            EngineEvent::EvaluationFailed(m) => {
                self.phase = Phase::Done;
                self.outcome = Some(Err(BridgeError::ModuleEvaluation(m)));
                EngineAction::Finish
            },
            EngineEvent::FunctionFound => {
                self.phase = Phase::Calling;
                let marshaled = marshal_argument(&self.argument);
                EngineAction::CallFunction(marshaled)
            },
            EngineEvent::FunctionMissing => {
                self.phase = Phase::Done;
                let name = self.function_name.clone();
                self.outcome = Some(Err(BridgeError::FunctionNotFound(name)));
                EngineAction::Finish
            },
            EngineEvent::CallReturned(ev) => {
                self.phase = Phase::Done;
                match unmarshal_result(&ev) {
                    Some(v) => {
                        self.outcome = Some(Ok(v));
                    },
                    None => {
                        self.outcome = Some(Err(BridgeError::ResultMarshal));
                    },
                }
                EngineAction::Finish
            },
            EngineEvent::CallThrew(m, d) => {
                self.phase = Phase::Done;
                self.outcome = Some(Err(BridgeError::ScriptThrow(m, d)));
                EngineAction::Finish
            },
        }
    }

    /// The module reference the worker is bound to.
    pub fn module(&self) -> (r: &String)
        ensures
            r@ == self@.module,
    {
        &self.module
    }

    /// The name of the global function to invoke.
    pub fn function_name(&self) -> (r: &String)
        ensures
            r@ == self@.function_name,
    {
        &self.function_name
    }

    /// The grant set the worker is bound to.
    pub fn grants(&self) -> (r: &PermissionGrantSet)
        ensures
            r@ == self@.grants,
    {
        &self.grants
    }

    /// Whether the invocation has finished.
    pub fn is_done(&self) -> (r: bool)
        ensures
            r == (self@.phase is Done),
    {
        self.phase == Phase::Done
    }

    /// The exit signal reported by evaluation, passed through unexamined.
    pub fn exit_signal(&self) -> (r: Option<i64>)
        ensures
            (r is Some <==> self@.exit_signal is Some),
            r is Some ==> r->Some_0 as int == self@.exit_signal->Some_0,
    {
        self.exit_signal
    }

    /// Hands the terminal outcome to the caller, consuming the invocation:
    /// the worker is never reused.
    pub fn into_outcome(self) -> (r: Option<Result<Value, BridgeError>>)
        ensures
            outcome_model(r) == self@.outcome,
    {
        self.outcome
    }
}

} // verus!
