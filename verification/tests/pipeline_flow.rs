use script_bridge::errors::BridgeError;
use script_bridge::permissions::{build_grants, PermissionOptions};
use script_bridge::pipeline::{EngineAction, EngineEvent, Invocation};
use script_bridge::value::{EngineValue, Value};

fn empty_options() -> PermissionOptions {
    PermissionOptions {
        allow_all: false,
        allow_read: None,
        allow_write: None,
        allow_net: None,
    }
}

fn fresh_invocation(function: &str, argument: Value) -> (Invocation, EngineAction) {
    let grants = build_grants(empty_options(), &vec![String::from("example.tsx")])
        .expect("no ambiguity in a plain argument vector");
    Invocation::start(
        String::from("../../deno_example/example.tsx"),
        String::from(function),
        argument,
        grants,
    )
}

fn hello_argument() -> Value {
    Value::Object(vec![(
        String::from("content"),
        Value::Text(String::from("Hello world!")),
    )])
}

#[test]
fn successful_invocation_returns_structured_value() {
    // The module evaluates `globalThis.test = (arg) => ({ content: arg.content })`;
    // the engine therefore returns an object with the argument's content field.
    let (mut machine, first) = fresh_invocation("globalThis.test", hello_argument());
    assert!(matches!(first, EngineAction::CreateWorker));

    let act = machine.on_event(EngineEvent::WorkerReady);
    assert!(matches!(act, EngineAction::EvaluateModule));

    let act = machine.on_event(EngineEvent::EvaluationSettled(0));
    assert!(matches!(act, EngineAction::LookUpFunction));

    let act = machine.on_event(EngineEvent::FunctionFound);
    let marshaled = match act {
        EngineAction::CallFunction(v) => v,
        other => panic!("expected a call action, got {other:?}"),
    };
    assert_eq!(
        marshaled,
        EngineValue::Object(vec![(
            String::from("content"),
            EngineValue::Text(String::from("Hello world!"))
        )])
    );

    let returned = EngineValue::Object(vec![(
        String::from("content"),
        EngineValue::Text(String::from("Hello world!")),
    )]);
    let act = machine.on_event(EngineEvent::CallReturned(returned));
    assert!(matches!(act, EngineAction::Finish));
    assert!(machine.is_done());

    let outcome = machine.into_outcome().expect("finished");
    assert_eq!(outcome.unwrap(), hello_argument());
}

fn identity_argument() -> Value {
    Value::Array(vec![
        Value::Number(5),
        Value::Object(vec![(String::from("k"), Value::Null)]),
    ])
}

#[test]
fn identity_call_round_trips_the_argument() {
    let (mut machine, _) = fresh_invocation("identity", identity_argument());
    machine.on_event(EngineEvent::WorkerReady);
    machine.on_event(EngineEvent::EvaluationSettled(0));
    let act = machine.on_event(EngineEvent::FunctionFound);
    let marshaled = match act {
        EngineAction::CallFunction(v) => v,
        other => panic!("expected a call action, got {other:?}"),
    };
    machine.on_event(EngineEvent::CallReturned(marshaled));
    let outcome = machine.into_outcome().expect("finished");
    assert_eq!(outcome.unwrap(), identity_argument());
}

#[test]
fn call_is_requested_only_after_evaluation_settles() {
    // A module whose top-level code sets a global flag: the function must
    // observe the post-evaluation state, so the machine never requests the
    // call before the engine reported that evaluation settled.
    let (mut machine, first) = fresh_invocation("readFlag", Value::Null);
    assert!(!matches!(first, EngineAction::CallFunction(_)));
    let act = machine.on_event(EngineEvent::WorkerReady);
    assert!(!matches!(act, EngineAction::CallFunction(_)));
    let act = machine.on_event(EngineEvent::EvaluationSettled(7));
    assert!(!matches!(act, EngineAction::CallFunction(_)));
    assert_eq!(machine.exit_signal(), Some(7));
    let act = machine.on_event(EngineEvent::FunctionFound);
    assert!(matches!(act, EngineAction::CallFunction(_)));
}

#[test]
fn missing_function_yields_function_not_found() {
    let (mut machine, _) = fresh_invocation("absent", Value::Null);
    machine.on_event(EngineEvent::WorkerReady);
    machine.on_event(EngineEvent::EvaluationSettled(0));
    let act = machine.on_event(EngineEvent::FunctionMissing);
    assert!(matches!(act, EngineAction::Finish));
    let outcome = machine.into_outcome().expect("finished");
    match outcome {
        Err(BridgeError::FunctionNotFound(name)) => assert_eq!(name, "absent"),
        other => panic!("expected a function-not-found error, got {other:?}"),
    }
}

#[test]
fn module_throw_short_circuits_before_lookup() {
    let (mut machine, _) = fresh_invocation("neverLookedUp", Value::Null);
    machine.on_event(EngineEvent::WorkerReady);
    let act = machine.on_event(EngineEvent::EvaluationFailed(String::from(
        "boom at top level",
    )));
    assert!(matches!(act, EngineAction::Finish));
    assert!(machine.is_done());
    let outcome = machine.into_outcome().expect("finished");
    match outcome {
        Err(BridgeError::ModuleEvaluation(m)) => assert_eq!(m, "boom at top level"),
        other => panic!("expected a module-evaluation error, got {other:?}"),
    }
}

#[test]
fn worker_creation_failure_is_reported() {
    let (mut machine, _) = fresh_invocation("f", Value::Null);
    let act = machine.on_event(EngineEvent::WorkerFailed(String::from("no isolate")));
    assert!(matches!(act, EngineAction::Finish));
    let outcome = machine.into_outcome().expect("finished");
    assert!(matches!(outcome, Err(BridgeError::WorkerCreation(m)) if m == "no isolate"));
}

#[test]
fn thrown_call_is_reported_with_diagnostic() {
    let (mut machine, _) = fresh_invocation("thrower", Value::Null);
    machine.on_event(EngineEvent::WorkerReady);
    machine.on_event(EngineEvent::EvaluationSettled(0));
    machine.on_event(EngineEvent::FunctionFound);
    let act = machine.on_event(EngineEvent::CallThrew(
        String::from("bad input"),
        String::from("Error: bad input at f (main.js:1)"),
    ));
    assert!(matches!(act, EngineAction::Finish));
    let outcome = machine.into_outcome().expect("finished");
    match outcome {
        Err(BridgeError::ScriptThrow(message, diagnostic)) => {
            assert_eq!(message, "bad input");
            assert_eq!(diagnostic, "Error: bad input at f (main.js:1)");
        }
        other => panic!("expected a script-throw error, got {other:?}"),
    }
}

#[test]
fn unrepresentable_result_yields_result_marshal_error() {
    let (mut machine, _) = fresh_invocation("givesHandle", Value::Null);
    machine.on_event(EngineEvent::WorkerReady);
    machine.on_event(EngineEvent::EvaluationSettled(0));
    machine.on_event(EngineEvent::FunctionFound);
    machine.on_event(EngineEvent::CallReturned(EngineValue::Undefined));
    let outcome = machine.into_outcome().expect("finished");
    assert!(matches!(outcome, Err(BridgeError::ResultMarshal)));
}

#[test]
fn request_fields_are_preserved() {
    let (machine, _) = fresh_invocation("globalThis.test", Value::Null);
    assert_eq!(machine.module(), "../../deno_example/example.tsx");
    assert_eq!(machine.function_name(), "globalThis.test");
    assert_eq!(machine.exit_signal(), None);
}
