use script_bridge::value::{marshal_argument, unmarshal_result, EngineValue, Value};

fn sample_value() -> Value {
    Value::Object(vec![
        (
            String::from("items"),
            Value::Array(vec![
                Value::Null,
                Value::Bool(true),
                Value::Number(-3),
                Value::Text(String::from("hi")),
            ]),
        ),
        (
            String::from("nested"),
            Value::Object(vec![(String::from("k"), Value::Number(42))]),
        ),
    ])
}

#[test]
fn round_trip_nested_value() {
    let v = sample_value();
    let marshaled = marshal_argument(&v);
    let back = unmarshal_result(&marshaled);
    assert_eq!(back, Some(sample_value()));
}

#[test]
fn round_trip_empty_array_and_object() {
    let v = Value::Array(vec![Value::Object(vec![]), Value::Array(vec![])]);
    let marshaled = marshal_argument(&v);
    assert_eq!(
        unmarshal_result(&marshaled),
        Some(Value::Array(vec![
            Value::Object(vec![]),
            Value::Array(vec![])
        ]))
    );
}

#[test]
fn marshal_is_structural() {
    let v = Value::Object(vec![(
        String::from("a"),
        Value::Array(vec![Value::Number(1), Value::Text(String::from("x"))]),
    )]);
    let expected = EngineValue::Object(vec![(
        String::from("a"),
        EngineValue::Array(vec![
            EngineValue::Number(1),
            EngineValue::Text(String::from("x")),
        ]),
    )]);
    assert_eq!(marshal_argument(&v), expected);
}

#[test]
fn unmarshal_rejects_undefined() {
    assert_eq!(unmarshal_result(&EngineValue::Undefined), None);
}

#[test]
fn unmarshal_rejects_live_handles() {
    assert_eq!(unmarshal_result(&EngineValue::Callable(7)), None);
    assert_eq!(unmarshal_result(&EngineValue::Opaque(9)), None);
}

#[test]
fn unmarshal_rejects_nested_unrepresentable_value() {
    let e = EngineValue::Array(vec![
        EngineValue::Number(1),
        EngineValue::Object(vec![(String::from("f"), EngineValue::Callable(3))]),
    ]);
    assert_eq!(unmarshal_result(&e), None);
}

#[test]
fn unmarshal_accepts_structured_engine_values() {
    let e = EngineValue::Object(vec![(
        String::from("ok"),
        EngineValue::Array(vec![EngineValue::Null, EngineValue::Bool(false)]),
    )]);
    assert_eq!(
        unmarshal_result(&e),
        Some(Value::Object(vec![(
            String::from("ok"),
            Value::Array(vec![Value::Null, Value::Bool(false)])
        )]))
    );
}
