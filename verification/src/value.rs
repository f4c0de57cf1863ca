//! The structured value model and its marshalling across the engine boundary.
//!
//! A caller-supplied argument is a closed structural sum: null, boolean,
//! number, string, ordered array, or string-keyed mapping. The engine's native
//! value space is strictly larger: it also holds `undefined`, live callable
//! handles, and other opaque engine-native data. Marshalling a structured
//! value into an engine value is therefore total, while marshalling an engine
//! value back is partial and fails on anything outside the structured shape.

use vstd::prelude::*;

verus! {

/// A structured value exchanged with the engine. Numbers are modeled as
/// signed 64-bit integers; a mapping is an ordered list of key/value pairs.
#[derive(Debug, PartialEq)]
pub enum Value {
    Null,
    Bool(bool),
    Number(i64),
    Text(String),
    Array(Vec<Value>),
    Object(Vec<(String, Value)>),
}

/// The mathematical shape of a [`Value`].
pub enum ValueModel {
    Null,
    Bool(bool),
    Number(int),
    Text(Seq<char>),
    Array(Seq<ValueModel>),
    Object(Seq<(Seq<char>, ValueModel)>),
}

/// An engine-native value as the bridge observes it. `Undefined`, `Callable`
/// and `Opaque` have no structured counterpart; the numeric payload of the
/// last two identifies a live engine handle.
#[derive(Debug, PartialEq)]
pub enum EngineValue {
    Null,
    Undefined,
    Bool(bool),
    Number(i64),
    Text(String),
    Array(Vec<EngineValue>),
    Object(Vec<(String, EngineValue)>),
    Callable(u64),
    Opaque(u64),
}

/// The mathematical shape of an [`EngineValue`].
pub enum EngineModel {
    Null,
    Undefined,
    Bool(bool),
    Number(int),
    Text(Seq<char>),
    Array(Seq<EngineModel>),
    Object(Seq<(Seq<char>, EngineModel)>),
    Callable(nat),
    Opaque(nat),
}

pub open spec fn value_model(v: Value) -> ValueModel
    decreases v,
{
    match v {
        Value::Null => ValueModel::Null,
        Value::Bool(b) => ValueModel::Bool(b),
        Value::Number(n) => ValueModel::Number(n as int),
        Value::Text(s) => ValueModel::Text(s@),
        Value::Array(a) => ValueModel::Array(value_models(a@)),
        Value::Object(m) => ValueModel::Object(value_entry_models(m@)),
    }
}

pub open spec fn value_models(s: Seq<Value>) -> Seq<ValueModel>
    decreases s,
{
    if s.len() == 0 {
        Seq::empty()
    } else {
        value_models(s.drop_last()).push(value_model(s.last()))
    }
}

pub open spec fn value_entry_models(s: Seq<(String, Value)>) -> Seq<(Seq<char>, ValueModel)>
    decreases s,
{
    if s.len() == 0 {
        Seq::empty()
    } else {
        value_entry_models(s.drop_last()).push((s.last().0@, value_model(s.last().1)))
    }
}

pub open spec fn engine_model(e: EngineValue) -> EngineModel
    decreases e,
{
    match e {
        EngineValue::Null => EngineModel::Null,
        EngineValue::Undefined => EngineModel::Undefined,
        EngineValue::Bool(b) => EngineModel::Bool(b),
        EngineValue::Number(n) => EngineModel::Number(n as int),
        EngineValue::Text(s) => EngineModel::Text(s@),
        EngineValue::Array(a) => EngineModel::Array(engine_models(a@)),
        EngineValue::Object(m) => EngineModel::Object(engine_entry_models(m@)),
        EngineValue::Callable(h) => EngineModel::Callable(h as nat),
        EngineValue::Opaque(h) => EngineModel::Opaque(h as nat),
    }
}

pub open spec fn engine_models(s: Seq<EngineValue>) -> Seq<EngineModel>
    decreases s,
{
    if s.len() == 0 {
        Seq::empty()
    } else {
        engine_models(s.drop_last()).push(engine_model(s.last()))
    }
}

pub open spec fn engine_entry_models(s: Seq<(String, EngineValue)>) -> Seq<(Seq<char>, EngineModel)>
    decreases s,
{
    if s.len() == 0 {
        Seq::empty()
    } else {
        engine_entry_models(s.drop_last()).push((s.last().0@, engine_model(s.last().1)))
    }
}

impl View for Value {
    type V = ValueModel;

    open spec fn view(&self) -> ValueModel {
        value_model(*self)
    }
}

impl View for EngineValue {
    type V = EngineModel;

    open spec fn view(&self) -> EngineModel {
        engine_model(*self)
    }
}

/// What marshalling a structured value into the engine means: a structural,
/// total embedding of the value into the engine's larger value space.
pub open spec fn marshal_model(v: ValueModel) -> EngineModel
    decreases v,
{
    match v {
        ValueModel::Null => EngineModel::Null,
        ValueModel::Bool(b) => EngineModel::Bool(b),
        ValueModel::Number(n) => EngineModel::Number(n),
        ValueModel::Text(s) => EngineModel::Text(s),
        ValueModel::Array(a) => EngineModel::Array(marshal_models(a)),
        ValueModel::Object(m) => EngineModel::Object(marshal_entry_models(m)),
    }
}

pub open spec fn marshal_models(s: Seq<ValueModel>) -> Seq<EngineModel>
    decreases s,
{
    if s.len() == 0 {
        Seq::empty()
    } else {
        marshal_models(s.drop_last()).push(marshal_model(s.last()))
    }
}

pub open spec fn marshal_entry_models(s: Seq<(Seq<char>, ValueModel)>) -> Seq<
    (Seq<char>, EngineModel),
>
    decreases s,
{
    if s.len() == 0 {
        Seq::empty()
    } else {
        marshal_entry_models(s.drop_last()).push((s.last().0, marshal_model(s.last().1)))
    }
}

/// What marshalling an engine value back means: the partial inverse of the
/// embedding. `None` exactly when the engine value contains anything outside
/// the structured shape (`undefined`, a callable, or opaque engine data).
pub open spec fn unmarshal_model(e: EngineModel) -> Option<ValueModel>
    decreases e,
{
    match e {
        EngineModel::Null => Some(ValueModel::Null),
        EngineModel::Undefined => None,
        EngineModel::Bool(b) => Some(ValueModel::Bool(b)),
        EngineModel::Number(n) => Some(ValueModel::Number(n)),
        EngineModel::Text(s) => Some(ValueModel::Text(s)),
        EngineModel::Array(a) => match unmarshal_models(a) {
            Some(vs) => Some(ValueModel::Array(vs)),
            None => None,
        },
        EngineModel::Object(m) => match unmarshal_entry_models(m) {
            Some(vs) => Some(ValueModel::Object(vs)),
            None => None,
        },
        EngineModel::Callable(_) => None,
        EngineModel::Opaque(_) => None,
    }
}

pub open spec fn unmarshal_models(s: Seq<EngineModel>) -> Option<Seq<ValueModel>>
    decreases s,
{
    if s.len() == 0 {
        Some(Seq::empty())
    } else {
        match (unmarshal_models(s.drop_last()), unmarshal_model(s.last())) {
            (Some(init), Some(last)) => Some(init.push(last)),
            _ => None,
        }
    }
}

pub open spec fn unmarshal_entry_models(s: Seq<(Seq<char>, EngineModel)>) -> Option<
    Seq<(Seq<char>, ValueModel)>,
>
    decreases s,
{
    if s.len() == 0 {
        Some(Seq::empty())
    } else {
        match (unmarshal_entry_models(s.drop_last()), unmarshal_model(s.last().1)) {
            (Some(init), Some(last)) => Some(init.push((s.last().0, last))),
            _ => None,
        }
    }
}

/// Pointwise reading of [`value_models`].
pub proof fn lemma_value_models(s: Seq<Value>)
    ensures
        value_models(s).len() == s.len(),
        forall|i: int| 0 <= i < s.len() ==> #[trigger] value_models(s)[i] == value_model(s[i]),
    decreases s,
{
    if s.len() > 0 {
        lemma_value_models(s.drop_last());
        assert forall|i: int| 0 <= i < s.len() implies value_models(s)[i] == value_model(
            #[trigger] s[i],
        ) by {
            if i < s.len() - 1 {
                assert(s.drop_last()[i] == s[i]);
                assert(value_models(s.drop_last())[i] == value_model(s.drop_last()[i]));
            } else {
                assert(s[i] == s.last());
            }
        }
    }
}

/// Pointwise reading of [`value_entry_models`].
pub proof fn lemma_value_entry_models(s: Seq<(String, Value)>)
    ensures
        value_entry_models(s).len() == s.len(),
        forall|i: int|
            0 <= i < s.len() ==> #[trigger] value_entry_models(s)[i] == (s[i].0@, value_model(
                s[i].1,
            )),
    decreases s,
{
    if s.len() > 0 {
        lemma_value_entry_models(s.drop_last());
        assert forall|i: int| 0 <= i < s.len() implies value_entry_models(s)[i] == (
            (#[trigger] s[i]).0@,
            value_model(s[i].1),
        ) by {
            if i < s.len() - 1 {
                assert(s.drop_last()[i] == s[i]);
                assert(value_entry_models(s.drop_last())[i] == (
                    s.drop_last()[i].0@,
                    value_model(s.drop_last()[i].1),
                ));
            } else {
                assert(s[i] == s.last());
            }
        }
    }
}

/// Pointwise reading of [`engine_models`].
pub proof fn lemma_engine_models(s: Seq<EngineValue>)
    ensures
        engine_models(s).len() == s.len(),
        forall|i: int| 0 <= i < s.len() ==> #[trigger] engine_models(s)[i] == engine_model(s[i]),
    decreases s,
{
    if s.len() > 0 {
        lemma_engine_models(s.drop_last());
        assert forall|i: int| 0 <= i < s.len() implies engine_models(s)[i] == engine_model(
            #[trigger] s[i],
        ) by {
            if i < s.len() - 1 {
                assert(s.drop_last()[i] == s[i]);
                assert(engine_models(s.drop_last())[i] == engine_model(s.drop_last()[i]));
            } else {
                assert(s[i] == s.last());
            }
        }
    }
}

/// Pointwise reading of [`engine_entry_models`].
pub proof fn lemma_engine_entry_models(s: Seq<(String, EngineValue)>)
    ensures
        engine_entry_models(s).len() == s.len(),
        forall|i: int|
            0 <= i < s.len() ==> #[trigger] engine_entry_models(s)[i] == (s[i].0@, engine_model(
                s[i].1,
            )),
    decreases s,
{
    if s.len() > 0 {
        lemma_engine_entry_models(s.drop_last());
        assert forall|i: int| 0 <= i < s.len() implies engine_entry_models(s)[i] == (
            (#[trigger] s[i]).0@,
            engine_model(s[i].1),
        ) by {
            if i < s.len() - 1 {
                assert(s.drop_last()[i] == s[i]);
                assert(engine_entry_models(s.drop_last())[i] == (
                    s.drop_last()[i].0@,
                    engine_model(s.drop_last()[i].1),
                ));
            } else {
                assert(s[i] == s.last());
            }
        }
    }
}

/// Pointwise reading of [`marshal_models`].
pub proof fn lemma_marshal_models(s: Seq<ValueModel>)
    ensures
        marshal_models(s).len() == s.len(),
        forall|i: int| 0 <= i < s.len() ==> #[trigger] marshal_models(s)[i] == marshal_model(s[i]),
    decreases s,
{
    if s.len() > 0 {
        lemma_marshal_models(s.drop_last());
        assert forall|i: int| 0 <= i < s.len() implies marshal_models(s)[i] == marshal_model(
            #[trigger] s[i],
        ) by {
            if i < s.len() - 1 {
                assert(s.drop_last()[i] == s[i]);
                assert(marshal_models(s.drop_last())[i] == marshal_model(s.drop_last()[i]));
            } else {
                assert(s[i] == s.last());
            }
        }
    }
}

/// Pointwise reading of [`marshal_entry_models`].
pub proof fn lemma_marshal_entry_models(s: Seq<(Seq<char>, ValueModel)>)
    ensures
        marshal_entry_models(s).len() == s.len(),
        forall|i: int|
            0 <= i < s.len() ==> #[trigger] marshal_entry_models(s)[i] == (s[i].0, marshal_model(
                s[i].1,
            )),
    decreases s,
{
    if s.len() > 0 {
        lemma_marshal_entry_models(s.drop_last());
        assert forall|i: int| 0 <= i < s.len() implies marshal_entry_models(s)[i] == (
            (#[trigger] s[i]).0,
            marshal_model(s[i].1),
        ) by {
            if i < s.len() - 1 {
                assert(s.drop_last()[i] == s[i]);
                assert(marshal_entry_models(s.drop_last())[i] == (
                    s.drop_last()[i].0,
                    marshal_model(s.drop_last()[i].1),
                ));
            } else {
                assert(s[i] == s.last());
            }
        }
    }
}

/// Pointwise reading of [`unmarshal_models`]: the whole sequence marshals back
/// exactly when every element does, and then it does so elementwise.
pub proof fn lemma_unmarshal_models(s: Seq<EngineModel>)
    ensures
        (unmarshal_models(s) is Some) <==> (forall|i: int|
            0 <= i < s.len() ==> unmarshal_model(#[trigger] s[i]) is Some),
        unmarshal_models(s) is Some ==> unmarshal_models(s)->Some_0.len() == s.len(),
        unmarshal_models(s) is Some ==> forall|i: int|
            0 <= i < s.len() ==> #[trigger] unmarshal_models(s)->Some_0[i] == unmarshal_model(
                s[i],
            )->Some_0,
    decreases s,
{
    if s.len() > 0 {
        let init = s.drop_last();
        lemma_unmarshal_models(init);
        assert(forall|i: int| 0 <= i < s.len() - 1 ==> #[trigger] init[i] == s[i]);
        if forall|i: int| 0 <= i < s.len() ==> unmarshal_model(#[trigger] s[i]) is Some {
            assert(unmarshal_model(s.last()) is Some);
            assert(forall|i: int|
                0 <= i < init.len() ==> unmarshal_model(#[trigger] init[i]) is Some);
        }
        if unmarshal_models(s) is Some {
            assert forall|i: int| 0 <= i < s.len() implies unmarshal_model(
                #[trigger] s[i],
            ) is Some by {
                if i < s.len() - 1 {
                    assert(init[i] == s[i]);
                } else {
                    assert(s[i] == s.last());
                }
            }
            assert forall|i: int| 0 <= i < s.len() implies #[trigger] unmarshal_models(
                s,
            )->Some_0[i] == unmarshal_model(s[i])->Some_0 by {
                if i < s.len() - 1 {
                    assert(init[i] == s[i]);
                    assert(unmarshal_models(init)->Some_0[i] == unmarshal_model(
                        init[i],
                    )->Some_0);
                } else {
                    assert(s[i] == s.last());
                }
            }
        }
    }
}

/// Pointwise reading of [`unmarshal_entry_models`].
pub proof fn lemma_unmarshal_entry_models(s: Seq<(Seq<char>, EngineModel)>)
    ensures
        (unmarshal_entry_models(s) is Some) <==> (forall|i: int|
            0 <= i < s.len() ==> unmarshal_model((#[trigger] s[i]).1) is Some),
        unmarshal_entry_models(s) is Some ==> unmarshal_entry_models(s)->Some_0.len() == s.len(),
        unmarshal_entry_models(s) is Some ==> forall|i: int|
            0 <= i < s.len() ==> #[trigger] unmarshal_entry_models(s)->Some_0[i] == (
                s[i].0,
                unmarshal_model(s[i].1)->Some_0,
            ),
    decreases s,
{
    if s.len() > 0 {
        let init = s.drop_last();
        lemma_unmarshal_entry_models(init);
        assert(forall|i: int| 0 <= i < s.len() - 1 ==> #[trigger] init[i] == s[i]);
        if forall|i: int| 0 <= i < s.len() ==> unmarshal_model((#[trigger] s[i]).1) is Some {
            assert(unmarshal_model(s.last().1) is Some);
            assert(forall|i: int|
                0 <= i < init.len() ==> unmarshal_model((#[trigger] init[i]).1) is Some);
        }
        if unmarshal_entry_models(s) is Some {
            assert forall|i: int| 0 <= i < s.len() implies unmarshal_model(
                (#[trigger] s[i]).1,
            ) is Some by {
                if i < s.len() - 1 {
                    assert(init[i] == s[i]);
                } else {
                    assert(s[i] == s.last());
                }
            }
            assert forall|i: int| 0 <= i < s.len() implies #[trigger] unmarshal_entry_models(
                s,
            )->Some_0[i] == (s[i].0, unmarshal_model(s[i].1)->Some_0) by {
                if i < s.len() - 1 {
                    assert(init[i] == s[i]);
                    assert(unmarshal_entry_models(init)->Some_0[i] == (
                        init[i].0,
                        unmarshal_model(init[i].1)->Some_0,
                    ));
                } else {
                    assert(s[i] == s.last());
                }
            }
        }
    }
}

/// Round-trip law: a structured value embedded into the engine's value space
/// always marshals back to itself; the partial inverse is a true inverse on
/// the image of the embedding.
pub proof fn lemma_marshal_round_trip(v: ValueModel)
    ensures
        unmarshal_model(marshal_model(v)) == Some(v),
    decreases v,
{
    match v {
        ValueModel::Array(a) => {
            let ms = marshal_models(a);
            lemma_marshal_models(a);
            assert forall|i: int| 0 <= i < ms.len() implies unmarshal_model(
                #[trigger] ms[i],
            ) is Some by {
                lemma_marshal_round_trip(a[i]);
            }
            lemma_unmarshal_models(ms);
            let back = unmarshal_models(ms)->Some_0;
            assert forall|i: int| 0 <= i < back.len() implies back[i] == a[i] by {
                lemma_marshal_round_trip(a[i]);
            }
            assert(back =~= a);
        },
        ValueModel::Object(m) => {
            let ms = marshal_entry_models(m);
            lemma_marshal_entry_models(m);
            assert forall|i: int| 0 <= i < ms.len() implies unmarshal_model(
                (#[trigger] ms[i]).1,
            ) is Some by {
                lemma_marshal_round_trip(m[i].1);
            }
            lemma_unmarshal_entry_models(ms);
            let back = unmarshal_entry_models(ms)->Some_0;
            assert forall|i: int| 0 <= i < back.len() implies back[i] == m[i] by {
                lemma_marshal_round_trip(m[i].1);
            }
            assert(back =~= m);
        },
        _ => {},
    }
}

/// Marshals a structured argument into the engine's value representation:
/// arrays to arrays, objects to objects, primitives to primitives,
/// recursively. Total over the structured value shape.
#[verifier::loop_isolation(false)]
pub fn marshal_argument(v: &Value) -> (r: EngineValue)
    ensures
        r@ == marshal_model(v@),
    decreases *v,
{
    match v {
        Value::Null => EngineValue::Null,
        Value::Bool(b) => EngineValue::Bool(*b),
        Value::Number(n) => EngineValue::Number(*n),
        Value::Text(s) => EngineValue::Text(s.clone()),
        Value::Array(items) => {
            let mut out: Vec<EngineValue> = Vec::new();
            let mut i: usize = 0;
            while i < items.len()
                invariant
                    i <= items.len(),
                    out@.len() == i as int,
                    forall|j: int|
                        0 <= j < i as int ==> engine_model(#[trigger] out@[j]) == marshal_model(
                            value_model(items@[j]),
                        ),
                decreases items@.len() - i,
            {
                let ev = marshal_argument(&items[i]);
                out.push(ev);
                i = i + 1;
            }
            proof {
                lemma_value_models(items@);
                lemma_marshal_models(value_models(items@));
                lemma_engine_models(out@);
                assert(engine_models(out@) =~= marshal_models(value_models(items@)));
            }
            EngineValue::Array(out)
        },
        Value::Object(entries) => {
            let mut out: Vec<(String, EngineValue)> = Vec::new();
            let mut i: usize = 0;
            while i < entries.len()
                invariant
                    i <= entries.len(),
                    out@.len() == i as int,
                    forall|j: int|
                        0 <= j < i as int ==> (#[trigger] out@[j]).0@ == entries@[j].0@
                            && engine_model(out@[j].1) == marshal_model(
                            value_model(entries@[j].1),
                        ),
                decreases entries@.len() - i,
            {
                let key = entries[i].0.clone();
                let ev = marshal_argument(&entries[i].1);
                out.push((key, ev));
                i = i + 1;
            }
            proof {
                lemma_value_entry_models(entries@);
                lemma_marshal_entry_models(value_entry_models(entries@));
                lemma_engine_entry_models(out@);
                assert(engine_entry_models(out@) =~= marshal_entry_models(
                    value_entry_models(entries@),
                ));
            }
            EngineValue::Object(out)
        },
    }
}

/// Marshals an engine value back into the structured shape. Fails exactly
/// when the value is not representable: it is or contains `undefined`, a live
/// callable, or other opaque engine-native data.
#[verifier::loop_isolation(false)]
pub fn unmarshal_result(e: &EngineValue) -> (r: Option<Value>)
    ensures
        r is Some <==> unmarshal_model(e@) is Some,
        r is Some ==> r->Some_0@ == unmarshal_model(e@)->Some_0,
    decreases *e,
{
    match e {
        EngineValue::Null => Some(Value::Null),
        EngineValue::Undefined => None,
        EngineValue::Bool(b) => Some(Value::Bool(*b)),
        EngineValue::Number(n) => Some(Value::Number(*n)),
        EngineValue::Text(s) => Some(Value::Text(s.clone())),
        EngineValue::Array(items) => {
            let mut out: Vec<Value> = Vec::new();
            let mut i: usize = 0;
            while i < items.len()
                invariant
                    i <= items.len(),
                    out@.len() == i as int,
                    forall|j: int|
                        0 <= j < i as int ==> unmarshal_model(
                            engine_model(#[trigger] items@[j]),
                        ) is Some,
                    forall|j: int|
                        0 <= j < i as int ==> value_model(#[trigger] out@[j]) == unmarshal_model(
                            engine_model(items@[j]),
                        )->Some_0,
                decreases items@.len() - i,
            {
                match unmarshal_result(&items[i]) {
                    Some(val) => {
                        out.push(val);
                    },
                    None => {
                        proof {
                            lemma_engine_models(items@);
                            lemma_unmarshal_models(engine_models(items@));
                            assert(unmarshal_model(engine_models(items@)[i as int]) is None);
                        }
                        return None;
                    },
                }
                i = i + 1;
            }
            proof {
                lemma_engine_models(items@);
                lemma_unmarshal_models(engine_models(items@));
                lemma_value_models(out@);
                assert(value_models(out@) =~= unmarshal_models(engine_models(items@))->Some_0);
            }
            Some(Value::Array(out))
        },
        EngineValue::Object(entries) => {
            let mut out: Vec<(String, Value)> = Vec::new();
            let mut i: usize = 0;
            while i < entries.len()
                invariant
                    i <= entries.len(),
                    out@.len() == i as int,
                    forall|j: int|
                        0 <= j < i as int ==> unmarshal_model(
                            engine_model((#[trigger] entries@[j]).1),
                        ) is Some,
                    forall|j: int|
                        0 <= j < i as int ==> (#[trigger] out@[j]).0@ == entries@[j].0@
                            && value_model(out@[j].1) == unmarshal_model(
                            engine_model(entries@[j].1),
                        )->Some_0,
                decreases entries@.len() - i,
            {
                match unmarshal_result(&entries[i].1) {
                    Some(val) => {
                        let key = entries[i].0.clone();
                        out.push((key, val));
                    },
                    None => {
                        proof {
                            lemma_engine_entry_models(entries@);
                            lemma_unmarshal_entry_models(engine_entry_models(entries@));
                            assert(unmarshal_model(
                                engine_entry_models(entries@)[i as int].1,
                            ) is None);
                        }
                        return None;
                    },
                }
                i = i + 1;
            }
            proof {
                lemma_engine_entry_models(entries@);
                lemma_unmarshal_entry_models(engine_entry_models(entries@));
                lemma_value_entry_models(out@);
                assert(value_entry_models(out@) =~= unmarshal_entry_models(
                    engine_entry_models(entries@),
                )->Some_0);
            }
            Some(Value::Object(out))
        },
        EngineValue::Callable(_) => None,
        EngineValue::Opaque(_) => None,
    }
}

} // verus!
