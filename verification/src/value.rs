//! Flag values, and the values that JSON documents stand for.

use vstd::prelude::*;

use crate::evaluation::{
    evaluation_error, mismatch, ErrorView, EvaluationErrorCode, EvaluationResult,
};
use crate::json::{Json, JsonView};
use crate::text_map::{lemma_value_smaller, TextMap};

verus! {

/// A flag value. A double is held by its bits.
#[derive(Debug)]
pub enum FlagValue {
    Bool(bool),
    Int(i64),
    Float(u64),
    String(String),
    Array(Vec<FlagValue>),
    Struct(StructValue),
}

/// A structure of named values.
#[derive(Debug)]
pub struct StructValue {
    pub fields: TextMap<FlagValue>,
}

/// The model of [`FlagValue`].
#[verifier::ext_equal]
pub enum ValueView {
    Bool(bool),
    Int(i64),
    Float(u64),
    String(Seq<char>),
    Array(Seq<ValueView>),
    Struct(Map<Seq<char>, ValueView>),
}

impl View for FlagValue {
    type V = ValueView;

    open spec fn view(&self) -> ValueView {
        value_model(*self)
    }
}

impl View for StructValue {
    type V = Map<Seq<char>, ValueView>;

    open spec fn view(&self) -> Map<Seq<char>, ValueView> {
        struct_model(*self)
    }
}

/// The model of a value.
pub open spec fn value_model(value: FlagValue) -> ValueView
    decreases value,
{
    match value {
        FlagValue::Bool(value) => ValueView::Bool(value),
        FlagValue::Int(value) => ValueView::Int(value),
        FlagValue::Float(bits) => ValueView::Float(bits),
        FlagValue::String(text) => ValueView::String(text@),
        FlagValue::Array(items) => ValueView::Array(
            Seq::new(
                items@.len(),
                |i: int|
                    if 0 <= i < items@.len() {
                        value_model(items@[i])
                    } else {
                        ValueView::Bool(false)
                    },
            ),
        ),
        FlagValue::Struct(value) => ValueView::Struct(struct_model(value)),
    }
}

/// The model of a structure: the models of its values, under their names.
pub open spec fn struct_model(value: StructValue) -> Map<Seq<char>, ValueView>
    decreases value,
{
    proof {
        assert forall|key: Seq<char>| value.fields@.contains_key(key) implies decreases_to!(
            value.fields => value.fields@[key]
        ) by {
            lemma_value_smaller(value.fields, key);
        }
    }
    Map::new(
        |key: Seq<char>| value.fields@.contains_key(key),
        |key: Seq<char>|
            if value.fields@.contains_key(key) {
                value_model(value.fields@[key])
            } else {
                ValueView::Bool(false)
            },
    )
}

/// The value that a JSON document stands for, or the error that comes first in it.
pub open spec fn converted(json: JsonView) -> Result<ValueView, ErrorView>
    decreases json,
{
    match json {
        JsonView::Null => Err(mismatch("JSON null is not a supported OpenFeature object value"@)),
        JsonView::Bool(value) => Ok(ValueView::Bool(value)),
        JsonView::Number { whole, double_bits } => match (whole, double_bits) {
            (Some(value), _) => Ok(ValueView::Int(value)),
            (None, Some(bits)) => Ok(ValueView::Float(bits)),
            (None, None) => Err(mismatch("JSON number cannot be represented as i64 or f64"@)),
        },
        JsonView::String(text) => Ok(ValueView::String(text)),
        JsonView::Array(items) => match converted_items(items) {
            Ok(values) => Ok(ValueView::Array(values)),
            Err(error) => Err(error),
        },
        JsonView::Object(fields) => match converted_fields(fields) {
            Ok(values) => Ok(ValueView::Struct(values)),
            Err(error) => Err(error),
        },
    }
}

/// The values that the items of a JSON array stand for, in their order.
pub open spec fn converted_items(items: Seq<JsonView>) -> Result<Seq<ValueView>, ErrorView>
    decreases items,
{
    if items.len() == 0 {
        Ok(Seq::empty())
    } else {
        match converted_items(items.drop_last()) {
            Ok(values) => match converted(items.last()) {
                Ok(value) => Ok(values.push(value)),
                Err(error) => Err(error),
            },
            Err(error) => Err(error),
        }
    }
}

/// The values that the members of a JSON object stand for, under their names.
pub open spec fn converted_fields(fields: Seq<(Seq<char>, JsonView)>) -> Result<
    Map<Seq<char>, ValueView>,
    ErrorView,
>
    decreases fields,
{
    if fields.len() == 0 {
        Ok(Map::empty())
    } else {
        match converted_fields(fields.drop_last()) {
            Ok(values) => match converted(fields.last().1) {
                Ok(value) => Ok(values.insert(fields.last().0, value)),
                Err(error) => Err(error),
            },
            Err(error) => Err(error),
        }
    }
}

/// Turns a JSON document into a flag value. A null has none, at any depth.
pub fn json_to_openfeature_value(value: Json) -> (result: EvaluationResult<FlagValue>)
    ensures
        match converted(value@) {
            Ok(expected) => result matches Ok(value) && value@ == expected,
            Err(expected) => result matches Err(error) && error@ == expected,
        },
    decreases value,
{
    match value {
        Json::Null => Err(
            evaluation_error(
                EvaluationErrorCode::TypeMismatch,
                "JSON null is not a supported OpenFeature object value".to_owned(),
            ),
        ),
        Json::Bool(value) => Ok(FlagValue::Bool(value)),
        Json::Number { whole, double_bits } => {
            if let Some(value) = whole {
                Ok(FlagValue::Int(value))
            } else if let Some(bits) = double_bits {
                Ok(FlagValue::Float(bits))
            } else {
                Err(
                    evaluation_error(
                        EvaluationErrorCode::TypeMismatch,
                        "JSON number cannot be represented as i64 or f64".to_owned(),
                    ),
                )
            }
        },
        Json::String(text) => Ok(FlagValue::String(text)),
        Json::Array(items) => {
            let ghost models = items@.map_values(|item: Json| item@);
            assert(value@->Array_0 =~= models);
            match convert_items(items) {
                Ok(values) => {
                    let result = FlagValue::Array(values);
                    assert(result@->Array_0 =~= values@.map_values(|value: FlagValue| value@));
                    Ok(result)
                },
                Err(error) => Err(error),
            }
        },
        Json::Object(fields) => {
            let ghost models = fields@.map_values(|field: (String, Json)| (field.0@, field.1@));
            assert(value@->Object_0 =~= models);
            match convert_fields(fields) {
                Ok(fields) => Ok(FlagValue::Struct(StructValue { fields })),
                Err(error) => Err(error),
            }
        },
    }
}

fn convert_items(items: Vec<Json>) -> (result: EvaluationResult<Vec<FlagValue>>)
    ensures
        match converted_items(items@.map_values(|item: Json| item@)) {
            Ok(expected) => result matches Ok(values) && values@.map_values(
                |value: FlagValue| value@,
            ) == expected,
            Err(expected) => result matches Err(error) && error@ == expected,
        },
    decreases items,
{
    let ghost all = items@;
    let ghost models = items@.map_values(|item: Json| item@);
    let mut values: Vec<FlagValue> = Vec::new();
    proof {
        assert(models.take(0) =~= Seq::empty());
        assert(values@.map_values(|value: FlagValue| value@) =~= Seq::empty());
    }
    for item in iter: items
        invariant
            iter.seq() == all,
            items@ == all,
            models == all.map_values(|item: Json| item@),
            converted_items(models.take(iter.index() as int)) == Ok::<_, ErrorView>(
                values@.map_values(|value: FlagValue| value@),
            ),
    {
        let ghost i = iter.index() as int;
        let ghost before = values@.map_values(|value: FlagValue| value@);
        proof {
            assert(item == all[i]);
            assert(models.take(i + 1).drop_last() =~= models.take(i));
            assert(models.take(i + 1).last() == item@);
        }
        match json_to_openfeature_value(item) {
            Ok(value) => {
                values.push(value);
                assert(values@.map_values(|value: FlagValue| value@) =~= before.push(value@));
            },
            Err(error) => {
                proof {
                    lemma_item_fails(models, i);
                }
                return Err(error);
            },
        }
    }
    proof {
        assert(models.take(all.len() as int) =~= models);
    }
    Ok(values)
}

fn convert_fields(fields: Vec<(String, Json)>) -> (result: EvaluationResult<TextMap<FlagValue>>)
    ensures
        match converted_fields(fields@.map_values(|field: (String, Json)| (field.0@, field.1@))) {
            Ok(expected) => result matches Ok(fields) && (StructValue { fields })@ == expected,
            Err(expected) => result matches Err(error) && error@ == expected,
        },
    decreases fields,
{
    let ghost all = fields@;
    let ghost models = fields@.map_values(|field: (String, Json)| (field.0@, field.1@));
    let mut values: TextMap<FlagValue> = TextMap::new();
    proof {
        assert(models.take(0) =~= Seq::empty());
        assert((StructValue { fields: values })@ =~= Map::empty());
    }
    for field in iter: fields
        invariant
            iter.seq() == all,
            fields@ == all,
            models == all.map_values(|field: (String, Json)| (field.0@, field.1@)),
            converted_fields(models.take(iter.index() as int)) == Ok::<_, ErrorView>(
                (StructValue { fields: values })@,
            ),
    {
        let ghost i = iter.index() as int;
        let ghost before = (StructValue { fields: values })@;
        proof {
            assert(field == all[i]);
            assert(models.take(i + 1).drop_last() =~= models.take(i));
            assert(models.take(i + 1).last() == (field.0@, field.1@));
        }
        let (key, member) = field;
        match json_to_openfeature_value(member) {
            Ok(value) => {
                let ghost name = key@;
                values.insert(key, value);
                assert((StructValue { fields: values })@ =~= before.insert(name, value@));
            },
            Err(error) => {
                proof {
                    lemma_field_fails(models, i);
                }
                return Err(error);
            },
        }
    }
    proof {
        assert(models.take(all.len() as int) =~= models);
    }
    Ok(values)
}

pub(crate) proof fn lemma_item_fails(items: Seq<JsonView>, i: int)
    requires
        0 <= i < items.len(),
        converted_items(items.take(i)) is Ok,
        converted(items[i]) is Err,
    ensures
        converted_items(items) == Err::<Seq<ValueView>, ErrorView>(converted(items[i])->Err_0),
    decreases items.len(),
{
    let init = items.drop_last();
    if i == items.len() - 1 {
        assert(items.take(i) =~= init);
    } else {
        assert(items.take(i) =~= init.take(i));
        lemma_item_fails(init, i);
    }
}

pub(crate) proof fn lemma_field_fails(fields: Seq<(Seq<char>, JsonView)>, i: int)
    requires
        0 <= i < fields.len(),
        converted_fields(fields.take(i)) is Ok,
        converted(fields[i].1) is Err,
    ensures
        converted_fields(fields) == Err::<Map<Seq<char>, ValueView>, ErrorView>(
            converted(fields[i].1)->Err_0,
        ),
    decreases fields.len(),
{
    let init = fields.drop_last();
    if i == fields.len() - 1 {
        assert(fields.take(i) =~= init);
    } else {
        assert(fields.take(i) =~= init.take(i));
        lemma_field_fails(init, i);
    }
}

} // verus!
