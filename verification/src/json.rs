//! JSON documents: their model, and how a text is read as one.

use vstd::prelude::*;

use crate::evaluation::{evaluation_error, parse_failure, EvaluationErrorCode, EvaluationResult};

verus! {

/// A JSON document. A number is held by what it is as an `i64` and by the bits of what it is as a
/// double, where it is either.
#[derive(Debug)]
pub enum Json {
    Null,
    Bool(bool),
    Number { whole: Option<i64>, double_bits: Option<u64> },
    String(String),
    Array(Vec<Json>),
    Object(Vec<(String, Json)>),
}

/// The model of [`Json`].
#[verifier::ext_equal]
pub enum JsonView {
    Null,
    Bool(bool),
    Number { whole: Option<i64>, double_bits: Option<u64> },
    String(Seq<char>),
    Array(Seq<JsonView>),
    Object(Seq<(Seq<char>, JsonView)>),
}

impl View for Json {
    type V = JsonView;

    open spec fn view(&self) -> JsonView {
        json_model(*self)
    }
}

/// The model of a document.
pub open spec fn json_model(json: Json) -> JsonView
    decreases json,
{
    match json {
        Json::Null => JsonView::Null,
        Json::Bool(value) => JsonView::Bool(value),
        Json::Number { whole, double_bits } => JsonView::Number { whole, double_bits },
        Json::String(text) => JsonView::String(text@),
        Json::Array(items) => JsonView::Array(
            Seq::new(
                items@.len(),
                |i: int|
                    if 0 <= i < items@.len() {
                        json_model(items@[i])
                    } else {
                        JsonView::Null
                    },
            ),
        ),
        Json::Object(fields) => JsonView::Object(
            Seq::new(
                fields@.len(),
                |i: int|
                    if 0 <= i < fields@.len() {
                        (fields@[i].0@, json_model(fields@[i].1))
                    } else {
                        (Seq::empty(), JsonView::Null)
                    },
            ),
        ),
    }
}

/// A JSON value as `serde_json` holds it.
#[verifier::external_type_specification]
#[verifier::external_body]
pub struct ExJsonValue(serde_json::Value);

/// A JSON number as `serde_json` holds it.
#[verifier::external_type_specification]
#[verifier::external_body]
pub struct ExJsonNumber(serde_json::Number);

/// What `serde_json` reports of a text that is not JSON.
#[verifier::external_type_specification]
#[verifier::external_body]
pub struct ExJsonError(serde_json::Error);

/// What `serde_json::from_str` makes of a text.
pub uninterp spec fn json_of_text(text: Seq<char>) -> Result<serde_json::Value, serde_json::Error>;

/// What a `serde_json::Error` says when it is printed.
pub uninterp spec fn json_error_message(error: serde_json::Error) -> Seq<char>;

/// What a `serde_json::Value` holds, down to its leaves.
pub uninterp spec fn json_contents(value: serde_json::Value) -> JsonView;

/// What `serde_json::Number::as_i64` returns.
pub uninterp spec fn number_whole(number: serde_json::Number) -> Option<i64>;

/// The bits of what `serde_json::Number::as_f64` returns.
pub uninterp spec fn number_double_bits(number: serde_json::Number) -> Option<u64>;

/// Calls `serde_json::from_str`. The contract claims that the result is determined by the text;
/// which texts are JSON is left to the crate.
#[verifier::external_body]
fn json_from_str(text: &str) -> (result: Result<serde_json::Value, serde_json::Error>)
    ensures
        result == json_of_text(text@),
{
    serde_json::from_str(text)
}

/// Calls the `Display` formatting of `serde_json::Error`. The contract claims that the message is
/// determined by the error.
#[verifier::external_body]
fn json_error_text(error: &serde_json::Error) -> (message: String)
    ensures
        message@ == json_error_message(*error),
{
    error.to_string()
}

/// Calls `serde_json::Number::as_i64`. The contract claims that the result is determined by the
/// number.
#[verifier::external_body]
fn number_as_i64(number: &serde_json::Number) -> (whole: Option<i64>)
    ensures
        whole == number_whole(*number),
{
    number.as_i64()
}

/// Calls `serde_json::Number::as_f64` and takes the bits of what it returns. The contract claims
/// that they are determined by the number.
#[verifier::external_body]
fn number_as_double_bits(number: &serde_json::Number) -> (bits: Option<u64>)
    ensures
        bits == number_double_bits(*number),
{
    match number.as_f64() {
        Some(value) => Some(value.to_bits()),
        None => None,
    }
}

/// One level of a `serde_json::Value`.
enum JsonNode {
    Null,
    Bool(bool),
    Number(serde_json::Number),
    String(String),
    Array(Vec<serde_json::Value>),
    Object(Vec<(String, serde_json::Value)>),
}

/// Takes a `serde_json::Value` apart, one level deep; the members of an object come from the
/// iterator of `serde_json::Map`. The contract claims that the node has the value's own variant
/// and that what the value holds is made up of what the parts of the node hold, in their order.
#[verifier::external_body]
fn json_node(value: serde_json::Value) -> (node: JsonNode)
    ensures
        json_contents(value) == (match node {
            JsonNode::Null => JsonView::Null,
            JsonNode::Bool(value) => JsonView::Bool(value),
            JsonNode::Number(number) => JsonView::Number {
                whole: number_whole(number),
                double_bits: number_double_bits(number),
            },
            JsonNode::String(text) => JsonView::String(text@),
            JsonNode::Array(items) => JsonView::Array(
                items@.map_values(|item: serde_json::Value| json_contents(item)),
            ),
            JsonNode::Object(fields) => JsonView::Object(
                fields@.map_values(
                    |field: (String, serde_json::Value)| (field.0@, json_contents(field.1)),
                ),
            ),
        }),
{
    match value {
        serde_json::Value::Null => JsonNode::Null,
        serde_json::Value::Bool(value) => JsonNode::Bool(value),
        serde_json::Value::Number(number) => JsonNode::Number(number),
        serde_json::Value::String(text) => JsonNode::String(text),
        serde_json::Value::Array(items) => JsonNode::Array(items),
        serde_json::Value::Object(fields) => JsonNode::Object(fields.into_iter().collect()),
    }
}

/// Reads a `serde_json::Value` as a document.
pub fn read_json(value: serde_json::Value) -> (json: Json)
    ensures
        json@ == json_contents(value),
    decreases json_contents(value),
{
    match json_node(value) {
        JsonNode::Null => Json::Null,
        JsonNode::Bool(value) => Json::Bool(value),
        JsonNode::Number(number) => Json::Number {
            whole: number_as_i64(&number),
            double_bits: number_as_double_bits(&number),
        },
        JsonNode::String(text) => Json::String(text),
        JsonNode::Array(items) => {
            let ghost all = items@;
            let ghost contents = json_contents(value);
            let mut read: Vec<Json> = Vec::new();
            for item in iter: items
                invariant
                    iter.seq() == all,
                    contents == json_contents(value),
                    contents == JsonView::Array(
                        all.map_values(|item: serde_json::Value| json_contents(item)),
                    ),
                    read@.len() == iter.index(),
                    forall|i: int|
                        0 <= i < read@.len() ==> (#[trigger] read@[i])@ == json_contents(all[i]),
            {
                proof {
                    assert(contents->Array_0[iter.index() as int] == json_contents(item));
                }
                read.push(read_json(item));
            }
            let json = Json::Array(read);
            assert(json@->Array_0 =~= contents->Array_0);
            json
        },
        JsonNode::Object(fields) => {
            let ghost all = fields@;
            let ghost contents = json_contents(value);
            let mut read: Vec<(String, Json)> = Vec::new();
            for field in iter: fields
                invariant
                    iter.seq() == all,
                    contents == json_contents(value),
                    contents == JsonView::Object(
                        all.map_values(
                            |field: (String, serde_json::Value)|
                                (field.0@, json_contents(field.1)),
                        ),
                    ),
                    read@.len() == iter.index(),
                    forall|i: int|
                        0 <= i < read@.len() ==> (#[trigger] read@[i]).0@ == all[i].0@
                            && read@[i].1@ == json_contents(all[i].1),
            {
                proof {
                    let i = iter.index() as int;
                    assert(contents->Object_0[i] == (field.0@, json_contents(field.1)));
                    assert(decreases_to!(contents->Object_0[i] => contents->Object_0[i].1));
                }
                let (name, member) = field;
                read.push((name, read_json(member)));
            }
            let json = Json::Object(read);
            assert(json@->Object_0 =~= contents->Object_0);
            json
        },
    }
}

/// Parses a text as a JSON document.
pub fn parse_json(text: &str) -> (result: EvaluationResult<Json>)
    ensures
        match json_of_text(text@) {
            Ok(value) => result matches Ok(json) && json@ == json_contents(value),
            Err(error) => result matches Err(failure) && failure@ == parse_failure(
                json_error_message(error),
            ),
        },
{
    match json_from_str(text) {
        Ok(value) => Ok(read_json(value)),
        Err(error) => Err(
            evaluation_error(EvaluationErrorCode::ParseError, json_error_text(&error)),
        ),
    }
}

} // verus!
