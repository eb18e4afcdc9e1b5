//! Variants, and what their payloads resolve to.

use vstd::prelude::*;

use crate::context::text_values;
use crate::evaluation::{
    describes, evaluation_error, mismatch, parse_failure, resolution, ErrorCodeView, ErrorView,
    EvaluationErrorCode, EvaluationReason, EvaluationResult, ResolutionDetails,
};
use crate::json::{json_contents, json_error_message, json_of_text, parse_json};
use crate::text::{quote, quote_list, quoted, quoted_list, same_text, texts};
use crate::text_map::TextMap;
use crate::value::{converted, json_to_openfeature_value, FlagValue, StructValue, ValueView};

verus! {

/// What `str::parse` reports of a text that is no integer.
#[verifier::external_type_specification]
#[verifier::external_body]
pub struct ExParseIntError(core::num::ParseIntError);

/// The error with which a text is refused as an `i64`.
pub uninterp spec fn integer_error(text: Seq<char>) -> core::num::ParseIntError;

/// What a `ParseIntError` says when it is printed.
pub uninterp spec fn integer_error_message(error: core::num::ParseIntError) -> Seq<char>;

/// The character is one of the ten decimal digits.
pub open spec fn is_digit(c: char) -> bool {
    '0' as u32 <= c as u32 <= '9' as u32
}

/// The text is one or more decimal digits.
pub open spec fn all_digits(text: Seq<char>) -> bool {
    text.len() > 0 && forall|i: int| 0 <= i < text.len() ==> is_digit(#[trigger] text[i])
}

/// The number that decimal digits stand for.
pub open spec fn digits_value(text: Seq<char>) -> int
    decreases text.len(),
{
    if text.len() == 0 {
        0
    } else {
        digits_value(text.drop_last()) * 10 + (text.last() as u32 - '0' as u32)
    }
}

/// The integer that a text denotes: decimal digits, with an optional sign in front of them.
pub open spec fn integer_value(text: Seq<char>) -> Option<int> {
    if text.len() > 0 && (text[0] == '-' || text[0] == '+') {
        if !all_digits(text.drop_first()) {
            None
        } else if text[0] == '-' {
            Some(-digits_value(text.drop_first()))
        } else {
            Some(digits_value(text.drop_first()))
        }
    } else if all_digits(text) {
        Some(digits_value(text))
    } else {
        None
    }
}

/// What a text is as an `i64`, or how it is refused.
pub open spec fn integer_payload(text: Seq<char>) -> Result<i64, ErrorView> {
    match integer_value(text) {
        Some(value) => if i64::MIN <= value <= i64::MAX {
            Ok(value as i64)
        } else {
            Err(parse_failure(integer_error_message(integer_error(text))))
        },
        None => Err(parse_failure(integer_error_message(integer_error(text)))),
    }
}

/// Calls `str::parse::<i64>`. The contract claims that it accepts an optional sign followed by
/// decimal digits, where the number fits, and gives that number; and that the error it refuses
/// every other text with is determined by the text.
#[verifier::external_body]
fn parse_i64(text: &str) -> (result: Result<i64, core::num::ParseIntError>)
    ensures
        match integer_value(text@) {
            Some(value) => if i64::MIN <= value <= i64::MAX {
                result == Ok::<i64, core::num::ParseIntError>(value as i64)
            } else {
                result == Err::<i64, core::num::ParseIntError>(integer_error(text@))
            },
            None => result == Err::<i64, core::num::ParseIntError>(integer_error(text@)),
        },
{
    text.parse::<i64>()
}

/// Calls the `Display` formatting of `ParseIntError`. The contract claims that the message is
/// determined by the error.
#[verifier::external_body]
fn integer_error_text(error: &core::num::ParseIntError) -> (message: String)
    ensures
        message@ == integer_error_message(*error),
{
    error.to_string()
}

/// Parses a payload as an integer.
pub fn parse_int_payload(value: &str) -> (result: EvaluationResult<i64>)
    ensures
        match integer_payload(value@) {
            Ok(expected) => result == EvaluationResult::<i64>::Ok(expected),
            Err(expected) => result matches Err(error) && error@ == expected,
        },
{
    match parse_i64(value) {
        Ok(number) => Ok(number),
        Err(error) => Err(
            evaluation_error(EvaluationErrorCode::ParseError, integer_error_text(&error)),
        ),
    }
}

/// The variant of a flag that was selected for a context.
#[derive(Debug)]
pub struct Variant {
    pub name: String,
    pub payload: TextMap<String>,
    pub enabled: bool,
}

/// The model of [`Variant`].
#[verifier::ext_equal]
pub struct VariantView {
    pub name: Seq<char>,
    pub payload: Map<Seq<char>, Seq<char>>,
    pub enabled: bool,
}

impl View for Variant {
    type V = VariantView;

    open spec fn view(&self) -> VariantView {
        VariantView {
            name: self.name@,
            payload: text_values(self.payload@),
            enabled: self.enabled,
        }
    }
}

/// The message about a payload of another type than those expected.
pub open spec fn unexpected_type(found: Seq<char>, expected: Seq<Seq<char>>) -> Seq<char> {
    "Variant payload has type "@ + quoted(found) + ", expected one of "@ + quoted_list(expected)
}

/// The error that a disabled variant gives.
pub open spec fn disabled() -> ErrorView {
    ErrorView {
        code: ErrorCodeView::General("UNKNOWN"@),
        message: Some("Variant is disabled"@),
    }
}

/// The text of a variant's payload, where the variant is enabled, has a payload with a type and a
/// value, and the type is among those expected; else the error of the first of these that fails.
pub open spec fn selected_payload(variant: VariantView, expected: Seq<Seq<char>>) -> Result<
    Seq<char>,
    ErrorView,
> {
    if !variant.enabled {
        Err(disabled())
    } else if !variant.payload.contains_key("type"@) {
        Err(mismatch("Variant payload type is not present on the resolved variant"@))
    } else if !variant.payload.contains_key("value"@) {
        Err(mismatch("Variant payload value is not present on the resolved variant"@))
    } else if !expected.contains(variant.payload["type"@]) {
        Err(mismatch(unexpected_type(variant.payload["type"@], expected)))
    } else {
        Ok(variant.payload["value"@])
    }
}

fn contains_text(items: &[&str], text: &str) -> (found: bool)
    ensures
        found == texts(items@).contains(text@),
{
    let mut i: usize = 0;
    while i < items.len()
        invariant
            i <= items@.len(),
            forall|j: int| 0 <= j < i ==> (#[trigger] texts(items@)[j]) != text@,
        decreases items@.len() - i,
    {
        if same_text(items[i], text) {
            assert(texts(items@)[i as int] == text@);
            return true;
        }
        i += 1;
    }
    false
}

/// The text of a variant's payload, if it is of one of the types.
pub fn resolve_payload_value<'a>(variant: &'a Variant, payload_types: &[&str]) -> (result:
    EvaluationResult<&'a str>)
    ensures
        match selected_payload(variant@, texts(payload_types@)) {
            Ok(expected) => result matches Ok(text) && text@ == expected,
            Err(expected) => result matches Err(error) && error@ == expected,
        },
{
    if !variant.enabled {
        return Err(
            evaluation_error(
                EvaluationErrorCode::General("UNKNOWN".to_owned()),
                "Variant is disabled".to_owned(),
            ),
        );
    }
    let payload_type = match variant.payload.get("type") {
        Some(payload_type) => payload_type,
        None => {
            return Err(
                evaluation_error(
                    EvaluationErrorCode::TypeMismatch,
                    "Variant payload type is not present on the resolved variant".to_owned(),
                ),
            );
        },
    };
    let payload_value = match variant.payload.get("value") {
        Some(payload_value) => payload_value,
        None => {
            return Err(
                evaluation_error(
                    EvaluationErrorCode::TypeMismatch,
                    "Variant payload value is not present on the resolved variant".to_owned(),
                ),
            );
        },
    };
    if !contains_text(payload_types, payload_type.as_str()) {
        let mut message = "Variant payload has type ".to_owned();
        message.append(quote(payload_type.as_str()).as_str());
        message.append(", expected one of ");
        message.append(quote_list(payload_types).as_str());
        return Err(evaluation_error(EvaluationErrorCode::TypeMismatch, message));
    }
    Ok(payload_value.as_str())
}

/// The details of a variant's payload, converted by `convert`, if it is of one of the types.
pub fn variant_details<T, F: FnOnce(&str) -> EvaluationResult<T>>(
    variant: &Variant,
    payload_types: &[&str],
    convert: F,
) -> (result: EvaluationResult<ResolutionDetails<T>>)
    requires
        forall|text: &str| #[trigger] convert.requires((text,)),
    ensures
        match selected_payload(variant@, texts(payload_types@)) {
            Ok(payload) => exists|text: &str, outcome: EvaluationResult<T>|
                text@ == payload && #[trigger] convert.ensures((text,), outcome) && match outcome {
                    Ok(value) => result matches Ok(details) && details.value == value && describes(
                        details,
                        Some(variant@.name),
                    ),
                    Err(error) => result == EvaluationResult::<ResolutionDetails<T>>::Err(error),
                },
            Err(expected) => result matches Err(error) && error@ == expected,
        },
{
    let variant_name = Some(variant.name.clone());
    let payload_value = match resolve_payload_value(variant, payload_types) {
        Ok(payload_value) => payload_value,
        Err(error) => {
            return Err(error);
        },
    };
    let outcome = convert(payload_value);
    assert(convert.ensures((payload_value,), outcome));
    match outcome {
        Ok(value) => Ok(resolution(value, variant_name, EvaluationReason::Unknown)),
        Err(error) => Err(error),
    }
}

/// The payload type of numbers.
pub open spec fn number_types() -> Seq<Seq<char>> {
    seq!["number"@]
}

/// The payload types of texts.
pub open spec fn string_types() -> Seq<Seq<char>> {
    seq!["string"@, "csv"@]
}

/// The payload type of JSON documents.
pub open spec fn json_types() -> Seq<Seq<char>> {
    seq!["json"@]
}

/// What a variant resolves to as an integer.
pub open spec fn int_of_variant(variant: VariantView) -> Result<i64, ErrorView> {
    match selected_payload(variant, number_types()) {
        Ok(text) => integer_payload(text),
        Err(error) => Err(error),
    }
}

/// What a variant resolves to as a text: its payload as it is.
pub open spec fn string_of_variant(variant: VariantView) -> Result<Seq<char>, ErrorView> {
    selected_payload(variant, string_types())
}

/// What a variant resolves to as a value of any kind.
pub open spec fn object_of_variant(variant: VariantView) -> Result<ValueView, ErrorView> {
    match selected_payload(variant, json_types()) {
        Ok(text) => match json_of_text(text) {
            Ok(value) => converted(json_contents(value)),
            Err(error) => Err(parse_failure(json_error_message(error))),
        },
        Err(error) => Err(error),
    }
}

/// What a value is as a structure.
pub open spec fn structure_of(value: ValueView) -> Result<Map<Seq<char>, ValueView>, ErrorView> {
    match value {
        ValueView::Struct(fields) => Ok(fields),
        ValueView::Array(_) => Err(
            mismatch(
                "OpenFeature Rust provider API does not support top-level array object values"@,
            ),
        ),
        _ => Err(mismatch("Variant payload is not a JSON object"@)),
    }
}

/// What a variant resolves to as a structure.
pub open spec fn struct_of_variant(variant: VariantView) -> Result<
    Map<Seq<char>, ValueView>,
    ErrorView,
> {
    match object_of_variant(variant) {
        Ok(value) => structure_of(value),
        Err(error) => Err(error),
    }
}

/// The details of whether a flag is enabled. They name no variant.
pub fn bool_details(enabled: bool) -> (details: ResolutionDetails<bool>)
    ensures
        details.value == enabled,
        describes(details, None),
{
    resolution(enabled, None, EvaluationReason::Unknown)
}

/// The details of a variant as an integer.
pub fn int_details(variant: &Variant) -> (result: EvaluationResult<ResolutionDetails<i64>>)
    ensures
        match int_of_variant(variant@) {
            Ok(expected) => result matches Ok(details) && details.value == expected && describes(
                details,
                Some(variant@.name),
            ),
            Err(expected) => result matches Err(error) && error@ == expected,
        },
{
    let payload_types = ["number"];
    proof {
        assert(texts(payload_types@) =~= number_types());
    }
    variant_details(variant, &payload_types, parse_int_payload)
}

/// The details of a variant as a number of a type that `parse` knows.
pub fn number_details<T, F: FnOnce(&str) -> EvaluationResult<T>>(
    variant: &Variant,
    parse: F,
) -> (result: EvaluationResult<ResolutionDetails<T>>)
    requires
        forall|text: &str| #[trigger] parse.requires((text,)),
    ensures
        match selected_payload(variant@, number_types()) {
            Ok(payload) => exists|text: &str, outcome: EvaluationResult<T>|
                text@ == payload && #[trigger] parse.ensures((text,), outcome) && match outcome {
                    Ok(value) => result matches Ok(details) && details.value == value && describes(
                        details,
                        Some(variant@.name),
                    ),
                    Err(error) => result == EvaluationResult::<ResolutionDetails<T>>::Err(error),
                },
            Err(expected) => result matches Err(error) && error@ == expected,
        },
{
    let payload_types = ["number"];
    proof {
        assert(texts(payload_types@) =~= number_types());
    }
    variant_details(variant, &payload_types, parse)
}

fn text_payload(value: &str) -> (result: EvaluationResult<String>)
    ensures
        result matches Ok(text) && text@ == value@,
{
    Ok(value.to_owned())
}

/// The details of a variant as a text.
pub fn string_details(variant: &Variant) -> (result: EvaluationResult<ResolutionDetails<String>>)
    ensures
        match string_of_variant(variant@) {
            Ok(expected) => result matches Ok(details) && details.value@ == expected && describes(
                details,
                Some(variant@.name),
            ),
            Err(expected) => result matches Err(error) && error@ == expected,
        },
{
    let payload_types = ["string", "csv"];
    proof {
        assert(texts(payload_types@) =~= string_types());
    }
    variant_details(variant, &payload_types, text_payload)
}

/// The details of a variant as a value of any kind.
pub fn object_details(variant: &Variant) -> (result: EvaluationResult<ResolutionDetails<FlagValue>>)
    ensures
        match object_of_variant(variant@) {
            Ok(expected) => result matches Ok(details) && details.value@ == expected && describes(
                details,
                Some(variant@.name),
            ),
            Err(expected) => result matches Err(error) && error@ == expected,
        },
{
    let variant_name = Some(variant.name.clone());
    let payload_types = ["json"];
    proof {
        assert(texts(payload_types@) =~= json_types());
    }
    let payload_value = match resolve_payload_value(variant, &payload_types) {
        Ok(payload_value) => payload_value,
        Err(error) => {
            return Err(error);
        },
    };
    let json = match parse_json(payload_value) {
        Ok(json) => json,
        Err(error) => {
            return Err(error);
        },
    };
    match json_to_openfeature_value(json) {
        Ok(value) => Ok(resolution(value, variant_name, EvaluationReason::Unknown)),
        Err(error) => Err(error),
    }
}

/// The details of a value of any kind, as those of a structure. They keep the variant.
pub fn struct_details(details: ResolutionDetails<FlagValue>) -> (result: EvaluationResult<
    ResolutionDetails<StructValue>,
>)
    ensures
        match structure_of(details.value@) {
            Ok(expected) => result matches Ok(structure) && structure.value@ == expected
                && structure.variant == details.variant && structure.reason == Some(
                EvaluationReason::Unknown,
            ) && structure.flag_metadata is None,
            Err(expected) => result matches Err(error) && error@ == expected,
        },
{
    match details.value {
        FlagValue::Struct(value) => Ok(
            resolution(value, details.variant, EvaluationReason::Unknown),
        ),
        FlagValue::Array(_) => Err(
            evaluation_error(
                EvaluationErrorCode::TypeMismatch,
                "OpenFeature Rust provider API does not support top-level array object values"
                    .to_owned(),
            ),
        ),
        _ => Err(
            evaluation_error(
                EvaluationErrorCode::TypeMismatch,
                "Variant payload is not a JSON object".to_owned(),
            ),
        ),
    }
}

} // verus!
