//! What holds of the things that variants resolve to.

use vstd::prelude::*;

use crate::evaluation::{mismatch, parse_failure, ErrorCodeView, ErrorView};
use crate::json::{json_contents, json_error_message, json_of_text, JsonView};
use crate::laws::law_decimals_resolve;
use crate::laws::texts::refused;
use crate::payload::{
    disabled, int_of_variant, integer_payload, integer_value, json_types, number_types,
    object_of_variant, selected_payload, string_of_variant, string_types, struct_of_variant,
    structure_of, VariantView,
};
use crate::text::{decimal, quoted, quoted_list};
use crate::value::{converted, ValueView};

verus! {

/// The variant is enabled, and its payload has the type and the value.
pub open spec fn carries(
    variant: VariantView,
    payload_type: Seq<char>,
    payload_value: Seq<char>,
) -> bool {
    &&& variant.enabled
    &&& variant.payload.contains_key("type"@)
    &&& variant.payload["type"@] == payload_type
    &&& variant.payload.contains_key("value"@)
    &&& variant.payload["value"@] == payload_value
}

/// The same enabling, type and value: two variants that differ, if at all, in their names and in
/// what else their payloads hold.
pub open spec fn alike(variant: VariantView, other: VariantView) -> bool {
    &&& variant.enabled == other.enabled
    &&& variant.payload.contains_key("type"@) == other.payload.contains_key("type"@)
    &&& variant.payload.contains_key("type"@) ==> variant.payload["type"@] == other.payload["type"@]
    &&& variant.payload.contains_key("value"@) == other.payload.contains_key("value"@)
    &&& variant.payload.contains_key("value"@) ==> variant.payload["value"@]
        == other.payload["value"@]
}

/// The error of a type that is not the one asked for.
pub open spec fn wrong_type(message: Seq<char>) -> ErrorView {
    ErrorView { code: ErrorCodeView::TypeMismatch, message: Some(message) }
}

/// A payload of an expected type, whichever type that is, is selected as it is.
pub proof fn law_expected_payloads_are_kept(
    variant: VariantView,
    expected: Seq<Seq<char>>,
    payload_type: Seq<char>,
    payload_value: Seq<char>,
)
    requires
        carries(variant, payload_type, payload_value),
        expected.contains(payload_type),
    ensures
        selected_payload(variant, expected) == Ok::<Seq<char>, ErrorView>(payload_value),
{
}

/// A payload of a type that is not expected is refused for its type, in a message with that type
/// and with those expected.
pub proof fn law_unexpected_payloads_are_refused(
    variant: VariantView,
    expected: Seq<Seq<char>>,
    payload_type: Seq<char>,
    payload_value: Seq<char>,
)
    requires
        carries(variant, payload_type, payload_value),
        !expected.contains(payload_type),
    ensures
        selected_payload(variant, expected) == Err::<Seq<char>, ErrorView>(
            wrong_type(
                "Variant payload has type "@ + quoted(payload_type) + ", expected one of "@
                    + quoted_list(expected),
            ),
        ),
{
}

/// What is missing is reported in a fixed order, before the type is looked at: that the variant
/// is enabled, then the type, then the value.
pub proof fn law_missing_parts_are_refused(variant: VariantView, expected: Seq<Seq<char>>)
    ensures
        !variant.enabled ==> selected_payload(variant, expected) == Err::<Seq<char>, ErrorView>(
            ErrorView {
                code: ErrorCodeView::General("UNKNOWN"@),
                message: Some("Variant is disabled"@),
            },
        ),
        variant.enabled && !variant.payload.contains_key("type"@) ==> selected_payload(
            variant,
            expected,
        ) == Err::<Seq<char>, ErrorView>(
            wrong_type("Variant payload type is not present on the resolved variant"@),
        ),
        variant.enabled && variant.payload.contains_key("type"@) && !variant.payload.contains_key(
            "value"@,
        ) ==> selected_payload(variant, expected) == Err::<Seq<char>, ErrorView>(
            wrong_type("Variant payload value is not present on the resolved variant"@),
        ),
{
}

/// Only the enabling, the type and the value of a variant bear on what is selected and on what
/// it resolves to; its name and the rest of its payload do not.
pub proof fn law_alike_variants_resolve_alike(
    variant: VariantView,
    other: VariantView,
    expected: Seq<Seq<char>>,
)
    requires
        alike(variant, other),
    ensures
        selected_payload(variant, expected) == selected_payload(other, expected),
        int_of_variant(variant) == int_of_variant(other),
        string_of_variant(variant) == string_of_variant(other),
        object_of_variant(variant) == object_of_variant(other),
        struct_of_variant(variant) == struct_of_variant(other),
{
}

/// A number payload in the decimal notation of an integer resolves to exactly that integer.
pub proof fn law_decimal_variants_are_integers(variant: VariantView, value: i64)
    requires
        carries(variant, "number"@, decimal(value as int)),
    ensures
        int_of_variant(variant) == Ok::<i64, ErrorView>(value),
{
    law_decimals_resolve(value);
    lemma_number_type();
}

/// A number payload resolves to the integer that its text denotes, where it denotes one that
/// fits, and is refused as unparsable everywhere else.
pub proof fn law_number_variants_are_what_they_denote(
    variant: VariantView,
    text: Seq<char>,
    value: i64,
)
    requires
        carries(variant, "number"@, text),
    ensures
        int_of_variant(variant) == Ok::<i64, ErrorView>(value) <==> integer_value(text) == Some(
            value as int,
        ),
        int_of_variant(variant) is Err ==> int_of_variant(variant) == refused(text),
        int_of_variant(variant) == integer_payload(text),
{
    lemma_number_type();
}

/// Two number payloads resolve to the same integer where one has a leading plus sign and the
/// other none.
pub proof fn law_plus_signs_change_nothing(
    variant: VariantView,
    signed: VariantView,
    value: i64,
)
    requires
        value >= 0,
        carries(variant, "number"@, decimal(value as int)),
        carries(signed, "number"@, seq!['+'] + decimal(value as int)),
    ensures
        int_of_variant(signed) == int_of_variant(variant),
        int_of_variant(signed) == Ok::<i64, ErrorView>(value),
{
    let text = decimal(value as int);
    law_decimals_resolve(value);
    lemma_number_type();
    assert((seq!['+'] + text).drop_first() =~= text);
    crate::laws::texts::lemma_first_digit(value as nat);
}

proof fn lemma_number_type()
    ensures
        number_types().contains("number"@),
{
    assert(number_types()[0] == "number"@);
}

proof fn lemma_json_type()
    ensures
        json_types().contains("json"@),
{
    assert(json_types()[0] == "json"@);
}

/// Each kind of value has its own payload types: numbers have one, texts have two and documents
/// have one.
pub proof fn law_payload_types(payload_type: Seq<char>)
    ensures
        number_types().contains(payload_type) <==> payload_type == "number"@,
        string_types().contains(payload_type) <==> payload_type == "string"@ || payload_type
            == "csv"@,
        json_types().contains(payload_type) <==> payload_type == "json"@,
        number_types() == seq!["number"@],
        string_types() == seq!["string"@, "csv"@],
        json_types() == seq!["json"@],
{
    lemma_number_type();
    lemma_json_type();
    assert(string_types()[0] == "string"@);
    assert(string_types()[1] == "csv"@);
}

/// A variant that has nothing to select is refused alike, with the error of the selection, as
/// whatever it is asked for.
pub proof fn law_refused_payloads_resolve_to_nothing(variant: VariantView)
    ensures
        selected_payload(variant, seq!["number"@]) matches Err(error) ==> int_of_variant(variant)
            == Err::<i64, ErrorView>(error),
        selected_payload(variant, seq!["string"@, "csv"@]) matches Err(error)
            ==> string_of_variant(variant) == Err::<Seq<char>, ErrorView>(error),
        selected_payload(variant, seq!["json"@]) matches Err(error) ==> object_of_variant(variant)
            == Err::<ValueView, ErrorView>(error) && struct_of_variant(variant) == Err::<
            Map<Seq<char>, ValueView>,
            ErrorView,
        >(error),
{
    law_payload_types("number"@);
}

/// A variant is a text exactly where it is enabled and its payload has the type `string` or `csv`
/// and a value; it is that value then.
pub proof fn law_string_variants_are_their_values(variant: VariantView, text: Seq<char>)
    ensures
        string_of_variant(variant) == Ok::<Seq<char>, ErrorView>(text) <==> carries(
            variant,
            "string"@,
            text,
        ) || carries(variant, "csv"@, text),
{
    law_payload_types("string"@);
    law_payload_types("csv"@);
    if variant.payload.contains_key("type"@) {
        law_payload_types(variant.payload["type"@]);
    }
}

/// A JSON payload that parses resolves to what the document stands for, and to nothing beside it.
pub proof fn law_json_variants_are_their_documents(
    variant: VariantView,
    text: Seq<char>,
    document: serde_json::Value,
)
    requires
        carries(variant, "json"@, text),
        json_of_text(text) == Ok::<serde_json::Value, serde_json::Error>(document),
    ensures
        object_of_variant(variant) == converted(json_contents(document)),
{
    lemma_json_type();
}

/// A JSON payload that does not parse is refused as unparsable, with the parser's message.
pub proof fn law_other_json_variants_are_refused(
    variant: VariantView,
    text: Seq<char>,
    error: serde_json::Error,
)
    requires
        carries(variant, "json"@, text),
        json_of_text(text) == Err::<serde_json::Value, serde_json::Error>(error),
    ensures
        object_of_variant(variant) == Err::<ValueView, ErrorView>(
            ErrorView {
                code: ErrorCodeView::ParseError,
                message: Some(json_error_message(error)),
            },
        ),
{
    lemma_json_type();
}

/// A payload that is a JSON object resolves to a structure with the members of the document: its
/// names, all of them and no others, and under each what the last member of that name stands for.
pub proof fn law_object_variants_have_the_members(
    variant: VariantView,
    text: Seq<char>,
    document: serde_json::Value,
    fields: Seq<(Seq<char>, JsonView)>,
)
    requires
        carries(variant, "json"@, text),
        json_of_text(text) == Ok::<serde_json::Value, serde_json::Error>(document),
        json_contents(document) == JsonView::Object(fields),
        object_of_variant(variant) is Ok,
    ensures
        object_of_variant(variant)->Ok_0 matches ValueView::Struct(values) && struct_of_variant(
            variant,
        ) == Ok::<Map<Seq<char>, ValueView>, ErrorView>(values) && (forall|name: Seq<char>|
            #[trigger] values.contains_key(name) <==> exists|i: int|
                0 <= i < fields.len() && (#[trigger] fields[i]).0 == name) && (forall|i: int|
            0 <= i < fields.len() && (forall|j: int|
                i < j < fields.len() ==> (#[trigger] fields[j]).0 != fields[i].0) ==> converted(
                (#[trigger] fields[i]).1,
            ) == Ok::<ValueView, ErrorView>(values[fields[i].0])),
{
    lemma_json_type();
    crate::laws::law_structures_keep_their_members(fields);
}

/// Two JSON payloads whose documents hold the same resolve to the same, however they are written
/// and whatever their variants are called.
pub proof fn law_equal_documents_resolve_alike(
    variant: VariantView,
    text: Seq<char>,
    document: serde_json::Value,
    other: VariantView,
    other_text: Seq<char>,
    other_document: serde_json::Value,
)
    requires
        carries(variant, "json"@, text),
        carries(other, "json"@, other_text),
        json_of_text(text) == Ok::<serde_json::Value, serde_json::Error>(document),
        json_of_text(other_text) == Ok::<serde_json::Value, serde_json::Error>(other_document),
        json_contents(document) == json_contents(other_document),
    ensures
        object_of_variant(variant) == object_of_variant(other),
        struct_of_variant(variant) == struct_of_variant(other),
{
}

/// A list is refused as a structure, and so is what is neither a list nor a structure, each with
/// its own message.
pub proof fn law_other_values_are_no_structures(variant: VariantView, value: ValueView)
    requires
        object_of_variant(variant) == Ok::<ValueView, ErrorView>(value),
        value !is Struct,
    ensures
        struct_of_variant(variant) == Err::<Map<Seq<char>, ValueView>, ErrorView>(
            wrong_type(
                if value is Array {
                    "OpenFeature Rust provider API does not support top-level array object values"@
                } else {
                    "Variant payload is not a JSON object"@
                },
            ),
        ),
{
}

/// The same of values on their own: a structure is itself, and nothing else is one.
pub proof fn law_structures_are_themselves(value: ValueView, fields: Map<Seq<char>, ValueView>)
    ensures
        structure_of(value) == Ok::<Map<Seq<char>, ValueView>, ErrorView>(fields) <==> value
            == ValueView::Struct(fields),
        value is Array ==> structure_of(value) == Err::<Map<Seq<char>, ValueView>, ErrorView>(
            wrong_type(
                "OpenFeature Rust provider API does not support top-level array object values"@,
            ),
        ),
        value !is Array && value !is Struct ==> structure_of(value) == Err::<
            Map<Seq<char>, ValueView>,
            ErrorView,
        >(wrong_type("Variant payload is not a JSON object"@)),
{
}

/// Each kind of error has its code, and the message that it is given.
pub proof fn law_errors_have_their_codes(message: Seq<char>)
    ensures
        mismatch(message).code == ErrorCodeView::TypeMismatch,
        mismatch(message).message == Some(message),
        parse_failure(message).code == ErrorCodeView::ParseError,
        parse_failure(message).message == Some(message),
        disabled().code == ErrorCodeView::General("UNKNOWN"@),
        disabled().message == Some("Variant is disabled"@),
{
}

} // verus!
