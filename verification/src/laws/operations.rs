//! What holds of the results of the operations themselves, whichever of the results that they may
//! give comes back.

use vstd::prelude::*;

use crate::client::UnleashClient;
use crate::context::{
    date_time_nanoseconds, date_time_seconds, date_time_text, ip_address, is_base_context_key,
    string_property_value, to_unleash_context, unleash_context, EvaluationContext,
    EvaluationContextFieldValue, UnleashContext, UtcTime,
};
use crate::evaluation::{
    ErrorView, EvaluationError, EvaluationErrorCode, EvaluationReason, EvaluationResult,
    ResolutionDetails,
};
use crate::json::{json_contents, json_error_message, json_of_text, parse_json, Json};
use crate::laws::contexts::{
    has_own_place, law_absent_fields_set_nothing, law_bool_fields_are_words,
    law_integer_fields_read_back,
};
use crate::laws::law_decimals_resolve;
use crate::laws::variants::{
    law_decimal_variants_are_integers, law_json_variants_are_their_documents,
    law_number_variants_are_what_they_denote, law_other_json_variants_are_refused,
    law_payload_types,
};
use crate::lifecycle::{InitializeAction, PollLifecycle};
use crate::payload::{
    bool_details, int_details, integer_payload, integer_value, number_details, object_details,
    parse_int_payload, resolve_payload_value, string_details, struct_details, variant_details,
    Variant, VariantView,
};
use crate::provider::{ProviderMetadata, UnleashFlagProvider};
use crate::text::{bool_text, decimal, decimal_text, texts};
use crate::value::{converted, json_to_openfeature_value, FlagValue, StructValue, ValueView};

verus! {

/// The variant is enabled, and its payload has the type and the value.
pub open spec fn has_payload(variant: Variant, payload_type: Seq<char>, text: Seq<char>) -> bool {
    &&& variant.enabled
    &&& variant.payload@.contains_key("type"@)
    &&& variant.payload@["type"@]@ == payload_type
    &&& variant.payload@.contains_key("value"@)
    &&& variant.payload@["value"@]@ == text
}

/// The details name the variant, and say no more beside it than that the reason is not known.
pub open spec fn details_name<T>(details: ResolutionDetails<T>, name: Seq<char>) -> bool {
    &&& details.variant matches Some(variant) && variant@ == name
    &&& details.reason == Some(EvaluationReason::Unknown)
    &&& details.flag_metadata is None
}

/// The error has the message.
pub open spec fn says(error: EvaluationError, message: Seq<char>) -> bool {
    error.message matches Some(text) && text@ == message
}

/// A payload of one of the expected types comes back as it is, whatever the types are.
pub proof fn law_payload_comes_back(
    variant: Variant,
    payload_types: &[&str],
    i: int,
    text: Seq<char>,
    result: EvaluationResult<&str>,
)
    requires
        0 <= i < payload_types@.len(),
        has_payload(variant, payload_types@[i]@, text),
        call_ensures(resolve_payload_value, (&variant, payload_types), result),
    ensures
        result matches Ok(payload) && payload@ == text,
{
    assert(texts(payload_types@)[i] == payload_types@[i]@);
}

/// A payload of another type than those expected is refused for its type.
pub proof fn law_unexpected_payload_is_refused(
    variant: Variant,
    payload_types: &[&str],
    payload_type: Seq<char>,
    text: Seq<char>,
    result: EvaluationResult<&str>,
)
    requires
        has_payload(variant, payload_type, text),
        forall|i: int|
            0 <= i < payload_types@.len() ==> (#[trigger] payload_types@[i])@ != payload_type,
        call_ensures(resolve_payload_value, (&variant, payload_types), result),
    ensures
        result matches Err(error) && error.code == EvaluationErrorCode::TypeMismatch,
{
    if texts(payload_types@).contains(payload_type) {
        let i = choose|i: int|
            0 <= i < texts(payload_types@).len() && texts(payload_types@)[i] == payload_type;
        assert(payload_types@[i]@ == payload_type);
    }
}

/// A disabled variant is refused with the code that stands for an unknown flag.
pub proof fn law_disabled_variant_is_refused(
    variant: Variant,
    payload_types: &[&str],
    result: EvaluationResult<&str>,
)
    requires
        !variant.enabled,
        call_ensures(resolve_payload_value, (&variant, payload_types), result),
    ensures
        result matches Err(error) && says(error, "Variant is disabled"@) && (
        error.code matches EvaluationErrorCode::General(code) && code@ == "UNKNOWN"@),
{
}

/// The details of a number in decimal notation hold exactly that integer.
pub proof fn law_details_of_a_decimal(
    variant: Variant,
    value: i64,
    result: EvaluationResult<ResolutionDetails<i64>>,
)
    requires
        has_payload(variant, "number"@, decimal(value as int)),
        call_ensures(int_details, (&variant,), result),
    ensures
        result matches Ok(details) && details.value == value && details_name(
            details,
            variant.name@,
        ),
{
    law_decimal_variants_are_integers(variant@, value);
}

/// The details of a number, as an integer, hold what its text denotes; a text that denotes no
/// integer that fits cannot be parsed.
pub proof fn law_details_of_a_number(
    variant: Variant,
    text: Seq<char>,
    result: EvaluationResult<ResolutionDetails<i64>>,
)
    requires
        has_payload(variant, "number"@, text),
        call_ensures(int_details, (&variant,), result),
    ensures
        match result {
            Ok(details) => integer_value(text) == Some(details.value as int),
            Err(error) => error.code == EvaluationErrorCode::ParseError && (integer_value(
                text,
            ) matches Some(value) ==> !(i64::MIN <= value <= i64::MAX)),
        },
{
    law_number_variants_are_what_they_denote(variant@, text, 0);
}

/// Whatever `convert` may make of the text is the outcome.
pub open spec fn always_makes<T, F: FnOnce(&str) -> EvaluationResult<T>>(
    convert: F,
    text: Seq<char>,
    outcome: EvaluationResult<T>,
) -> bool {
    forall|given: &str, made: EvaluationResult<T>|
        given@ == text && #[trigger] convert.ensures((given,), made) ==> made == outcome
}

/// The result holds the value of the outcome with the name of the variant, or its error.
pub open spec fn hands_on<T>(
    result: EvaluationResult<ResolutionDetails<T>>,
    outcome: EvaluationResult<T>,
    name: Seq<char>,
) -> bool {
    match outcome {
        Ok(value) => result matches Ok(details) && details.value == value && details_name(
            details,
            name,
        ),
        Err(error) => result == EvaluationResult::<ResolutionDetails<T>>::Err(error),
    }
}

/// The details of a payload of an expected type hold what is made of its text, just as it is.
pub proof fn law_details_hand_on_the_outcome<T, F: FnOnce(&str) -> EvaluationResult<T>>(
    variant: Variant,
    payload_types: &[&str],
    i: int,
    convert: F,
    text: Seq<char>,
    outcome: EvaluationResult<T>,
    result: EvaluationResult<ResolutionDetails<T>>,
)
    requires
        0 <= i < payload_types@.len(),
        has_payload(variant, payload_types@[i]@, text),
        always_makes(convert, text, outcome),
        call_ensures(variant_details::<T, F>, (&variant, payload_types, convert), result),
    ensures
        hands_on(result, outcome, variant.name@),
{
    assert(texts(payload_types@)[i] == payload_types@[i]@);
}

/// The details of a number hold what the parser makes of its text, just as it is.
pub proof fn law_number_details_hand_on_the_outcome<T, F: FnOnce(&str) -> EvaluationResult<T>>(
    variant: Variant,
    parse: F,
    text: Seq<char>,
    outcome: EvaluationResult<T>,
    result: EvaluationResult<ResolutionDetails<T>>,
)
    requires
        has_payload(variant, "number"@, text),
        always_makes(parse, text, outcome),
        call_ensures(number_details::<T, F>, (&variant, parse), result),
    ensures
        hands_on(result, outcome, variant.name@),
{
    law_payload_types("number"@);
}

/// The details of a text hold the payload as it is.
pub proof fn law_details_of_a_text(
    variant: Variant,
    text: Seq<char>,
    result: EvaluationResult<ResolutionDetails<String>>,
)
    requires
        has_payload(variant, "string"@, text) || has_payload(variant, "csv"@, text),
        call_ensures(string_details, (&variant,), result),
    ensures
        result matches Ok(details) && details.value@ == text && details_name(
            details,
            variant.name@,
        ),
{
    law_payload_types(variant.payload@["type"@]@);
}

/// The details of a document hold what the document stands for, and nothing beside it.
pub proof fn law_details_of_a_document(
    variant: Variant,
    text: Seq<char>,
    document: serde_json::Value,
    result: EvaluationResult<ResolutionDetails<FlagValue>>,
)
    requires
        has_payload(variant, "json"@, text),
        json_of_text(text) == Ok::<serde_json::Value, serde_json::Error>(document),
        call_ensures(object_details, (&variant,), result),
    ensures
        match converted(json_contents(document)) {
            Ok(value) => result matches Ok(details) && details.value@ == value && details_name(
                details,
                variant.name@,
            ),
            Err(expected) => result matches Err(error) && error@ == expected,
        },
{
    law_json_variants_are_their_documents(variant@, text, document);
}

/// A text that is no document cannot be parsed, for the reason that the parser gives.
pub proof fn law_details_of_no_document(
    variant: Variant,
    text: Seq<char>,
    failure: serde_json::Error,
    result: EvaluationResult<ResolutionDetails<FlagValue>>,
)
    requires
        has_payload(variant, "json"@, text),
        json_of_text(text) == Err::<serde_json::Value, serde_json::Error>(failure),
        call_ensures(object_details, (&variant,), result),
    ensures
        result matches Err(error) && error.code == EvaluationErrorCode::ParseError && says(
            error,
            json_error_message(failure),
        ),
{
    law_other_json_variants_are_refused(variant@, text, failure);
}

/// Two variants of the same document give the same value, whatever they are called.
pub proof fn law_names_do_not_bear_on_documents(
    variant: Variant,
    other: Variant,
    text: Seq<char>,
    result: EvaluationResult<ResolutionDetails<FlagValue>>,
    other_result: EvaluationResult<ResolutionDetails<FlagValue>>,
)
    requires
        has_payload(variant, "json"@, text),
        has_payload(other, "json"@, text),
        call_ensures(object_details, (&variant,), result),
        call_ensures(object_details, (&other,), other_result),
    ensures
        match (result, other_result) {
            (Ok(details), Ok(other_details)) => details.value@ == other_details.value@,
            (Err(error), Err(other_error)) => error@ == other_error@,
            _ => false,
        },
{
}

/// The details of a structure hold that structure and the variant that came with it; a list and
/// any other value are refused for their types.
pub proof fn law_details_of_a_structure(
    details: ResolutionDetails<FlagValue>,
    result: EvaluationResult<ResolutionDetails<StructValue>>,
)
    requires
        call_ensures(struct_details, (details,), result),
    ensures
        match details.value {
            FlagValue::Struct(value) => result matches Ok(structure) && structure.value@ == value@
                && structure.variant == details.variant && structure.reason == Some(
                EvaluationReason::Unknown,
            ) && structure.flag_metadata is None,
            FlagValue::Array(_) => result matches Err(error) && error.code
                == EvaluationErrorCode::TypeMismatch && says(
                error,
                "OpenFeature Rust provider API does not support top-level array object values"@,
            ),
            _ => result matches Err(error) && error.code == EvaluationErrorCode::TypeMismatch
                && says(error, "Variant payload is not a JSON object"@),
        },
{
}

/// The details of a truth value hold it, and name no variant.
pub proof fn law_details_of_a_truth_value(enabled: bool, details: ResolutionDetails<bool>)
    requires
        call_ensures(bool_details, (enabled,), details),
    ensures
        details.value == enabled,
        details.variant is None,
        details.reason == Some(EvaluationReason::Unknown),
        details.flag_metadata is None,
{
}

/// A document that is a text, a truth value or a number becomes that value; a null and a number
/// that is neither an `i64` nor a double are refused for their types.
pub proof fn law_plain_documents_become_themselves(
    json: Json,
    result: EvaluationResult<FlagValue>,
)
    requires
        call_ensures(json_to_openfeature_value, (json,), result),
    ensures
        match json {
            Json::Null => result matches Err(error) && error.code
                == EvaluationErrorCode::TypeMismatch && says(
                error,
                "JSON null is not a supported OpenFeature object value"@,
            ),
            Json::Bool(value) => result == EvaluationResult::<FlagValue>::Ok(
                FlagValue::Bool(value),
            ),
            Json::Number { whole: Some(value), .. } => result == EvaluationResult::<FlagValue>::Ok(
                FlagValue::Int(value),
            ),
            Json::Number { whole: None, double_bits: Some(bits) } => result == EvaluationResult::<
                FlagValue,
            >::Ok(FlagValue::Float(bits)),
            Json::Number { whole: None, double_bits: None } => result matches Err(error)
                && error.code == EvaluationErrorCode::TypeMismatch && says(
                error,
                "JSON number cannot be represented as i64 or f64"@,
            ),
            Json::String(text) => result matches Ok(value) && (
            value matches FlagValue::String(kept) && kept@ == text@),
            _ => true,
        },
{
}

/// A list that becomes a value becomes a list of as many items, and an object a structure with
/// the names of its members.
pub proof fn law_documents_keep_their_shape(json: Json, result: EvaluationResult<FlagValue>)
    requires
        call_ensures(json_to_openfeature_value, (json,), result),
        result is Ok,
    ensures
        json matches Json::Array(items) ==> (result->Ok_0 matches FlagValue::Array(values)
            && values@.len() == items@.len() && forall|i: int|
            0 <= i < items@.len() ==> converted(items@[i]@) == Ok::<ValueView, ErrorView>(
                (#[trigger] values@[i])@,
            )),
        json matches Json::Object(fields) ==> (result->Ok_0 matches FlagValue::Struct(structure)
            && forall|name: Seq<char>| #[trigger]
            structure.fields@.contains_key(name) <==> exists|i: int|
                0 <= i < fields@.len() && (#[trigger] fields@[i]).0@ == name),
{
    let value = result->Ok_0;
    assert(converted(json@) == Ok::<ValueView, ErrorView>(value@));
    match json {
        Json::Array(items) => {
            let models = json@->Array_0;
            crate::laws::law_lists_keep_their_items(models);
            let values = value->Array_0;
            assert forall|i: int| 0 <= i < items@.len() implies converted(items@[i]@) == Ok::<
                ValueView,
                ErrorView,
            >((#[trigger] values@[i])@) by {
                assert(models[i] == items@[i]@);
                assert(value@->Array_0[i] == values@[i]@);
            }
        },
        Json::Object(fields) => {
            let models = json@->Object_0;
            crate::laws::law_structures_keep_their_members(models);
            let structure = value->Struct_0;
            assert forall|name: Seq<char>| #[trigger]
                structure.fields@.contains_key(name) <==> exists|i: int|
                    0 <= i < fields@.len() && (#[trigger] fields@[i]).0@ == name by {
                assert(structure@.contains_key(name) == structure.fields@.contains_key(name));
                if structure.fields@.contains_key(name) {
                    let i = choose|i: int|
                        0 <= i < models.len() && (#[trigger] models[i]).0 == name;
                    assert(fields@[i].0@ == name);
                }
                if exists|i: int| 0 <= i < fields@.len() && (#[trigger] fields@[i]).0@ == name {
                    let i = choose|i: int|
                        0 <= i < fields@.len() && (#[trigger] fields@[i]).0@ == name;
                    assert(models[i].0 == name);
                }
            }
        },
        _ => {},
    }
}

/// A text that parses is read as the document it is, and one that does not is refused.
pub proof fn law_texts_are_read_as_documents(text: &str, result: EvaluationResult<Json>)
    requires
        call_ensures(parse_json, (text,), result),
    ensures
        match json_of_text(text@) {
            Ok(document) => result matches Ok(json) && json@ == json_contents(document),
            Err(failure) => result matches Err(error) && error.code
                == EvaluationErrorCode::ParseError && says(error, json_error_message(failure)),
        },
{
}

/// The text of an integer reads back as that integer, and parsing it gives the integer.
pub proof fn law_integers_are_read_back(
    value: i64,
    text: String,
    parsed: &str,
    result: EvaluationResult<i64>,
)
    requires
        call_ensures(decimal_text, (value,), text),
        call_ensures(parse_int_payload, (parsed,), result),
        parsed@ == text@,
    ensures
        result == EvaluationResult::<i64>::Ok(value),
{
    law_decimals_resolve(value);
}

/// The words for the two truth values are `true` and `false`.
pub proof fn law_truth_values_are_words(value: bool, text: String)
    requires
        call_ensures(bool_text, (value,), text),
    ensures
        value ==> text@ == seq!['t', 'r', 'u', 'e'],
        !value ==> text@ == seq!['f', 'a', 'l', 's', 'e'],
{
    crate::laws::texts::law_words_of_truth_values();
}

/// A field as a property is its own text, by its kind; a structure is none.
pub proof fn law_property_values(
    field: EvaluationContextFieldValue,
    result: Option<String>,
)
    requires
        call_ensures(string_property_value, (&field,), result),
    ensures
        match field {
            EvaluationContextFieldValue::Bool(value) => result matches Some(text) && text@ == (
            if value {
                seq!['t', 'r', 'u', 'e']
            } else {
                seq!['f', 'a', 'l', 's', 'e']
            }),
            EvaluationContextFieldValue::Int(value) => result matches Some(text) && text@
                == decimal(value as int) && integer_payload(text@) == Ok::<i64, ErrorView>(value),
            EvaluationContextFieldValue::Float(own) => result matches Some(text) && text@ == own@,
            EvaluationContextFieldValue::String(own) => result matches Some(text) && text@ == own@,
            EvaluationContextFieldValue::DateTime(value) => result matches Some(text) && text@
                == date_time_text(value),
            EvaluationContextFieldValue::Struct => result is None,
        },
{
    crate::laws::texts::law_words_of_truth_values();
    if let EvaluationContextFieldValue::Int(value) = field {
        law_decimals_resolve(value);
    }
}

/// Six names of fields have places of their own.
pub proof fn law_names_with_own_places(key: &str, base: bool)
    requires
        call_ensures(is_base_context_key, (key,), base),
    ensures
        base <==> has_own_place(key@),
{
}

/// A targeting key that is set is there, and the fields stay.
pub proof fn law_targeting_key_is_set(
    context: EvaluationContext,
    targeting_key: String,
    after: EvaluationContext,
    key: Seq<char>,
)
    requires
        call_ensures(EvaluationContext::with_targeting_key, (context, targeting_key), after),
    ensures
        after.targeting_key matches Some(text) && text@ == targeting_key@,
        after.custom_fields@.contains_key(key) <==> context.custom_fields@.contains_key(key),
        context.custom_fields@.contains_key(key) ==> after.custom_fields@[key]@
            == context.custom_fields@[key]@,
{
    assert(after@.custom_fields.contains_key(key) == context@.custom_fields.contains_key(key));
    if context.custom_fields@.contains_key(key) {
        assert(after@.custom_fields[key] == context@.custom_fields[key]);
    }
}

/// A field that is put in is there under its name; the other fields and the targeting key stay.
pub proof fn law_field_is_put_in(
    context: EvaluationContext,
    name: String,
    value: EvaluationContextFieldValue,
    after: EvaluationContext,
    key: Seq<char>,
)
    requires
        call_ensures(EvaluationContext::with_custom_field, (context, name, value), after),
    ensures
        after@.targeting_key == context@.targeting_key,
        after.custom_fields@.contains_key(name@),
        after.custom_fields@[name@]@ == value@,
        key != name@ ==> (after.custom_fields@.contains_key(key)
            <==> context.custom_fields@.contains_key(key)),
        key != name@ && context.custom_fields@.contains_key(key) ==> after.custom_fields@[key]@
            == context.custom_fields@[key]@,
{
    assert(after@.custom_fields.contains_key(name@));
    assert(after@.custom_fields[name@] == value@);
    if key != name@ {
        assert(after@.custom_fields.contains_key(key) == context@.custom_fields.contains_key(key));
        if context.custom_fields@.contains_key(key) {
            assert(after@.custom_fields[key] == context@.custom_fields[key]);
        }
    }
}

/// The targeting key is the user, in the context that is handed on.
pub proof fn law_targeting_key_is_handed_on(
    context: EvaluationContext,
    targeting_key: String,
    unleash: UnleashContext,
)
    requires
        context.targeting_key == Some(targeting_key),
        call_ensures(to_unleash_context, (&context,), unleash),
    ensures
        unleash.user_id matches Some(user) && user@ == targeting_key@,
{
}

/// A field without a place of its own is handed on as the property of its name, by its kind; a
/// structure is not handed on, and nothing is that is no field.
pub proof fn law_fields_are_handed_on(
    context: EvaluationContext,
    key: Seq<char>,
    unleash: UnleashContext,
)
    requires
        !has_own_place(key),
        call_ensures(to_unleash_context, (&context,), unleash),
    ensures
        unleash.properties@.contains_key(key) <==> context.custom_fields@.contains_key(key)
            && context.custom_fields@[key] !is Struct,
        context.custom_fields@.contains_key(key) ==> match context.custom_fields@[key] {
            EvaluationContextFieldValue::Bool(value) => unleash.properties@[key]@ == (if value {
                seq!['t', 'r', 'u', 'e']
            } else {
                seq!['f', 'a', 'l', 's', 'e']
            }),
            EvaluationContextFieldValue::Int(value) => integer_payload(unleash.properties@[key]@)
                == Ok::<i64, ErrorView>(value),
            EvaluationContextFieldValue::Float(text) => unleash.properties@[key]@ == text@,
            EvaluationContextFieldValue::String(text) => unleash.properties@[key]@ == text@,
            EvaluationContextFieldValue::DateTime(value) => unleash.properties@[key]@
                == date_time_text(value),
            EvaluationContextFieldValue::Struct => true,
        },
{
    assert(unleash@.properties.contains_key(key) == unleash.properties@.contains_key(key));
    assert(context@.custom_fields.contains_key(key) == context.custom_fields@.contains_key(key));
    if context.custom_fields@.contains_key(key) {
        match context@.custom_fields[key] {
            crate::context::FieldView::Int(value) => {
                law_integer_fields_read_back(context@, key, value);
            },
            crate::context::FieldView::Bool(value) => {
                law_bool_fields_are_words(context@, key, value);
            },
            _ => {},
        }
    } else {
        law_absent_fields_set_nothing(context@, key);
    }
}

/// No field with a place of its own is handed on as a property.
pub proof fn law_own_places_are_not_handed_on_as_properties(
    context: EvaluationContext,
    key: Seq<char>,
    unleash: UnleashContext,
)
    requires
        has_own_place(key),
        call_ensures(to_unleash_context, (&context,), unleash),
    ensures
        !unleash.properties@.contains_key(key),
{
    assert(unleash@.properties.contains_key(key) == unleash.properties@.contains_key(key));
}

/// String fields with places of their own are handed on as they are, the address as what it
/// denotes.
pub proof fn law_own_strings_are_handed_on(
    context: EvaluationContext,
    key: Seq<char>,
    text: String,
    unleash: UnleashContext,
)
    requires
        context.custom_fields@.contains_key(key),
        context.custom_fields@[key] == EvaluationContextFieldValue::String(text),
        call_ensures(to_unleash_context, (&context,), unleash),
    ensures
        key == "userId"@ && context.targeting_key is None ==> (unleash.user_id matches Some(user)
            && user@ == text@),
        key == "sessionId"@ ==> (unleash.session_id matches Some(session) && session@ == text@),
        key == "environment"@ ==> unleash.environment@ == text@,
        key == "appName"@ ==> unleash.app_name@ == text@,
        key == "remoteAddress"@ ==> unleash.remote_address == ip_address(text@),
        key == "currentTime"@ ==> unleash.current_time is None,
{
    assert(context@.custom_fields.contains_key(key));
    assert(context@.custom_fields[key] == crate::context::FieldView::String(text@));
}

/// The date of the field `currentTime` is handed on as its instant, to the nanosecond.
pub proof fn law_current_time_is_handed_on(
    context: EvaluationContext,
    value: time::OffsetDateTime,
    unleash: UnleashContext,
)
    requires
        context.custom_fields@.contains_key("currentTime"@),
        context.custom_fields@["currentTime"@] == EvaluationContextFieldValue::DateTime(value),
        -8_334_601_228_800 <= date_time_seconds(value) <= 8_210_266_876_799,
        date_time_nanoseconds(value) < 1_000_000_000,
        call_ensures(to_unleash_context, (&context,), unleash),
    ensures
        unleash.current_time == Some(
            UtcTime {
                seconds: date_time_seconds(value),
                nanoseconds: date_time_nanoseconds(value),
            },
        ),
{
    assert(context@.custom_fields.contains_key("currentTime"@));
    assert(context@.custom_fields["currentTime"@] == crate::context::FieldView::DateTime(value));
}

/// A provider asks the client that it was made with, and goes by one name.
pub proof fn law_new_providers<C: UnleashClient>(
    client: C,
    provider: UnleashFlagProvider<C>,
    metadata: &ProviderMetadata,
)
    requires
        call_ensures(UnleashFlagProvider::<C>::new, (client,), provider),
        call_ensures(UnleashFlagProvider::<C>::metadata, (&provider,), metadata),
    ensures
        provider.spec_client() == client,
        metadata.name@ == "Unleash OpenFeature Provider"@,
{
}

/// A flag is enabled where the client says so of the flag in the context, with `false` to fall
/// back on; no variant is named.
pub proof fn law_flags_are_enabled_by_the_client<C: UnleashClient>(
    provider: UnleashFlagProvider<C>,
    flag_key: &str,
    context: EvaluationContext,
    result: EvaluationResult<ResolutionDetails<bool>>,
)
    requires
        call_ensures(
            UnleashFlagProvider::<C>::resolve_bool_value,
            (&provider, flag_key, &context),
            result,
        ),
    ensures
        result matches Ok(details) && provider.spec_client().may_enable(
            flag_key@,
            Some(unleash_context(context@)),
            false,
            details.value,
        ) && details.variant is None && details.reason == Some(EvaluationReason::Unknown)
            && details.flag_metadata is None,
{
}

/// The variant is the only one that the client may select for the flag in the context.
pub open spec fn sole_choice<C: UnleashClient>(
    client: C,
    flag_key: Seq<char>,
    context: EvaluationContext,
    variant: VariantView,
) -> bool {
    forall|selected: VariantView| #[trigger]
        client.may_select(flag_key, unleash_context(context@), selected) ==> selected == variant
}

/// A flag resolves to the integer that the payload of its variant denotes.
pub proof fn law_flags_resolve_to_integers<C: UnleashClient>(
    provider: UnleashFlagProvider<C>,
    flag_key: &str,
    context: EvaluationContext,
    variant: Variant,
    value: i64,
    result: EvaluationResult<ResolutionDetails<i64>>,
)
    requires
        sole_choice(provider.spec_client(), flag_key@, context, variant@),
        has_payload(variant, "number"@, decimal(value as int)),
        call_ensures(
            UnleashFlagProvider::<C>::resolve_int_value,
            (&provider, flag_key, &context),
            result,
        ),
    ensures
        result matches Ok(details) && details.value == value && details_name(
            details,
            variant.name@,
        ),
{
    law_decimal_variants_are_integers(variant@, value);
}

/// A flag resolves to what the parser makes of the number in the payload of its variant.
pub proof fn law_flags_resolve_to_numbers<
    C: UnleashClient,
    T,
    F: FnOnce(&str) -> EvaluationResult<T>,
>(
    provider: UnleashFlagProvider<C>,
    flag_key: &str,
    context: EvaluationContext,
    variant: Variant,
    parse: F,
    text: Seq<char>,
    outcome: EvaluationResult<T>,
    result: EvaluationResult<ResolutionDetails<T>>,
)
    requires
        sole_choice(provider.spec_client(), flag_key@, context, variant@),
        has_payload(variant, "number"@, text),
        always_makes(parse, text, outcome),
        call_ensures(
            UnleashFlagProvider::<C>::resolve_float_value::<T, F>,
            (&provider, flag_key, &context, parse),
            result,
        ),
    ensures
        hands_on(result, outcome, variant.name@),
{
    law_payload_types("number"@);
}

/// A flag resolves to what is made of the payload of its variant, if it is of an expected type.
pub proof fn law_flags_resolve_to_outcomes<
    C: UnleashClient,
    T,
    F: FnOnce(&str) -> EvaluationResult<T>,
>(
    provider: UnleashFlagProvider<C>,
    flag_key: &str,
    context: EvaluationContext,
    payload_types: &[&str],
    i: int,
    convert: F,
    variant: Variant,
    text: Seq<char>,
    outcome: EvaluationResult<T>,
    result: EvaluationResult<ResolutionDetails<T>>,
)
    requires
        sole_choice(provider.spec_client(), flag_key@, context, variant@),
        0 <= i < payload_types@.len(),
        has_payload(variant, payload_types@[i]@, text),
        always_makes(convert, text, outcome),
        call_ensures(
            UnleashFlagProvider::<C>::resolve_variant_value::<T, F>,
            (&provider, flag_key, &context, payload_types, convert),
            result,
        ),
    ensures
        hands_on(result, outcome, variant.name@),
{
    assert(texts(payload_types@)[i] == payload_types@[i]@);
}

/// A flag resolves to the text that is the payload of its variant.
pub proof fn law_flags_resolve_to_texts<C: UnleashClient>(
    provider: UnleashFlagProvider<C>,
    flag_key: &str,
    context: EvaluationContext,
    variant: Variant,
    text: Seq<char>,
    result: EvaluationResult<ResolutionDetails<String>>,
)
    requires
        sole_choice(provider.spec_client(), flag_key@, context, variant@),
        has_payload(variant, "string"@, text) || has_payload(variant, "csv"@, text),
        call_ensures(
            UnleashFlagProvider::<C>::resolve_string_value,
            (&provider, flag_key, &context),
            result,
        ),
    ensures
        result matches Ok(details) && details.value@ == text && details_name(
            details,
            variant.name@,
        ),
{
    law_payload_types(variant.payload@["type"@]@);
}

/// A flag resolves to the value that the document in the payload of its variant stands for.
pub proof fn law_flags_resolve_to_documents<C: UnleashClient>(
    provider: UnleashFlagProvider<C>,
    flag_key: &str,
    context: EvaluationContext,
    variant: Variant,
    text: Seq<char>,
    document: serde_json::Value,
    result: EvaluationResult<ResolutionDetails<FlagValue>>,
)
    requires
        sole_choice(provider.spec_client(), flag_key@, context, variant@),
        has_payload(variant, "json"@, text),
        json_of_text(text) == Ok::<serde_json::Value, serde_json::Error>(document),
        call_ensures(
            UnleashFlagProvider::<C>::resolve_object_value_details,
            (&provider, flag_key, &context),
            result,
        ),
    ensures
        match converted(json_contents(document)) {
            Ok(value) => result matches Ok(details) && details.value@ == value && details_name(
                details,
                variant.name@,
            ),
            Err(expected) => result matches Err(error) && error@ == expected,
        },
{
    law_json_variants_are_their_documents(variant@, text, document);
}

/// A flag resolves to a structure where the document in the payload of its variant stands for
/// one, and to that one.
pub proof fn law_flags_resolve_to_structures<C: UnleashClient>(
    provider: UnleashFlagProvider<C>,
    flag_key: &str,
    context: EvaluationContext,
    variant: Variant,
    text: Seq<char>,
    document: serde_json::Value,
    result: EvaluationResult<ResolutionDetails<StructValue>>,
)
    requires
        sole_choice(provider.spec_client(), flag_key@, context, variant@),
        has_payload(variant, "json"@, text),
        json_of_text(text) == Ok::<serde_json::Value, serde_json::Error>(document),
        call_ensures(
            UnleashFlagProvider::<C>::resolve_struct_value,
            (&provider, flag_key, &context),
            result,
        ),
    ensures
        match result {
            Ok(details) => converted(json_contents(document)) == Ok::<ValueView, ErrorView>(
                ValueView::Struct(details.value@),
            ) && details_name(details, variant.name@),
            Err(error) => match converted(json_contents(document)) {
                Ok(value) => value !is Struct && error.code == EvaluationErrorCode::TypeMismatch,
                Err(expected) => error@ == expected,
            },
        },
{
    law_json_variants_are_their_documents(variant@, text, document);
}

/// A client that is new does not poll, and registers when it is initialized; one that polls has
/// nothing to do.
pub proof fn law_new_clients_register(
    lifecycle: PollLifecycle,
    polling: bool,
    action: InitializeAction,
)
    requires
        call_ensures(PollLifecycle::polling, (&lifecycle,), polling),
        call_ensures(PollLifecycle::initialize, (&lifecycle,), action),
    ensures
        action == InitializeAction::Register <==> !polling,
        call_ensures(PollLifecycle::new, (), lifecycle) ==> !polling && action
            == InitializeAction::Register,
{
}

} // verus!
