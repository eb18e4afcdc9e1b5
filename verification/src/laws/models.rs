//! What the models say of the values that they are models of: everything, and as it is.

use vstd::prelude::*;

use crate::client::UnleashClient;
use crate::context::{
    field_views, text_values, unleash_context, EvaluationContext, EvaluationContextFieldValue,
    FieldView, UnleashContext,
};
use crate::evaluation::{
    describes, optional_text, ErrorCodeView, EvaluationError, EvaluationErrorCode,
    EvaluationReason, ResolutionDetails,
};
use crate::json::{Json, JsonView};
use crate::payload::{Variant, VariantView};
use crate::provider::selects;
use crate::text::texts;
use crate::text_map::{distinct_keys, entries_map, key_at, lemma_entry_in_map};
use crate::value::{FlagValue, StructValue, ValueView};

verus! {

/// An optional string is modelled by its text, and there is a text exactly where there is a
/// string.
pub proof fn law_optional_texts(text: Option<String>)
    ensures
        text is None <==> optional_text(text) is None,
        text matches Some(string) ==> optional_text(text) == Some(string@),
{
}

/// The texts of a list of strings are those strings, in their order.
pub proof fn law_texts_of_strings(items: Seq<&str>)
    ensures
        texts(items).len() == items.len(),
        forall|i: int| 0 <= i < items.len() ==> #[trigger] texts(items)[i] == items[i]@,
{
}

/// A map of strings has the same keys as its model, and under each the text of the string.
pub proof fn law_texts_of_maps(map: Map<Seq<char>, String>, key: Seq<char>)
    ensures
        text_values(map).contains_key(key) <==> map.contains_key(key),
        map.contains_key(key) ==> text_values(map)[key] == map[key]@,
{
}

/// Entries without a repeated key are a map of just these keys and values.
pub proof fn law_entries_are_the_map<V>(entries: Seq<(String, V)>, key: Seq<char>)
    requires
        distinct_keys(entries),
    ensures
        entries_map(entries).contains_key(key) <==> exists|i: int|
            0 <= i < entries.len() && (#[trigger] entries[i]).0@ == key,
        forall|i: int|
            0 <= i < entries.len() && (#[trigger] entries[i]).0@ == key ==> entries_map(
                entries,
            )[key] == entries[i].1,
{
    if entries_map(entries).contains_key(key) {
        let i = choose|i: int| key_at(entries, key, i);
        assert(entries[i].0@ == key);
    }
    assert forall|i: int| 0 <= i < entries.len() && (#[trigger] entries[i]).0@
        == key implies entries_map(entries).contains_key(key) && entries_map(entries)[key]
        == entries[i].1 by {
        lemma_entry_in_map(entries, i);
    }
}

/// Among entries without a repeated key, two that have the same key are one and the same.
pub proof fn law_distinct_keys<V>(entries: Seq<(String, V)>, i: int, j: int)
    requires
        distinct_keys(entries),
        0 <= i < entries.len(),
        0 <= j < entries.len(),
        entries[i].0@ == entries[j].0@,
    ensures
        i == j,
{
}

/// Each error code is modelled by the one of its name, with the message of its own.
pub proof fn law_error_codes(code: EvaluationErrorCode)
    ensures
        code is ProviderNotReady <==> code@ is ProviderNotReady,
        code is FlagNotFound <==> code@ is FlagNotFound,
        code is ParseError <==> code@ is ParseError,
        code is TypeMismatch <==> code@ is TypeMismatch,
        code is TargetingKeyMissing <==> code@ is TargetingKeyMissing,
        code is InvalidContext <==> code@ is InvalidContext,
        code is General <==> code@ is General,
        code matches EvaluationErrorCode::General(message) ==> code@ == ErrorCodeView::General(
            message@,
        ),
{
}

/// An error is modelled by its code and its message.
pub proof fn law_errors(error: EvaluationError)
    ensures
        error@.code == error.code@,
        error.message is None <==> error@.message is None,
        error.message matches Some(message) ==> error@.message == Some(message@),
{
}

/// Details that describe a variant have its name and the reason `Unknown`, and no metadata;
/// details with all of that describe the variant.
pub proof fn law_descriptions<T>(details: ResolutionDetails<T>, variant: Option<Seq<char>>)
    ensures
        describes(details, variant) <==> (details.reason == Some(EvaluationReason::Unknown)
            && details.flag_metadata is None && match details.variant {
            Some(name) => variant == Some(name@),
            None => variant is None,
        }),
{
}

/// A field is modelled by the value that it holds.
pub proof fn law_field_models(field: EvaluationContextFieldValue)
    ensures
        match field {
            EvaluationContextFieldValue::Bool(value) => field@ == FieldView::Bool(value),
            EvaluationContextFieldValue::Int(value) => field@ == FieldView::Int(value),
            EvaluationContextFieldValue::Float(text) => field@ == FieldView::Float(text@),
            EvaluationContextFieldValue::String(text) => field@ == FieldView::String(text@),
            EvaluationContextFieldValue::DateTime(value) => field@ == FieldView::DateTime(value),
            EvaluationContextFieldValue::Struct => field@ == FieldView::Struct,
        },
{
}

/// An evaluation context is modelled by its targeting key and by its fields, each under its name.
pub proof fn law_evaluation_context_models(context: EvaluationContext, key: Seq<char>)
    ensures
        context.targeting_key is None <==> context@.targeting_key is None,
        context.targeting_key matches Some(text) ==> context@.targeting_key == Some(text@),
        context@.custom_fields.contains_key(key) <==> context.custom_fields@.contains_key(key),
        context.custom_fields@.contains_key(key) ==> context@.custom_fields[key]
            == context.custom_fields@[key]@,
        field_views(context.custom_fields@) == context@.custom_fields,
{
}

/// An Unleash context is modelled by what it holds, place by place.
pub proof fn law_unleash_context_models(context: UnleashContext, key: Seq<char>)
    ensures
        context.user_id is None <==> context@.user_id is None,
        context.user_id matches Some(text) ==> context@.user_id == Some(text@),
        context.session_id is None <==> context@.session_id is None,
        context.session_id matches Some(text) ==> context@.session_id == Some(text@),
        context@.remote_address == context.remote_address,
        context@.properties.contains_key(key) <==> context.properties@.contains_key(key),
        context.properties@.contains_key(key) ==> context@.properties[key]
            == context.properties@[key]@,
        context@.app_name == context.app_name@,
        context@.environment == context.environment@,
        context@.current_time == context.current_time,
{
}

/// A variant is modelled by its name, its enabling and its payload, key by key.
pub proof fn law_variant_models(variant: Variant, key: Seq<char>)
    ensures
        variant@.name == variant.name@,
        variant@.enabled == variant.enabled,
        variant@.payload.contains_key(key) <==> variant.payload@.contains_key(key),
        variant.payload@.contains_key(key) ==> variant@.payload[key] == variant.payload@[key]@,
{
}

/// A document is modelled by what it holds, level by level, in its order.
pub proof fn law_document_models(json: Json)
    ensures
        match json {
            Json::Null => json@ == JsonView::Null,
            Json::Bool(value) => json@ == JsonView::Bool(value),
            Json::Number { whole, double_bits } => json@ == (JsonView::Number {
                whole,
                double_bits,
            }),
            Json::String(text) => json@ == JsonView::String(text@),
            Json::Array(items) => json@ matches JsonView::Array(models) && models.len()
                == items@.len() && forall|i: int|
                0 <= i < items@.len() ==> #[trigger] models[i] == items@[i]@,
            Json::Object(fields) => json@ matches JsonView::Object(models) && models.len()
                == fields@.len() && forall|i: int|
                0 <= i < fields@.len() ==> #[trigger] models[i] == (fields@[i].0@, fields@[i].1@),
        },
{
}

/// A flag value is modelled by what it holds, level by level.
pub proof fn law_value_models(value: FlagValue)
    ensures
        match value {
            FlagValue::Bool(plain) => value@ == ValueView::Bool(plain),
            FlagValue::Int(plain) => value@ == ValueView::Int(plain),
            FlagValue::Float(bits) => value@ == ValueView::Float(bits),
            FlagValue::String(text) => value@ == ValueView::String(text@),
            FlagValue::Array(items) => value@ matches ValueView::Array(models) && models.len()
                == items@.len() && forall|i: int|
                0 <= i < items@.len() ==> #[trigger] models[i] == items@[i]@,
            FlagValue::Struct(structure) => value@ == ValueView::Struct(structure@),
        },
{
}

/// A structure is modelled by its members, each under its name.
pub proof fn law_structure_models(structure: StructValue, key: Seq<char>)
    ensures
        structure@.contains_key(key) <==> structure.fields@.contains_key(key),
        structure.fields@.contains_key(key) ==> structure@[key] == structure.fields@[key]@,
{
}

/// What a client may select for an evaluation context is what it may select for the Unleash
/// context that it becomes, under the same flag key.
pub proof fn law_clients_are_asked_as_given<C: UnleashClient>(
    client: C,
    flag_key: Seq<char>,
    context: EvaluationContext,
    variant: VariantView,
)
    ensures
        selects(client, flag_key, context, variant) <==> client.may_select(
            flag_key,
            unleash_context(context@),
            variant,
        ),
{
}

} // verus!
