//! What holds of the library as a whole.

pub mod contexts;
pub mod documents;
pub mod lifecycles;
pub mod models;
pub mod operations;
pub mod texts;
pub mod variants;

use vstd::prelude::*;

use crate::context::{
    field_address, field_text, field_time, is_base_key, property_text, unleash_context,
    EvaluationContextView, FieldView, UnleashContextView,
};
use crate::evaluation::{ErrorCodeView, ErrorView};
use crate::json::JsonView;
use crate::lifecycle::{
    count_starts, count_stops, initialize_action, polling_after, polling_after_calls,
    shutdown_action, starts, stops, InitializeAction, LifecycleCall, ShutdownAction,
};
use crate::payload::{
    all_digits, digits_value, disabled, int_of_variant, integer_payload, is_digit, json_types,
    number_types, object_of_variant, selected_payload, string_of_variant, string_types,
    struct_of_variant, VariantView,
};
use crate::text::{decimal, digits};
use crate::value::{converted, converted_fields, converted_items, ValueView};

verus! {

/// A targeting key is the user, whatever the fields say.
pub proof fn law_targeting_key_is_the_user(context: EvaluationContextView)
    requires
        context.targeting_key is Some,
    ensures
        unleash_context(context).user_id == context.targeting_key,
{
}

/// Without a targeting key, the user is the text of the field `userId`.
pub proof fn law_user_field_is_the_user(context: EvaluationContextView)
    requires
        context.targeting_key is None,
    ensures
        unleash_context(context).user_id == field_text(context.custom_fields, "userId"@),
{
}

/// The targeting key bears on nothing but the user.
pub proof fn law_targeting_key_is_only_the_user(
    context: EvaluationContextView,
    targeting_key: Option<Seq<char>>,
)
    ensures
        unleash_context(EvaluationContextView { targeting_key, ..context }) == (
        UnleashContextView {
            user_id: unleash_context(
                EvaluationContextView { targeting_key, ..context },
            ).user_id,
            ..unleash_context(context)
        }),
{
}

/// The properties are the fields that have no place of their own and are no structures, under
/// their names and with their texts.
pub proof fn law_properties_are_the_other_fields(context: EvaluationContextView, key: Seq<char>)
    ensures
        unleash_context(context).properties.contains_key(key) <==> (
        context.custom_fields.contains_key(key) && !is_base_key(key)
            && context.custom_fields[key] !is Struct),
        unleash_context(context).properties.contains_key(key) ==> Some(
            unleash_context(context).properties[key],
        ) == property_text(context.custom_fields[key]),
{
}

/// A field without a place of its own bears on the property of its name and on nothing else.
pub proof fn law_other_field_is_only_a_property(
    context: EvaluationContextView,
    key: Seq<char>,
    value: FieldView,
)
    requires
        !is_base_key(key),
    ensures
        unleash_context(
            EvaluationContextView {
                custom_fields: context.custom_fields.insert(key, value),
                ..context
            },
        ) == (UnleashContextView {
            properties: match property_text(value) {
                Some(text) => unleash_context(context).properties.insert(key, text),
                None => unleash_context(context).properties.remove(key),
            },
            ..unleash_context(context)
        }),
{
    let before = unleash_context(context);
    let after = unleash_context(
        EvaluationContextView {
            custom_fields: context.custom_fields.insert(key, value),
            ..context
        },
    );
    let properties = match property_text(value) {
        Some(text) => before.properties.insert(key, text),
        None => before.properties.remove(key),
    };
    assert(after.properties =~= properties);
}

/// Two fields of different names may be added in either order.
pub proof fn law_fields_are_unordered(
    context: EvaluationContextView,
    key: Seq<char>,
    value: FieldView,
    other_key: Seq<char>,
    other_value: FieldView,
)
    requires
        key != other_key,
    ensures
        unleash_context(
            EvaluationContextView {
                custom_fields: context.custom_fields.insert(key, value).insert(
                    other_key,
                    other_value,
                ),
                ..context
            },
        ) == unleash_context(
            EvaluationContextView {
                custom_fields: context.custom_fields.insert(other_key, other_value).insert(
                    key,
                    value,
                ),
                ..context
            },
        ),
{
    assert(context.custom_fields.insert(key, value).insert(other_key, other_value)
        =~= context.custom_fields.insert(other_key, other_value).insert(key, value));
}

/// Only a string that denotes an address sets the address, and only a date and time of the
/// calendar sets the time.
pub proof fn law_unreadable_fields_set_nothing(context: EvaluationContextView)
    ensures
        unleash_context(context).remote_address is Some <==> context.custom_fields.contains_key(
            "remoteAddress"@,
        ) && field_address(context.custom_fields["remoteAddress"@]) is Some,
        unleash_context(context).current_time is Some <==> context.custom_fields.contains_key(
            "currentTime"@,
        ) && field_time(context.custom_fields["currentTime"@]) is Some,
{
}

/// A disabled variant gives one and the same error, whatever is asked of it and whatever its
/// payload.
pub proof fn law_disabled_variant_resolves_to_nothing(variant: VariantView)
    requires
        !variant.enabled,
    ensures
        int_of_variant(variant) == Err::<i64, ErrorView>(disabled()),
        string_of_variant(variant) == Err::<Seq<char>, ErrorView>(disabled()),
        object_of_variant(variant) == Err::<ValueView, ErrorView>(disabled()),
        struct_of_variant(variant) == Err::<Map<Seq<char>, ValueView>, ErrorView>(disabled()),
{
}

/// An enabled variant whose payload lacks its type or its value is refused for its type, whatever
/// is asked of it.
pub proof fn law_incomplete_payload_is_a_mismatch(variant: VariantView)
    requires
        variant.enabled,
        !variant.payload.contains_key("type"@) || !variant.payload.contains_key("value"@),
    ensures
        int_of_variant(variant) matches Err(error) && error.code == ErrorCodeView::TypeMismatch,
        string_of_variant(variant) matches Err(error) && error.code == ErrorCodeView::TypeMismatch,
        object_of_variant(variant) matches Err(error) && error.code == ErrorCodeView::TypeMismatch,
        struct_of_variant(variant) matches Err(error) && error.code == ErrorCodeView::TypeMismatch,
{
}

/// Payloads of the types `string` and `csv` resolve to their texts as they are.
pub proof fn law_texts_are_kept(variant: VariantView)
    requires
        variant.enabled,
        variant.payload.contains_key("type"@),
        variant.payload.contains_key("value"@),
        variant.payload["type"@] == "string"@ || variant.payload["type"@] == "csv"@,
    ensures
        string_of_variant(variant) == Ok::<Seq<char>, ErrorView>(variant.payload["value"@]),
{
    assert(string_types()[0] == "string"@);
    assert(string_types()[1] == "csv"@);
}

/// A variant resolves as at most one of number, text and JSON document.
pub proof fn law_payload_has_one_kind(variant: VariantView)
    ensures
        selected_payload(variant, number_types()) is Ok ==> string_of_variant(variant) is Err
            && object_of_variant(variant) is Err,
        string_of_variant(variant) is Ok ==> int_of_variant(variant) is Err && object_of_variant(
            variant,
        ) is Err,
        selected_payload(variant, json_types()) is Ok ==> int_of_variant(variant) is Err
            && string_of_variant(variant) is Err,
{
    reveal_strlit("number");
    reveal_strlit("string");
    reveal_strlit("csv");
    reveal_strlit("json");
    assert("number"@[0] == 'n');
    assert("string"@[0] == 's');
    assert("csv"@[0] == 'c');
    assert("json"@[0] == 'j');
}

/// The error is that of a disabled variant, a type mismatch or a failure to parse.
pub open spec fn known_error(error: ErrorView) -> bool {
    ||| error.code == ErrorCodeView::General("UNKNOWN"@)
    ||| error.code == ErrorCodeView::TypeMismatch
    ||| error.code == ErrorCodeView::ParseError
}

/// Every failure to resolve a variant has one of three codes, and a message.
pub proof fn law_errors_are_known(variant: VariantView)
    ensures
        int_of_variant(variant) matches Err(error) ==> known_error(error)
            && error.message is Some,
        string_of_variant(variant) matches Err(error) ==> known_error(error)
            && error.message is Some,
        object_of_variant(variant) matches Err(error) ==> known_error(error)
            && error.message is Some,
        struct_of_variant(variant) matches Err(error) ==> known_error(error)
            && error.message is Some,
{
    if let Ok(text) = selected_payload(variant, json_types()) {
        if let Ok(value) = crate::json::json_of_text(text) {
            law_conversion_fails_on_types(crate::json::json_contents(value));
        }
    }
}

/// A variant is a structure exactly where it is a value that is one; a value of another kind,
/// a list among them, is refused as a structure for its type.
pub proof fn law_structures_are_objects(variant: VariantView)
    ensures
        struct_of_variant(variant) matches Ok(fields) ==> object_of_variant(variant) == Ok::<
            ValueView,
            ErrorView,
        >(ValueView::Struct(fields)),
        object_of_variant(variant) matches Ok(value) ==> match value {
            ValueView::Struct(fields) => struct_of_variant(variant) == Ok::<
                Map<Seq<char>, ValueView>,
                ErrorView,
            >(fields),
            _ => struct_of_variant(variant) matches Err(error) && error.code
                == ErrorCodeView::TypeMismatch,
        },
        object_of_variant(variant) matches Err(error) ==> struct_of_variant(variant) == Err::<
            Map<Seq<char>, ValueView>,
            ErrorView,
        >(error),
{
}

proof fn lemma_digits(n: nat)
    ensures
        all_digits(digits(n)),
        digits_value(digits(n)) == n,
    decreases n,
{
    if n < 10 {
        assert(digits(n).drop_last() =~= Seq::empty());
        assert(digits_value(Seq::empty()) == 0);
    } else {
        lemma_digits(n / 10);
        assert(digits(n).drop_last() =~= digits(n / 10));
        assert forall|i: int| 0 <= i < digits(n).len() implies is_digit(
            #[trigger] digits(n)[i],
        ) by {
            if i < digits(n / 10).len() {
                assert(digits(n)[i] == digits(n / 10)[i]);
            }
        }
    }
}

/// The decimal notation of every integer resolves to that integer.
pub proof fn law_decimals_resolve(value: i64)
    ensures
        integer_payload(decimal(value as int)) == Ok::<i64, ErrorView>(value),
{
    if value < 0 {
        let magnitude = (-value) as nat;
        lemma_digits(magnitude);
        assert(decimal(value as int).drop_first() =~= digits(magnitude));
    } else {
        lemma_digits(value as nat);
        assert(is_digit(digits(value as nat)[0]));
    }
}

/// The document holds no null, and no number that is neither an `i64` nor a double.
pub open spec fn convertible(json: JsonView) -> bool
    decreases json,
{
    match json {
        JsonView::Null => false,
        JsonView::Number { whole, double_bits } => whole is Some || double_bits is Some,
        JsonView::Array(items) => forall|i: int|
            0 <= i < items.len() ==> convertible(#[trigger] items[i]),
        JsonView::Object(fields) => forall|i: int|
            0 <= i < fields.len() ==> convertible((#[trigger] fields[i]).1),
        _ => true,
    }
}

/// A document has a value exactly where nothing in it, at any depth, is without one.
pub proof fn law_conversion_succeeds(json: JsonView)
    ensures
        converted(json) is Ok <==> convertible(json),
    decreases json,
{
    match json {
        JsonView::Array(items) => {
            lemma_items_convert(items);
            assert(convertible(json) <==> (forall|i: int|
                0 <= i < items.len() ==> convertible(#[trigger] items[i])));
        },
        JsonView::Object(fields) => {
            lemma_fields_convert(fields);
            assert(convertible(json) <==> (forall|i: int|
                0 <= i < fields.len() ==> convertible((#[trigger] fields[i]).1)));
        },
        _ => {},
    }
}

proof fn lemma_items_convert(items: Seq<JsonView>)
    ensures
        converted_items(items) is Ok <==> (forall|i: int|
            0 <= i < items.len() ==> convertible(#[trigger] items[i])),
    decreases items,
{
    if items.len() > 0 {
        let init = items.drop_last();
        lemma_items_convert(init);
        law_conversion_succeeds(items.last());
        assert(forall|i: int| 0 <= i < init.len() ==> init[i] == items[i]);
        if converted_items(items) is Ok {
            assert forall|i: int| 0 <= i < items.len() implies convertible(#[trigger] items[i]) by {
                if i < init.len() {
                    assert(convertible(init[i]));
                }
            }
        }
        if forall|i: int| 0 <= i < items.len() ==> convertible(#[trigger] items[i]) {
            assert forall|i: int| 0 <= i < init.len() implies convertible(#[trigger] init[i]) by {
                assert(convertible(items[i]));
            }
            assert(convertible(items[items.len() - 1]));
        }
    }
}

proof fn lemma_fields_convert(fields: Seq<(Seq<char>, JsonView)>)
    ensures
        converted_fields(fields) is Ok <==> (forall|i: int|
            0 <= i < fields.len() ==> convertible((#[trigger] fields[i]).1)),
    decreases fields,
{
    if fields.len() > 0 {
        let init = fields.drop_last();
        lemma_fields_convert(init);
        assert(decreases_to!(fields[fields.len() - 1] => fields[fields.len() - 1].1));
        law_conversion_succeeds(fields[fields.len() - 1].1);
        assert(forall|i: int| 0 <= i < init.len() ==> init[i] == fields[i]);
        if converted_fields(fields) is Ok {
            assert forall|i: int| 0 <= i < fields.len() implies convertible(
                (#[trigger] fields[i]).1,
            ) by {
                if i < init.len() {
                    assert(convertible(init[i].1));
                }
            }
        }
        if forall|i: int| 0 <= i < fields.len() ==> convertible((#[trigger] fields[i]).1) {
            assert forall|i: int| 0 <= i < init.len() implies convertible(
                (#[trigger] init[i]).1,
            ) by {
                assert(convertible(fields[i].1));
            }
            assert(convertible(fields[fields.len() - 1].1));
        }
    }
}

/// A document without a value is refused for its type, with a message.
pub proof fn law_conversion_fails_on_types(json: JsonView)
    ensures
        converted(json) matches Err(error) ==> error.code == ErrorCodeView::TypeMismatch
            && error.message is Some,
    decreases json,
{
    match json {
        JsonView::Array(items) => {
            lemma_items_fail_on_types(items);
        },
        JsonView::Object(fields) => {
            lemma_fields_fail_on_types(fields);
        },
        _ => {},
    }
}

proof fn lemma_items_fail_on_types(items: Seq<JsonView>)
    ensures
        converted_items(items) matches Err(error) ==> error.code == ErrorCodeView::TypeMismatch
            && error.message is Some,
    decreases items,
{
    if items.len() > 0 {
        lemma_items_fail_on_types(items.drop_last());
        law_conversion_fails_on_types(items.last());
    }
}

proof fn lemma_fields_fail_on_types(fields: Seq<(Seq<char>, JsonView)>)
    ensures
        converted_fields(fields) matches Err(error) ==> error.code == ErrorCodeView::TypeMismatch
            && error.message is Some,
    decreases fields,
{
    if fields.len() > 0 {
        lemma_fields_fail_on_types(fields.drop_last());
        assert(decreases_to!(fields[fields.len() - 1] => fields[fields.len() - 1].1));
        law_conversion_fails_on_types(fields[fields.len() - 1].1);
    }
}

/// A list keeps the number and the order of its items, each with its own value.
pub proof fn law_lists_keep_their_items(items: Seq<JsonView>)
    requires
        converted(JsonView::Array(items)) is Ok,
    ensures
        converted(JsonView::Array(items))->Ok_0 matches ValueView::Array(values) && values.len()
            == items.len() && forall|i: int|
            #![trigger values[i]]
            #![trigger items[i]]
            0 <= i < items.len() ==> converted(items[i]) == Ok::<ValueView, ErrorView>(values[i]),
    decreases items.len(),
{
    if items.len() > 0 {
        let init = items.drop_last();
        assert(converted_items(init) is Ok);
        law_lists_keep_their_items(init);
        let before = converted_items(init)->Ok_0;
        let values = converted_items(items)->Ok_0;
        assert(values =~= before.push(converted(items.last())->Ok_0));
        assert forall|i: int|
            #![trigger values[i]]
            #![trigger items[i]]
            0 <= i < items.len() implies converted(items[i]) == Ok::<ValueView, ErrorView>(
            values[i],
        ) by {
            if i < init.len() {
                assert(init[i] == items[i]);
                assert(before[i] == values[i]);
            }
        }
    }
}

/// A structure has the members of the object it comes from, under their names and no others. Of
/// members of one name, the last one counts.
pub proof fn law_structures_keep_their_members(fields: Seq<(Seq<char>, JsonView)>)
    requires
        converted(JsonView::Object(fields)) is Ok,
    ensures
        converted(JsonView::Object(fields))->Ok_0 matches ValueView::Struct(values) && (forall|
            name: Seq<char>,
        |
            #[trigger] values.contains_key(name) <==> exists|i: int|
                0 <= i < fields.len() && (#[trigger] fields[i]).0 == name) && (forall|i: int|
            0 <= i < fields.len() && (forall|j: int|
                i < j < fields.len() ==> (#[trigger] fields[j]).0 != fields[i].0) ==> converted(
                (#[trigger] fields[i]).1,
            ) == Ok::<ValueView, ErrorView>(values[fields[i].0])),
    decreases fields.len(),
{
    if fields.len() > 0 {
        let init = fields.drop_last();
        let last = fields.last();
        assert(converted_fields(init) is Ok);
        law_structures_keep_their_members(init);
        let before = converted_fields(init)->Ok_0;
        let values = converted_fields(fields)->Ok_0;
        assert(values == before.insert(last.0, converted(last.1)->Ok_0));
        assert forall|name: Seq<char>|
            #[trigger] values.contains_key(name) <==> exists|i: int|
                0 <= i < fields.len() && (#[trigger] fields[i]).0 == name by {
            if values.contains_key(name) {
                if name == last.0 {
                    assert(fields[fields.len() - 1].0 == name);
                } else {
                    assert(before.contains_key(name));
                    let i = choose|i: int| 0 <= i < init.len() && (#[trigger] init[i]).0 == name;
                    assert(fields[i].0 == name);
                }
            }
            if exists|i: int| 0 <= i < fields.len() && (#[trigger] fields[i]).0 == name {
                let i = choose|i: int| 0 <= i < fields.len() && (#[trigger] fields[i]).0 == name;
                if i < init.len() {
                    assert(init[i].0 == name);
                    assert(before.contains_key(name));
                }
            }
        }
        assert forall|i: int|
            0 <= i < fields.len() && (forall|j: int|
                i < j < fields.len() ==> (#[trigger] fields[j]).0
                    != fields[i].0) implies converted((#[trigger] fields[i]).1) == Ok::<
            ValueView,
            ErrorView,
        >(values[fields[i].0]) by {
            if i < init.len() {
                assert(fields[fields.len() - 1].0 != fields[i].0);
                assert(init[i] == fields[i]);
                assert forall|j: int| i < j < init.len() implies (#[trigger] init[j]).0
                    != init[i].0 by {
                    assert(fields[j].0 != fields[i].0);
                }
                assert(init[i].0 != last.0);
            }
        }
    }
}

/// A number that is an `i64` becomes an integer, even where it is a double too.
pub proof fn law_integers_come_first(value: i64, double_bits: Option<u64>)
    ensures
        converted(JsonView::Number { whole: Some(value), double_bits }) == Ok::<
            ValueView,
            ErrorView,
        >(ValueView::Int(value)),
{
}

/// After an `initialize` that succeeded, another one has nothing to do and changes nothing.
pub proof fn law_initialize_is_idempotent(polling: bool, registers: bool)
    ensures
        polling_after(polling, LifecycleCall::Initialize { registers: true }),
        ({
            let after = polling_after(polling, LifecycleCall::Initialize { registers: true });
            let again = LifecycleCall::Initialize { registers };
            &&& initialize_action(after) == InitializeAction::Done
            &&& polling_after(after, again) == after
            &&& !starts(after, again)
        }),
{
}

/// After a `shutdown`, another one has nothing to do and changes nothing, and an `initialize`
/// registers anew.
pub proof fn law_shutdown_is_idempotent(polling: bool)
    ensures
        !polling_after(polling, LifecycleCall::Shutdown),
        ({
            let after = polling_after(polling, LifecycleCall::Shutdown);
            &&& shutdown_action(after) == ShutdownAction::Done
            &&& polling_after(after, LifecycleCall::Shutdown) == after
            &&& !stops(after, LifecycleCall::Shutdown)
            &&& initialize_action(after) == InitializeAction::Register
        }),
{
}

/// A failure to register leaves the client as it was, and the next `initialize` tries again.
pub proof fn law_failed_registration_changes_nothing(polling: bool)
    ensures
        polling_after(polling, LifecycleCall::Initialize { registers: false }) == polling,
        !polling ==> initialize_action(
            polling_after(polling, LifecycleCall::Initialize { registers: false }),
        ) == InitializeAction::Register,
{
}

/// After any calls, a client polls exactly where it was started once more often than stopped;
/// else it was started as often as stopped. So there is never a second poll beside the first.
pub proof fn law_at_most_one_poll(calls: Seq<LifecycleCall>)
    ensures
        count_starts(calls) == count_stops(calls) + (if polling_after_calls(calls) {
            1int
        } else {
            0int
        }),
    decreases calls.len(),
{
    if calls.len() > 0 {
        law_at_most_one_poll(calls.drop_last());
    }
}

} // verus!
