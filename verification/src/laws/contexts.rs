//! What holds of the Unleash context that an evaluation context becomes, field by field.

use vstd::prelude::*;

use crate::context::{
    blank_context, date_time_nanoseconds, date_time_seconds, date_time_text, ip_address,
    is_base_key, lemma_base_keys_differ, property_text, unleash_context, utc_time, with_base_value,
    EvaluationContextView, FieldView, UnleashContextView, UtcTime,
};
use crate::evaluation::ErrorView;
use crate::laws::law_decimals_resolve;
use crate::payload::integer_payload;
use crate::text::decimal;

verus! {

/// The names of the six fields that Unleash has places of their own for.
pub open spec fn has_own_place(key: Seq<char>) -> bool {
    ||| key == "userId"@
    ||| key == "sessionId"@
    ||| key == "environment"@
    ||| key == "appName"@
    ||| key == "remoteAddress"@
    ||| key == "currentTime"@
}

/// The text is what `unleash` has where a field of the name `key` goes: as the user, unless a
/// targeting key is the user already; as the session, the environment or the application, or as
/// the property of that name. An address and a time are no texts.
pub open spec fn holds_text(
    unleash: UnleashContextView,
    targeted: bool,
    key: Seq<char>,
    text: Seq<char>,
) -> bool {
    &&& key == "userId"@ && !targeted ==> unleash.user_id == Some(text)
    &&& key == "sessionId"@ ==> unleash.session_id == Some(text)
    &&& key == "environment"@ ==> unleash.environment == text
    &&& key == "appName"@ ==> unleash.app_name == text
    &&& !has_own_place(key) ==> unleash.properties.contains_key(key) && unleash.properties[key]
        == text
}

/// There is no text in `unleash` where a field of the name `key` goes.
pub open spec fn holds_no_text(
    unleash: UnleashContextView,
    targeted: bool,
    key: Seq<char>,
) -> bool {
    &&& key == "userId"@ && !targeted ==> unleash.user_id is None
    &&& key == "sessionId"@ ==> unleash.session_id is None
    &&& key == "environment"@ ==> unleash.environment.len() == 0
    &&& key == "appName"@ ==> unleash.app_name.len() == 0
    &&& !unleash.properties.contains_key(key)
}

/// A string field arrives as it is, in its own place or as a property.
pub proof fn law_string_fields_keep_their_text(
    context: EvaluationContextView,
    key: Seq<char>,
    text: Seq<char>,
)
    requires
        context.custom_fields.contains_key(key),
        context.custom_fields[key] == FieldView::String(text),
    ensures
        holds_text(unleash_context(context), context.targeting_key is Some, key, text),
        property_text(FieldView::String(text)) == Some(text),
{
}

/// A floating-point field arrives as the text that the number prints.
pub proof fn law_float_fields_keep_their_text(
    context: EvaluationContextView,
    key: Seq<char>,
    text: Seq<char>,
)
    requires
        context.custom_fields.contains_key(key),
        context.custom_fields[key] == FieldView::Float(text),
    ensures
        holds_text(unleash_context(context), context.targeting_key is Some, key, text),
        property_text(FieldView::Float(text)) == Some(text),
{
}

/// A truth value arrives as the word `true` or `false`.
pub proof fn law_bool_fields_are_words(
    context: EvaluationContextView,
    key: Seq<char>,
    value: bool,
)
    requires
        context.custom_fields.contains_key(key),
        context.custom_fields[key] == FieldView::Bool(value),
    ensures
        value ==> holds_text(
            unleash_context(context),
            context.targeting_key is Some,
            key,
            seq!['t', 'r', 'u', 'e'],
        ),
        !value ==> holds_text(
            unleash_context(context),
            context.targeting_key is Some,
            key,
            seq!['f', 'a', 'l', 's', 'e'],
        ),
        property_text(FieldView::Bool(true)) == Some(seq!['t', 'r', 'u', 'e']),
        property_text(FieldView::Bool(false)) == Some(seq!['f', 'a', 'l', 's', 'e']),
{
    reveal_strlit("true");
    reveal_strlit("false");
    assert("true"@ =~= seq!['t', 'r', 'u', 'e']);
    assert("false"@ =~= seq!['f', 'a', 'l', 's', 'e']);
}

/// A date and time arrives as the text that it prints.
pub proof fn law_date_fields_are_printed(
    context: EvaluationContextView,
    key: Seq<char>,
    value: time::OffsetDateTime,
)
    requires
        context.custom_fields.contains_key(key),
        context.custom_fields[key] == FieldView::DateTime(value),
    ensures
        holds_text(
            unleash_context(context),
            context.targeting_key is Some,
            key,
            date_time_text(value),
        ),
        property_text(FieldView::DateTime(value)) == Some(date_time_text(value)),
{
}

/// An integer field arrives in decimal notation.
pub proof fn law_integer_fields_are_decimals(
    context: EvaluationContextView,
    key: Seq<char>,
    value: i64,
)
    requires
        context.custom_fields.contains_key(key),
        context.custom_fields[key] == FieldView::Int(value),
    ensures
        holds_text(
            unleash_context(context),
            context.targeting_key is Some,
            key,
            decimal(value as int),
        ),
        property_text(FieldView::Int(value)) == Some(decimal(value as int)),
{
}

/// Whatever place an integer field arrives in, the text there reads back as that integer.
pub proof fn law_integer_fields_read_back(
    context: EvaluationContextView,
    key: Seq<char>,
    value: i64,
)
    requires
        context.custom_fields.contains_key(key),
        context.custom_fields[key] == FieldView::Int(value),
    ensures
        property_text(FieldView::Int(value)) matches Some(text) && integer_payload(text) == Ok::<
            i64,
            ErrorView,
        >(value),
        key == "userId"@ && context.targeting_key is None ==> (unleash_context(
            context,
        ).user_id matches Some(text) && integer_payload(text) == Ok::<i64, ErrorView>(value)),
        key == "sessionId"@ ==> (unleash_context(context).session_id matches Some(text)
            && integer_payload(text) == Ok::<i64, ErrorView>(value)),
        key == "environment"@ ==> integer_payload(unleash_context(context).environment) == Ok::<
            i64,
            ErrorView,
        >(value),
        key == "appName"@ ==> integer_payload(unleash_context(context).app_name) == Ok::<
            i64,
            ErrorView,
        >(value),
        !has_own_place(key) ==> unleash_context(context).properties.contains_key(key)
            && integer_payload(unleash_context(context).properties[key]) == Ok::<i64, ErrorView>(
            value,
        ),
{
    law_decimals_resolve(value);
}

/// Two integers arrive as the same text only where they are the same.
pub proof fn law_integer_fields_stay_apart(value: i64, other: i64)
    ensures
        property_text(FieldView::Int(value)) == property_text(FieldView::Int(other)) ==> value
            == other,
{
    law_decimals_resolve(value);
    law_decimals_resolve(other);
}

/// A structure is discarded: it is no property, and leaves its own place empty.
pub proof fn law_structures_are_discarded(context: EvaluationContextView, key: Seq<char>)
    requires
        context.custom_fields.contains_key(key),
        context.custom_fields[key] == FieldView::Struct,
    ensures
        holds_no_text(unleash_context(context), context.targeting_key is Some, key),
        property_text(FieldView::Struct) is None,
{
}

/// Where there is no field, nothing is made up for it.
pub proof fn law_absent_fields_set_nothing(context: EvaluationContextView, key: Seq<char>)
    requires
        !context.custom_fields.contains_key(key),
    ensures
        holds_no_text(unleash_context(context), context.targeting_key is Some, key),
        key == "remoteAddress"@ ==> unleash_context(context).remote_address is None,
        key == "currentTime"@ ==> unleash_context(context).current_time is None,
{
}

/// A field that has a place of its own is no property; there are six such fields.
pub proof fn law_own_places_are_no_properties(context: EvaluationContextView, key: Seq<char>)
    ensures
        has_own_place(key) ==> !unleash_context(context).properties.contains_key(key),
        is_base_key(key) <==> has_own_place(key),
{
}

/// The address is the one that the string field `remoteAddress` denotes. A field of another kind,
/// whatever it would print, is no address.
pub proof fn law_addresses_are_strings(context: EvaluationContextView)
    requires
        context.custom_fields.contains_key("remoteAddress"@),
    ensures
        match context.custom_fields["remoteAddress"@] {
            FieldView::String(text) => unleash_context(context).remote_address == ip_address(text),
            _ => unleash_context(context).remote_address is None,
        },
{
}

/// The time is the instant of the date in the field `currentTime`, to the nanosecond, where the
/// calendar has it. A field of another kind is no time.
pub proof fn law_times_are_dates(context: EvaluationContextView)
    requires
        context.custom_fields.contains_key("currentTime"@),
    ensures
        match context.custom_fields["currentTime"@] {
            FieldView::DateTime(value) => {
                let seconds = date_time_seconds(value);
                let nanoseconds = date_time_nanoseconds(value);
                if nanoseconds < 1_000_000_000 && -8_334_601_228_800 <= seconds
                    <= 8_210_266_876_799 {
                    unleash_context(context).current_time == Some(UtcTime { seconds, nanoseconds })
                } else {
                    unleash_context(context).current_time == utc_time(seconds, nanoseconds)
                }
            },
            _ => unleash_context(context).current_time is None,
        },
{
}

/// An instant is kept as it is given. There is none outside the years of the calendar, nor with
/// two seconds' worth of nanoseconds; with one second's worth, only in a minute's last second.
pub proof fn law_instants_are_kept(seconds: i64, nanoseconds: u32)
    ensures
        utc_time(seconds, nanoseconds) matches Some(time) ==> time.seconds == seconds
            && time.nanoseconds == nanoseconds,
        utc_time(seconds, nanoseconds) is Some <==> -8_334_601_228_800 <= seconds
            <= 8_210_266_876_799 && (nanoseconds < 1_000_000_000 || nanoseconds < 2_000_000_000
            && (seconds + 1) % 60 == 0),
{
}

/// In an empty evaluation context nothing is set but the user, where there is a targeting key.
pub proof fn law_empty_context(targeting_key: Option<Seq<char>>)
    ensures
        unleash_context(
            EvaluationContextView { targeting_key, custom_fields: Map::empty() },
        ) == (UnleashContextView {
            user_id: targeting_key,
            session_id: None,
            remote_address: None,
            properties: Map::empty(),
            app_name: Seq::empty(),
            environment: Seq::empty(),
            current_time: None,
        }),
        blank_context() == unleash_context(
            EvaluationContextView { targeting_key: None, custom_fields: Map::empty() },
        ),
{
    let context = EvaluationContextView { targeting_key, custom_fields: Map::empty() };
    let untargeted = EvaluationContextView { targeting_key: None, custom_fields: Map::empty() };
    assert(unleash_context(context).properties =~= Map::empty());
    assert(unleash_context(untargeted).properties =~= Map::empty());
}

/// A field with a place of its own bears on that place and on nothing else: two contexts that
/// differ in that field alone agree everywhere but there.
pub proof fn law_own_places_are_apart(
    context: EvaluationContextView,
    key: Seq<char>,
    value: FieldView,
)
    requires
        has_own_place(key),
    ensures
        ({
            let before = unleash_context(context);
            let after = unleash_context(
                EvaluationContextView {
                    custom_fields: context.custom_fields.insert(key, value),
                    ..context
                },
            );
            &&& key != "userId"@ ==> after.user_id == before.user_id
            &&& key != "sessionId"@ ==> after.session_id == before.session_id
            &&& key != "environment"@ ==> after.environment == before.environment
            &&& key != "appName"@ ==> after.app_name == before.app_name
            &&& key != "remoteAddress"@ ==> after.remote_address == before.remote_address
            &&& key != "currentTime"@ ==> after.current_time == before.current_time
            &&& after.properties == before.properties
        }),
{
    let before = unleash_context(context);
    let after = unleash_context(
        EvaluationContextView {
            custom_fields: context.custom_fields.insert(key, value),
            ..context
        },
    );
    assert(after.properties =~= before.properties);
}

/// The context that a single field, and no targeting key, becomes.
pub open spec fn field_alone(key: Seq<char>, value: FieldView) -> UnleashContextView {
    unleash_context(
        EvaluationContextView {
            targeting_key: None,
            custom_fields: Map::empty().insert(key, value),
        },
    )
}

/// To put a field in its own place is to set that place to what the field becomes alone, and to
/// change nothing else. What is no address or no time does not displace one.
pub proof fn law_base_value_sets_its_place(
    context: UnleashContextView,
    key: Seq<char>,
    value: FieldView,
)
    ensures
        ({
            let alone = field_alone(key, value);
            let after = with_base_value(context, key, value);
            &&& after.user_id == if key == "userId"@ {
                alone.user_id
            } else {
                context.user_id
            }
            &&& after.session_id == if key == "sessionId"@ {
                alone.session_id
            } else {
                context.session_id
            }
            &&& after.environment == if key == "environment"@ {
                alone.environment
            } else {
                context.environment
            }
            &&& after.app_name == if key == "appName"@ {
                alone.app_name
            } else {
                context.app_name
            }
            &&& after.remote_address == if key == "remoteAddress"@ && alone.remote_address is Some {
                alone.remote_address
            } else {
                context.remote_address
            }
            &&& after.current_time == if key == "currentTime"@ && alone.current_time is Some {
                alone.current_time
            } else {
                context.current_time
            }
            &&& after.properties == context.properties
        }),
{
    lemma_base_keys_differ();
}

} // verus!
