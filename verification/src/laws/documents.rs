//! What holds of the values that JSON documents stand for.

use vstd::prelude::*;

use crate::evaluation::{ErrorCodeView, ErrorView};
use crate::json::JsonView;
use crate::value::{
    converted, converted_fields, converted_items, lemma_field_fails, lemma_item_fails, ValueView,
};

verus! {

/// A text stands for itself.
pub proof fn law_strings_are_kept(text: Seq<char>)
    ensures
        converted(JsonView::String(text)) == Ok::<ValueView, ErrorView>(ValueView::String(text)),
{
}

/// A truth value stands for itself.
pub proof fn law_truth_values_are_kept(value: bool)
    ensures
        converted(JsonView::Bool(value)) == Ok::<ValueView, ErrorView>(ValueView::Bool(value)),
{
}

/// A number that is no `i64` but a double stands for that double, to the bit.
pub proof fn law_doubles_are_kept(double_bits: u64)
    ensures
        converted(JsonView::Number { whole: None, double_bits: Some(double_bits) }) == Ok::<
            ValueView,
            ErrorView,
        >(ValueView::Float(double_bits)),
{
}

/// A number becomes an integer exactly where it is an `i64`, and a double exactly where it is a
/// double and no `i64`; nothing else becomes either.
pub proof fn law_numbers_come_from_numbers(json: JsonView, value: i64, double_bits: u64)
    ensures
        converted(json) == Ok::<ValueView, ErrorView>(ValueView::Int(value)) <==> (
        json matches JsonView::Number { whole, .. } && whole == Some(value)),
        converted(json) == Ok::<ValueView, ErrorView>(ValueView::Float(double_bits)) <==> json == (
        JsonView::Number { whole: None, double_bits: Some(double_bits) }),
{
}

/// Two documents without members or items stand for the same value only where they are the same,
/// or are integers that agree as integers.
pub proof fn law_plain_values_stay_apart(json: JsonView, other: JsonView)
    requires
        converted(json) is Ok,
        converted(json) == converted(other),
        json !is Array && json !is Object,
        other !is Array && other !is Object,
    ensures
        json == other || (json matches JsonView::Number { whole: Some(value), .. }
            && other matches JsonView::Number { whole: Some(other_value), .. } && value
            == other_value),
{
}

/// A null is refused for its type.
pub proof fn law_nulls_are_refused()
    ensures
        converted(JsonView::Null) == Err::<ValueView, ErrorView>(
            ErrorView {
                code: ErrorCodeView::TypeMismatch,
                message: Some("JSON null is not a supported OpenFeature object value"@),
            },
        ),
{
}

/// A number that is neither an `i64` nor a double is refused for its type.
pub proof fn law_other_numbers_are_refused()
    ensures
        converted(JsonView::Number { whole: None, double_bits: None }) == Err::<
            ValueView,
            ErrorView,
        >(
            ErrorView {
                code: ErrorCodeView::TypeMismatch,
                message: Some("JSON number cannot be represented as i64 or f64"@),
            },
        ),
{
}

/// A list of documents that each stand for a value stands for the list of those values.
pub proof fn law_lists_of_values(items: Seq<JsonView>, values: Seq<ValueView>)
    requires
        items.len() == values.len(),
        forall|i: int|
            #![trigger items[i]]
            0 <= i < items.len() ==> converted(items[i]) == Ok::<ValueView, ErrorView>(values[i]),
    ensures
        converted(JsonView::Array(items)) == Ok::<ValueView, ErrorView>(ValueView::Array(values)),
    decreases items.len(),
{
    if items.len() > 0 {
        let init = items.drop_last();
        assert forall|i: int| #![trigger init[i]] 0 <= i < init.len() implies converted(init[i])
            == Ok::<ValueView, ErrorView>(values.drop_last()[i]) by {
            assert(init[i] == items[i]);
        }
        law_lists_of_values(init, values.drop_last());
        assert(converted(items[items.len() - 1]) is Ok);
        assert(values =~= values.drop_last().push(values.last()));
    } else {
        assert(values =~= Seq::empty());
    }
}

/// A list fails with the error of its first item that fails, whatever follows.
pub proof fn law_lists_fail_at_the_first_failure(items: Seq<JsonView>, i: int)
    requires
        0 <= i < items.len(),
        converted(items[i]) is Err,
        forall|j: int| 0 <= j < i ==> converted(#[trigger] items[j]) is Ok,
    ensures
        converted(JsonView::Array(items)) == Err::<ValueView, ErrorView>(
            converted(items[i])->Err_0,
        ),
{
    lemma_items_before(items, i);
    lemma_item_fails(items, i);
}

proof fn lemma_items_before(items: Seq<JsonView>, n: int)
    requires
        0 <= n <= items.len(),
        forall|j: int| 0 <= j < n ==> converted(#[trigger] items[j]) is Ok,
    ensures
        converted_items(items.take(n)) is Ok,
    decreases n,
{
    if n > 0 {
        lemma_items_before(items, n - 1);
        assert(items.take(n).drop_last() =~= items.take(n - 1));
        assert(converted(items[n - 1]) is Ok);
    }
}

/// An object with one member more, that stands for a value, stands for the structure with that
/// value under the member's name; a former value under that name gives way.
pub proof fn law_structures_grow_by_a_member(
    fields: Seq<(Seq<char>, JsonView)>,
    name: Seq<char>,
    json: JsonView,
)
    requires
        converted(JsonView::Object(fields)) is Ok,
        converted(json) is Ok,
    ensures
        converted(JsonView::Object(Seq::empty())) == Ok::<ValueView, ErrorView>(
            ValueView::Struct(Map::empty()),
        ),
        converted(JsonView::Object(fields))->Ok_0 matches ValueView::Struct(values) && converted(
            JsonView::Object(fields.push((name, json))),
        ) == Ok::<ValueView, ErrorView>(
            ValueView::Struct(values.insert(name, converted(json)->Ok_0)),
        ),
{
    assert(fields.push((name, json)).drop_last() =~= fields);
}

/// An object fails with the error of its first member that fails, whatever follows.
pub proof fn law_structures_fail_at_the_first_failure(
    fields: Seq<(Seq<char>, JsonView)>,
    i: int,
)
    requires
        0 <= i < fields.len(),
        converted(fields[i].1) is Err,
        forall|j: int| 0 <= j < i ==> converted((#[trigger] fields[j]).1) is Ok,
    ensures
        converted(JsonView::Object(fields)) == Err::<ValueView, ErrorView>(
            converted(fields[i].1)->Err_0,
        ),
{
    lemma_fields_before(fields, i);
    lemma_field_fails(fields, i);
}

proof fn lemma_fields_before(fields: Seq<(Seq<char>, JsonView)>, n: int)
    requires
        0 <= n <= fields.len(),
        forall|j: int| 0 <= j < n ==> converted((#[trigger] fields[j]).1) is Ok,
    ensures
        converted_fields(fields.take(n)) is Ok,
    decreases n,
{
    if n > 0 {
        lemma_fields_before(fields, n - 1);
        assert(fields.take(n).drop_last() =~= fields.take(n - 1));
        assert(converted(fields[n - 1].1) is Ok);
    }
}

/// A list stands for a list and an object for a structure; nothing else stands for either.
pub proof fn law_shapes_are_kept(json: JsonView)
    requires
        converted(json) is Ok,
    ensures
        json is Array <==> converted(json)->Ok_0 is Array,
        json is Object <==> converted(json)->Ok_0 is Struct,
        json is String <==> converted(json)->Ok_0 is String,
        json is Bool <==> converted(json)->Ok_0 is Bool,
{
}

/// The order of members with different names does not matter to what an object stands for.
pub proof fn law_members_are_unordered(
    fields: Seq<(Seq<char>, JsonView)>,
    first: (Seq<char>, JsonView),
    second: (Seq<char>, JsonView),
)
    requires
        first.0 != second.0,
        converted(JsonView::Object(fields)) is Ok,
        converted(first.1) is Ok,
        converted(second.1) is Ok,
    ensures
        converted(JsonView::Object(fields.push(first).push(second))) == converted(
            JsonView::Object(fields.push(second).push(first)),
        ),
{
    law_structures_grow_by_a_member(fields, first.0, first.1);
    law_structures_grow_by_a_member(fields, second.0, second.1);
    law_structures_grow_by_a_member(fields.push(first), second.0, second.1);
    law_structures_grow_by_a_member(fields.push(second), first.0, first.1);
    let values = converted(JsonView::Object(fields))->Ok_0->Struct_0;
    let one = converted(first.1)->Ok_0;
    let other = converted(second.1)->Ok_0;
    assert(values.insert(first.0, one).insert(second.0, other) =~= values.insert(
        second.0,
        other,
    ).insert(first.0, one));
}

} // verus!
