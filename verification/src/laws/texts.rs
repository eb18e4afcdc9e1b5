//! What holds of texts: decimal notation, integers that are read, quoted lists.

use vstd::prelude::*;

use crate::evaluation::{ErrorCodeView, ErrorView};
use crate::payload::{
    all_digits, digits_value, integer_error, integer_error_message, integer_payload, is_digit,
};
use crate::text::{bool_word, decimal, digits, quoted, quoted_items, quoted_list};

verus! {

/// The decimal notation of a number below ten is its digit.
pub proof fn law_decimal_of_a_digit(value: int)
    requires
        0 <= value < 10,
    ensures
        decimal(value).len() == 1,
        decimal(value)[0] as int == '0' as int + value,
{
}

/// One more decimal place adds one digit at the end and leaves the rest as it is.
pub proof fn law_decimal_grows_by_a_digit(value: int, last: int)
    requires
        value > 0,
        0 <= last < 10,
    ensures
        decimal(value * 10 + last) == decimal(value) + decimal(last),
{
    let n = (value * 10 + last) as nat;
    assert(n / 10 == value as nat);
    assert(n % 10 == last as nat);
    assert(decimal(value * 10 + last) =~= decimal(value) + decimal(last));
}

/// A negative number is written as its opposite with a minus sign in front, and no other number
/// has a sign.
pub proof fn law_decimal_of_a_negative(value: int)
    requires
        value > 0,
    ensures
        decimal(-value) == seq!['-'] + decimal(value),
        decimal(value)[0] != '-' && decimal(value)[0] != '+',
{
    lemma_first_digit(value as nat);
}

pub(crate) proof fn lemma_first_digit(n: nat)
    ensures
        digits(n).len() > 0,
        is_digit(digits(n)[0]),
    decreases n,
{
    if n >= 10 {
        lemma_first_digit(n / 10);
    }
}

/// Truth values are written `true` and `false`.
pub proof fn law_words_of_truth_values()
    ensures
        bool_word(true) == seq!['t', 'r', 'u', 'e'],
        bool_word(false) == seq!['f', 'a', 'l', 's', 'e'],
{
    reveal_strlit("true");
    reveal_strlit("false");
    assert(bool_word(true) =~= seq!['t', 'r', 'u', 'e']);
    assert(bool_word(false) =~= seq!['f', 'a', 'l', 's', 'e']);
}

/// An empty list is a pair of brackets, and a list of one text is that text, quoted, in brackets.
pub proof fn law_quoted_list_of_one(item: Seq<char>)
    ensures
        quoted_list(Seq::empty()) == seq!['[', ']'],
        quoted_list(seq![item]) == seq!['['] + quoted(item) + seq![']'],
{
    reveal_strlit("[");
    reveal_strlit("]");
    assert(quoted_list(Seq::empty()) =~= seq!['[', ']']);
    assert("["@ =~= seq!['[']);
    assert("]"@ =~= seq![']']);
    assert(quoted_items(seq![item]) == quoted(item));
}

/// One more text in a list that has some already stands before the closing bracket, quoted, after
/// a comma and a space.
pub proof fn law_quoted_list_grows(items: Seq<Seq<char>>, item: Seq<char>)
    requires
        items.len() > 0,
    ensures
        quoted_list(items.push(item)) == quoted_list(items).drop_last() + seq![',', ' '] + quoted(
            item,
        ) + seq![']'],
{
    reveal_strlit("[");
    reveal_strlit("]");
    reveal_strlit(", ");
    assert(items.push(item).drop_last() =~= items);
    assert(quoted_items(items.push(item)) == quoted_items(items) + ", "@ + quoted(item));
    assert(quoted_list(items).drop_last() =~= "["@ + quoted_items(items));
    assert(", "@ =~= seq![',', ' ']);
    assert("]"@ =~= seq![']']);
    assert(quoted_list(items.push(item)) =~= quoted_list(items).drop_last() + seq![',', ' ']
        + quoted(item) + seq![']']);
}

/// The refusal of a text that is no integer: a failure to parse, with the message for that text.
pub open spec fn refused(text: Seq<char>) -> Result<i64, ErrorView> {
    Err(
        ErrorView {
            code: ErrorCodeView::ParseError,
            message: Some(integer_error_message(integer_error(text))),
        },
    )
}

/// The text is nothing, or a sign and nothing else.
pub open spec fn lacks_digits(text: Seq<char>) -> bool {
    text.len() == 0 || text == seq!['-'] || text == seq!['+']
}

/// A text without digits is no integer.
pub proof fn law_integers_need_digits(text: Seq<char>)
    requires
        lacks_digits(text),
    ensures
        integer_payload(text) == refused(text),
{
    if text.len() > 0 {
        assert(text.drop_first().len() == 0);
    }
}

/// A text that ends in anything but a decimal digit is no integer.
pub proof fn law_integers_end_in_a_digit(text: Seq<char>, c: char)
    requires
        !('0' as int <= c as int <= '9' as int),
    ensures
        integer_payload(text.push(c)) == refused(text.push(c)),
{
    let longer = text.push(c);
    assert(longer.last() == c);
    if longer[0] == '-' || longer[0] == '+' {
        if text.len() > 0 {
            assert(longer.drop_first().last() == c);
            let rest = longer.drop_first();
            assert(!is_digit(rest[rest.len() - 1]));
        }
    } else {
        assert(!is_digit(longer[longer.len() - 1]));
    }
}

/// A digit after nothing or after a sign is an integer: that digit, or its opposite.
pub proof fn law_integer_of_a_digit(text: Seq<char>, c: char)
    requires
        lacks_digits(text),
        '0' as int <= c as int <= '9' as int,
    ensures
        integer_payload(text.push(c)) == Ok::<i64, ErrorView>(
            (if text == seq!['-'] {
                '0' as int - c as int
            } else {
                c as int - '0' as int
            }) as i64,
        ),
{
    let longer = text.push(c);
    let single = seq![c];
    assert(single.drop_last() =~= Seq::<char>::empty());
    assert(digits_value(Seq::<char>::empty()) == 0);
    assert(digits_value(single) == c as int - '0' as int);
    assert(all_digits(single));
    if text.len() == 0 {
        assert(longer =~= single);
    } else {
        assert(longer.drop_first() =~= single);
        assert(longer[0] == text[0]);
    }
}

/// A digit after an integer makes it ten times as far from zero, and the digit more; where that is
/// too far, and after a text that is no integer, there is none.
pub proof fn law_integers_grow_by_a_digit(text: Seq<char>, c: char)
    requires
        !lacks_digits(text),
        '0' as int <= c as int <= '9' as int,
    ensures
        match integer_payload(text) {
            Ok(value) => {
                let grown = if text[0] == '-' {
                    value * 10 - (c as int - '0' as int)
                } else {
                    value * 10 + (c as int - '0' as int)
                };
                if i64::MIN <= grown <= i64::MAX {
                    integer_payload(text.push(c)) == Ok::<i64, ErrorView>(grown as i64)
                } else {
                    integer_payload(text.push(c)) == refused(text.push(c))
                }
            },
            Err(error) => integer_payload(text.push(c)) == refused(text.push(c)),
        },
{
    let longer = text.push(c);
    assert(longer[0] == text[0]);
    if text[0] == '-' || text[0] == '+' {
        let rest = text.drop_first();
        if rest.len() == 0 {
            assert(text =~= seq![text[0]]);
            assert(false);
        }
        assert(longer.drop_first() =~= rest.push(c));
        lemma_digits_grow(rest, c);
    } else {
        lemma_digits_grow(text, c);
    }
}

proof fn lemma_digits_grow(text: Seq<char>, c: char)
    requires
        text.len() > 0,
        is_digit(c),
    ensures
        all_digits(text.push(c)) == all_digits(text),
        digits_value(text.push(c)) == digits_value(text) * 10 + (c as int - '0' as int),
        all_digits(text) ==> digits_value(text) >= 0,
{
    let longer = text.push(c);
    assert(longer.drop_last() =~= text);
    if all_digits(text) {
        lemma_digits_nonnegative(text);
        assert forall|i: int| 0 <= i < longer.len() implies is_digit(#[trigger] longer[i]) by {
            if i < text.len() {
                assert(is_digit(text[i]));
            }
        }
    }
    if all_digits(longer) {
        assert forall|i: int| 0 <= i < text.len() implies is_digit(#[trigger] text[i]) by {
            assert(is_digit(longer[i]));
        }
    }
}

proof fn lemma_digits_nonnegative(text: Seq<char>)
    requires
        all_digits(text),
    ensures
        digits_value(text) >= 0,
    decreases text.len(),
{
    assert(is_digit(text[text.len() - 1]));
    if text.len() > 1 {
        let init = text.drop_last();
        assert forall|i: int| 0 <= i < init.len() implies is_digit(#[trigger] init[i]) by {
            assert(is_digit(text[i]));
        }
        lemma_digits_nonnegative(init);
    } else {
        assert(text.drop_last() =~= Seq::<char>::empty());
        assert(digits_value(Seq::<char>::empty()) == 0);
    }
}

} // verus!
