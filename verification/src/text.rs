//! Texts: comparison, decimal notation and quoted lists.

use vstd::prelude::*;

verus! {

/// The decimal digit that stands for `d`.
pub open spec fn digit(d: nat) -> char
    recommends
        d < 10,
{
    if d == 0 {
        '0'
    } else if d == 1 {
        '1'
    } else if d == 2 {
        '2'
    } else if d == 3 {
        '3'
    } else if d == 4 {
        '4'
    } else if d == 5 {
        '5'
    } else if d == 6 {
        '6'
    } else if d == 7 {
        '7'
    } else if d == 8 {
        '8'
    } else {
        '9'
    }
}

/// The decimal digits of `n`, without leading zeros.
pub open spec fn digits(n: nat) -> Seq<char>
    decreases n,
{
    if n < 10 {
        seq![digit(n)]
    } else {
        digits(n / 10).push(digit(n % 10))
    }
}

/// The decimal notation of `value`, with a minus sign where it is negative.
pub open spec fn decimal(value: int) -> Seq<char> {
    if value < 0 {
        seq!['-'] + digits((-value) as nat)
    } else {
        digits(value as nat)
    }
}

/// `true` or `false`, as a text.
pub open spec fn bool_word(value: bool) -> Seq<char> {
    if value {
        "true"@
    } else {
        "false"@
    }
}

/// Compares two texts, character by character.
pub fn same_text(left: &str, right: &str) -> (same: bool)
    ensures
        same == (left@ == right@),
{
    left.to_owned() == right.to_owned()
}

fn digit_text(d: u64) -> (text: &'static str)
    requires
        d < 10,
    ensures
        text@ == seq![digit(d as nat)],
{
    proof {
        reveal_strlit("0");
        reveal_strlit("1");
        reveal_strlit("2");
        reveal_strlit("3");
        reveal_strlit("4");
        reveal_strlit("5");
        reveal_strlit("6");
        reveal_strlit("7");
        reveal_strlit("8");
        reveal_strlit("9");
    }
    match d {
        0 => "0",
        1 => "1",
        2 => "2",
        3 => "3",
        4 => "4",
        5 => "5",
        6 => "6",
        7 => "7",
        8 => "8",
        _ => "9",
    }
}

fn append_digits(text: &mut String, n: u64)
    ensures
        final(text)@ == old(text)@ + digits(n as nat),
    decreases n,
{
    if n >= 10 {
        append_digits(text, n / 10);
    }
    text.append(digit_text(n % 10));
}

/// The decimal notation of an integer.
pub fn decimal_text(value: i64) -> (text: String)
    ensures
        text@ == decimal(value as int),
{
    let mut text = String::new();
    if value < 0 {
        proof {
            reveal_strlit("-");
        }
        text.append("-");
        let magnitude: u64 = (-(value as i128)) as u64;
        append_digits(&mut text, magnitude);
    } else {
        append_digits(&mut text, value as u64);
    }
    text
}

/// The word for a truth value.
pub fn bool_text(value: bool) -> (text: String)
    ensures
        text@ == bool_word(value),
{
    if value {
        "true".to_owned()
    } else {
        "false".to_owned()
    }
}

/// What `{:?}` prints for a text: the text in double quotes, with what needs it escaped.
pub uninterp spec fn quoted(text: Seq<char>) -> Seq<char>;

/// Calls the `Debug` formatting of `str`. The contract claims only that its output is determined
/// by the text; how characters are escaped is left to the standard library.
#[verifier::external_body]
pub(crate) fn quote(text: &str) -> (output: String)
    ensures
        output@ == quoted(text@),
{
    format!("{text:?}")
}

/// The texts behind a slice of string slices.
pub open spec fn texts(items: Seq<&str>) -> Seq<Seq<char>> {
    items.map_values(|item: &str| item@)
}

/// The quoted texts, separated by a comma and a space.
pub open spec fn quoted_items(items: Seq<Seq<char>>) -> Seq<char>
    decreases items.len(),
{
    if items.len() == 0 {
        Seq::empty()
    } else if items.len() == 1 {
        quoted(items[0])
    } else {
        quoted_items(items.drop_last()) + ", "@ + quoted(items.last())
    }
}

/// The quoted texts as a list in square brackets.
pub open spec fn quoted_list(items: Seq<Seq<char>>) -> Seq<char> {
    "["@ + quoted_items(items) + "]"@
}

/// Writes a list of texts in the form of a debug print.
pub fn quote_list(items: &[&str]) -> (output: String)
    ensures
        output@ == quoted_list(texts(items@)),
{
    let mut output = "[".to_owned();
    let ghost all = texts(items@);
    let mut i: usize = 0;
    while i < items.len()
        invariant
            i <= items@.len(),
            all == texts(items@),
            output@ == "["@ + quoted_items(all.take(i as int)),
        decreases items@.len() - i,
    {
        if i > 0 {
            output.append(", ");
        }
        let item = quote(items[i]);
        output.append(item.as_str());
        proof {
            assert(all.take(i as int + 1).drop_last() =~= all.take(i as int));
            assert(all.take(i as int + 1).last() == items@[i as int]@);
            if i == 0 {
                assert(quoted_items(all.take(0)) =~= Seq::empty());
                assert(output@ =~= "["@ + quoted_items(all.take(1)));
            } else {
                assert(output@ =~= "["@ + quoted_items(all.take(i as int + 1)));
            }
        }
        i += 1;
    }
    proof {
        assert(all.take(i as int) =~= all);
    }
    output.append("]");
    output
}

} // verus!
