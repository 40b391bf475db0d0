//! Decimal numerals and line-ending trimming on character sequences.

use vstd::prelude::*;

verus! {

/// The character that writes the digit `d`.
pub open spec fn digit_char(d: nat) -> char
    recommends
        d < 10,
{
    if d == 0 {
        '0'
    } else if d == 1 {
        '1'
    } else if d == 2 {
        '2'
    } else if d == 3 {
        '3'
    } else if d == 4 {
        '4'
    } else if d == 5 {
        '5'
    } else if d == 6 {
        '6'
    } else if d == 7 {
        '7'
    } else if d == 8 {
        '8'
    } else {
        '9'
    }
}

/// The decimal numeral of `n`: most significant digit first, no leading
/// zero, and `"0"` for zero.
pub open spec fn decimal(n: nat) -> Seq<char>
    decreases n,
{
    if n < 10 {
        seq![digit_char(n)]
    } else {
        decimal(n / 10).push(digit_char(n % 10))
    }
}

/// Whether `c` is one of the ten digits.
pub open spec fn is_digit(c: char) -> bool {
    c == '0' || c == '1' || c == '2' || c == '3' || c == '4' || c == '5' || c == '6' || c == '7'
        || c == '8' || c == '9'
}

/// A numeral consists of digits.
pub proof fn lemma_decimal_digits(n: nat)
    ensures
        forall|i: int| 0 <= i < decimal(n).len() ==> is_digit(#[trigger] decimal(n)[i]),
    decreases n,
{
    if n >= 10 {
        lemma_decimal_digits(n / 10);
        assert forall|i: int| 0 <= i < decimal(n).len() implies is_digit(
            #[trigger] decimal(n)[i],
        ) by {
            // All but the last are the digits of `n / 10`.
            if i < decimal(n / 10).len() {
                assert(decimal(n)[i] == decimal(n / 10)[i]);
            }
        }
    }
}

/// The digit that `c` writes; zero for any other character.
pub open spec fn digit_value(c: char) -> nat {
    if c == '1' {
        1
    } else if c == '2' {
        2
    } else if c == '3' {
        3
    } else if c == '4' {
        4
    } else if c == '5' {
        5
    } else if c == '6' {
        6
    } else if c == '7' {
        7
    } else if c == '8' {
        8
    } else if c == '9' {
        9
    } else {
        0
    }
}

/// The number that a sequence of digits writes in base ten.
pub open spec fn numeral_value(digits: Seq<char>) -> nat
    decreases digits.len(),
{
    if digits.len() == 0 {
        0
    } else {
        numeral_value(digits.drop_last()) * 10 + digit_value(digits.last())
    }
}

/// The numeral of a number writes that number.
pub proof fn lemma_decimal_value(n: nat)
    ensures
        numeral_value(decimal(n)) == n,
    decreases n,
{
    if n < 10 {
        assert(numeral_value(decimal(n).drop_last()) == 0);
    } else {
        lemma_decimal_value(n / 10);
        assert(decimal(n).drop_last() =~= decimal(n / 10));
    }
}

/// A numeral from one on does not start with a zero.
pub proof fn lemma_decimal_no_leading_zero(n: nat)
    requires
        n > 0,
    ensures
        decimal(n).len() > 0,
        decimal(n)[0] != '0',
    decreases n,
{
    if n >= 10 {
        lemma_decimal_no_leading_zero(n / 10);
    }
}

/// Different numbers have different numerals.
pub proof fn lemma_decimal_injective(a: nat, b: nat)
    requires
        decimal(a) == decimal(b),
    ensures
        a == b,
{
    lemma_decimal_value(a);
    lemma_decimal_value(b);
}

/// Two numerals that stand between the same head and tails which start
/// with something other than a digit give the same text only if they write
/// the same number.
pub proof fn lemma_framed_numerals(
    head: Seq<char>,
    a: nat,
    tail_a: Seq<char>,
    b: nat,
    tail_b: Seq<char>,
)
    requires
        head + decimal(a) + tail_a == head + decimal(b) + tail_b,
        tail_a.len() > 0 && !is_digit(tail_a[0]),
        tail_b.len() > 0 && !is_digit(tail_b[0]),
    ensures
        a == b,
{
    let text_a = head + decimal(a) + tail_a;
    let text_b = head + decimal(b) + tail_b;
    let len_a = decimal(a).len() as int;
    let len_b = decimal(b).len() as int;
    let start = head.len() as int;
    lemma_decimal_digits(a);
    lemma_decimal_digits(b);
    if len_a < len_b {
        // Where the shorter numeral ends, the longer one still has a digit.
        assert(text_a[start + len_a] == tail_a[0]);
        assert(text_b[start + len_a] == decimal(b)[len_a]);
    } else if len_b < len_a {
        assert(text_b[start + len_b] == tail_b[0]);
        assert(text_a[start + len_b] == decimal(a)[len_b]);
    } else {
        assert(text_a.subrange(start, start + len_a) =~= decimal(a));
        assert(text_b.subrange(start, start + len_b) =~= decimal(b));
        lemma_decimal_injective(a, b);
    }
}

/// The one-character text of a single digit.
fn digit_str(d: u64) -> (s: &'static str)
    requires
        d < 10,
    ensures
        s@ == seq![digit_char(d as nat)],
{
    proof {
        reveal_strlit("0");
        reveal_strlit("1");
        reveal_strlit("2");
        reveal_strlit("3");
        reveal_strlit("4");
        reveal_strlit("5");
        reveal_strlit("6");
        reveal_strlit("7");
        reveal_strlit("8");
        reveal_strlit("9");
    }
    let s = if d == 0 {
        "0"
    } else if d == 1 {
        "1"
    } else if d == 2 {
        "2"
    } else if d == 3 {
        "3"
    } else if d == 4 {
        "4"
    } else if d == 5 {
        "5"
    } else if d == 6 {
        "6"
    } else if d == 7 {
        "7"
    } else if d == 8 {
        "8"
    } else {
        "9"
    };
    s
}

/// Writes `n` in decimal.
pub fn decimal_string(n: u64) -> (s: String)
    ensures
        s@ == decimal(n as nat),
    decreases n,
{
    if n < 10 {
        String::from_str(digit_str(n))
    } else {
        let mut s = decimal_string(n / 10);
        s.append(digit_str(n % 10));
        s
    }
}

/// Whether `c` ends a line: a carriage return or a line feed.
pub open spec fn is_line_ending(c: char) -> bool {
    c == '\r' || c == '\n'
}

/// `text` without the line endings at its end.
pub open spec fn spec_trim_line_endings(text: Seq<char>) -> Seq<char>
    decreases text.len(),
{
    if text.len() > 0 && is_line_ending(text.last()) {
        spec_trim_line_endings(text.drop_last())
    } else {
        text
    }
}

/// What trimming leaves is the longest prefix that does not end in a line
/// ending: it is a prefix, it ends in none, and all that follows it in `text`
/// are line endings.
pub proof fn lemma_trim_line_endings(text: Seq<char>)
    ensures
        spec_trim_line_endings(text).len() <= text.len(),
        spec_trim_line_endings(text) == text.take(spec_trim_line_endings(text).len() as int),
        spec_trim_line_endings(text).len() > 0 ==> !is_line_ending(
            spec_trim_line_endings(text).last(),
        ),
        forall|i: int|
            spec_trim_line_endings(text).len() <= i < text.len() ==> is_line_ending(
                #[trigger] text[i],
            ),
    decreases text.len(),
{
    if text.len() > 0 && is_line_ending(text.last()) {
        let shorter = text.drop_last();
        lemma_trim_line_endings(shorter);
        let kept = spec_trim_line_endings(shorter).len() as int;
        assert forall|i: int| kept <= i < text.len() implies is_line_ending(#[trigger] text[i]) by {
            if i < shorter.len() {
                assert(shorter[i] == text[i]);
            }
        }
    }
}

/// Removes the line endings at the end of `text`.
pub fn trim_line_endings(text: &str) -> (trimmed: String)
    ensures
        trimmed@ == spec_trim_line_endings(text@),
{
    let mut end = text.unicode_len();
    let mut scanning = true;
    assert(text@.take(end as int) =~= text@);
    while scanning && end > 0
        invariant
            end <= text@.len(),
            spec_trim_line_endings(text@) == spec_trim_line_endings(text@.take(end as int)),
            !scanning ==> end > 0 && !is_line_ending(text@[end - 1]),
        decreases end + if scanning { 1nat } else { 0nat },
    {
        let c = text.get_char(end - 1);
        if c == '\r' || c == '\n' {
            assert(text@.take(end as int).drop_last() =~= text@.take(end - 1));
            end -= 1;
        } else {
            scanning = false;
        }
    }
    String::from_str(text.substring_char(0, end))
}

/// Appends a copy of `text` to `list`.
pub fn push_text(list: &mut Vec<String>, text: &str)
    ensures
        final(list).deep_view() == old(list).deep_view().push(text@),
{
    list.push(String::from_str(text));
}

/// Appends `text` to `list`.
pub fn push_string(list: &mut Vec<String>, text: String)
    ensures
        final(list).deep_view() == old(list).deep_view().push(text@),
{
    list.push(text);
}

} // verus!
