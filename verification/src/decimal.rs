//! Identifiers as decimal text: writing them into element ids and request
//! paths, and reading them back from a path segment.

use vstd::prelude::*;
use vstd::string::StringExecFns;

verus! {

/// The one-character text of a decimal digit.
pub open spec fn digit_text(d: nat) -> Seq<char> {
    if d == 0 {
        "0"@
    } else if d == 1 {
        "1"@
    } else if d == 2 {
        "2"@
    } else if d == 3 {
        "3"@
    } else if d == 4 {
        "4"@
    } else if d == 5 {
        "5"@
    } else if d == 6 {
        "6"@
    } else if d == 7 {
        "7"@
    } else if d == 8 {
        "8"@
    } else {
        "9"@
    }
}

/// The decimal text of `n`: most significant digit first, no sign, no leading
/// zeros, and `"0"` for zero.
pub open spec fn decimal_text(n: nat) -> Seq<char>
    decreases n,
{
    if n < 10 {
        digit_text(n)
    } else {
        decimal_text(n / 10) + digit_text(n % 10)
    }
}

fn digit_str(d: u8) -> (s: &'static str)
    requires
        d < 10,
    ensures
        s@ == digit_text(d as nat),
{
    match d {
        0 => "0",
        1 => "1",
        2 => "2",
        3 => "3",
        4 => "4",
        5 => "5",
        6 => "6",
        7 => "7",
        8 => "8",
        _ => "9",
    }
}

/// Appends the decimal text of `n` to `out`.
pub fn push_decimal(out: &mut String, n: u128)
    ensures
        final(out)@ == old(out)@ + decimal_text(n as nat),
    decreases n,
{
    if n >= 10 {
        push_decimal(out, n / 10);
    }
    let d: u8 = (n % 10) as u8;
    out.append(digit_str(d));
}

/// Whether `c` is one of the ten decimal digits.
pub open spec fn is_digit(c: char) -> bool {
    '0' <= c <= '9'
}

/// The number that a decimal digit stands for.
pub open spec fn digit_value(c: char) -> nat {
    (c as u32 - '0' as u32) as nat
}

/// Whether every character of `s` is a decimal digit.
pub open spec fn all_digits(s: Seq<char>) -> bool {
    forall|i: int| 0 <= i < s.len() ==> is_digit(#[trigger] s[i])
}

/// The number that a sequence of decimal digits stands for, most significant
/// digit first. Leading zeros do not count.
pub open spec fn digits_value(s: Seq<char>) -> nat
    decreases s.len(),
{
    if s.len() == 0 {
        0
    } else {
        10 * digits_value(s.drop_last()) + digit_value(s.last())
    }
}

/// The text without one leading `+`, if it has one.
pub open spec fn unsigned_part(s: Seq<char>) -> Seq<char> {
    if s.len() > 0 && s[0] == '+' {
        s.drop_first()
    } else {
        s
    }
}

/// The identifier that a path segment denotes, if any: an optional `+`, then
/// one or more decimal digits whose value fits in 128 bits. Anything else,
/// including the empty text, a lone sign, spaces and other characters, denotes
/// no identifier.
pub open spec fn parsed_id(s: Seq<char>) -> Option<u128> {
    let digits = unsigned_part(s);
    if digits.len() > 0 && all_digits(digits) && digits_value(digits) <= u128::MAX {
        Some(digits_value(digits) as u128)
    } else {
        None
    }
}

/// A sequence of digits is worth at least as much as any of its prefixes.
pub proof fn lemma_digits_value_prefix(s: Seq<char>, k: int)
    requires
        0 <= k <= s.len(),
    ensures
        digits_value(s.take(k)) <= digits_value(s),
    decreases s.len(),
{
    if k == s.len() {
        assert(s.take(k) =~= s);
    } else {
        lemma_digits_value_prefix(s.drop_last(), k);
        assert(s.drop_last().take(k) =~= s.take(k));
    }
}

fn digit_of(c: char) -> (d: Option<u8>)
    ensures
        d == (if is_digit(c) {
            Some(digit_value(c) as u8)
        } else {
            None
        }),
{
    let code: u32 = c as u32;
    if 48 <= code && code <= 57 {
        Some((code - 48) as u8)
    } else {
        None
    }
}

/// Reads an identifier from a path segment.
pub fn parse_id(text: &str) -> (id: Option<u128>)
    ensures
        id == parsed_id(text@),
{
    let mut value: u128 = 0;
    let mut at_start: bool = true;
    let mut signed: bool = false;
    let mut any_digit: bool = false;
    for c in it: text.chars()
        invariant
            it.seq() == text@,
            at_start == (it.index() == 0),
            signed == (it.index() > 0 && text@[0] == '+'),
            any_digit == (it.index() > (if signed { 1int } else { 0int })),
            all_digits(text@.subrange(if signed { 1int } else { 0int }, it.index())),
            value == digits_value(text@.subrange(if signed { 1int } else { 0int }, it.index())),
    {
        let ghost i = it.index();
        let ghost from = if signed { 1int } else { 0int };
        let ghost read = text@.subrange(from, i);
        if at_start && c == '+' {
            signed = true;
        } else {
            let ghost digits = unsigned_part(text@);
            let ghost next = text@.subrange(from, i + 1);
            assert(next.drop_last() =~= read);
            assert(next =~= digits.take(i + 1 - from));
            match digit_of(c) {
                None => {
                    return None;
                },
                Some(d) => {
                    proof {
                        lemma_digits_value_prefix(digits, i + 1 - from);
                    }
                    match value.checked_mul(10) {
                        None => {
                            return None;
                        },
                        Some(tens) => match tens.checked_add(d as u128) {
                            None => {
                                return None;
                            },
                            Some(sum) => {
                                value = sum;
                                any_digit = true;
                            },
                        },
                    }
                },
            }
        }
        at_start = false;
    }
    let ghost from = if signed { 1int } else { 0int };
    assert(unsigned_part(text@) =~= text@.subrange(from, text@.len() as int));
    if any_digit {
        Some(value)
    } else {
        None
    }
}

/// What the ten digit texts hold: one digit each, worth what it names.
pub proof fn lemma_digit_text(d: nat)
    requires
        d < 10,
    ensures
        digit_text(d).len() == 1,
        is_digit(digit_text(d)[0]),
        digit_value(digit_text(d)[0]) == d,
{
    reveal_strlit("0");
    reveal_strlit("1");
    reveal_strlit("2");
    reveal_strlit("3");
    reveal_strlit("4");
    reveal_strlit("5");
    reveal_strlit("6");
    reveal_strlit("7");
    reveal_strlit("8");
    reveal_strlit("9");
}

/// The decimal text of a number is made of digits only, is not empty, and is
/// worth that number.
pub proof fn lemma_decimal_text_value(n: nat)
    ensures
        decimal_text(n).len() > 0,
        all_digits(decimal_text(n)),
        digits_value(decimal_text(n)) == n,
    decreases n,
{
    lemma_digit_text(n % 10);
    let text = decimal_text(n);
    if n >= 10 {
        lemma_decimal_text_value(n / 10);
        assert(text.drop_last() =~= decimal_text(n / 10));
    }
    assert(digits_value(text) == 10 * digits_value(text.drop_last()) + digit_value(text.last()));
}

/// Reading back the decimal text of an identifier gives that identifier: the
/// path in an item's fragment addresses the item it was rendered from.
pub proof fn lemma_parse_decimal_roundtrip(n: u128)
    ensures
        parsed_id(decimal_text(n as nat)) == Some(n),
{
    lemma_decimal_text_value(n as nat);
}

} // verus!
