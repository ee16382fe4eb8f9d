//! Numbers as decimal text, written and read.

use vstd::prelude::*;
use vstd::string::*;

verus! {

/// The ten digits in their order.
pub open spec fn digits() -> Seq<char> {
    "0123456789"@
}

/// A number written in decimal digits, without leading zeros.
pub open spec fn decimal(value: nat) -> Seq<char>
    decreases value,
{
    if value < 10 {
        seq![digits()[value as int]]
    } else {
        decimal(value / 10).push(digits()[(value % 10) as int])
    }
}

/// Whether a character is one of the ten digits.
pub open spec fn is_digit(c: char) -> bool {
    '0' <= c <= '9'
}

/// The number a digit stands for.
pub open spec fn digit_value(c: char) -> nat {
    if is_digit(c) {
        (c as int - '0' as int) as nat
    } else {
        0
    }
}

/// The number that a text of digits stands for.
pub open spec fn digits_value(text: Seq<char>) -> nat
    decreases text.len(),
{
    if text.len() == 0 {
        0
    } else {
        digits_value(text.drop_last()) * 10 + digit_value(text.last())
    }
}

/// The number a text stands for: the text is one or more digits, which a
/// single `+` may precede, and the number fits in 64 bits. Any other text
/// stands for no number.
pub open spec fn parsed_number(text: Seq<char>) -> Option<u64> {
    let unsigned = without_sign(text);
    if unsigned.len() > 0 && all_digits(unsigned) && digits_value(unsigned) <= u64::MAX {
        Some(digits_value(unsigned) as u64)
    } else {
        None
    }
}

/// A text without the `+` it may begin with.
pub open spec fn without_sign(text: Seq<char>) -> Seq<char> {
    if text.len() > 0 && text[0] == '+' {
        text.skip(1)
    } else {
        text
    }
}

/// Whether every character of a text is a digit.
pub open spec fn all_digits(text: Seq<char>) -> bool {
    forall|i: int| 0 <= i < text.len() ==> is_digit(#[trigger] text[i])
}

/// Writes a number in decimal digits.
pub fn decimal_text(value: usize) -> (text: String)
    ensures
        text@ == decimal(value as nat),
    decreases value,
{
    let digits = "0123456789";
    proof {
        reveal_strlit("0123456789");
    }
    if value < 10 {
        let text = digits.substring_char(value, value + 1).to_owned();
        assert(text@ =~= decimal(value as nat));
        text
    } else {
        let mut text = decimal_text(value / 10);
        text.append(digits.substring_char(value % 10, value % 10 + 1));
        assert(text@ =~= decimal(value as nat));
        text
    }
}

/// Reads a number from its decimal text.
pub fn parse_number(text: &str) -> (number: Option<u64>)
    ensures
        number == parsed_number(text@),
{
    let length = text.unicode_len();
    let start: usize = if length > 0 && text.get_char(0) == '+' {
        1
    } else {
        0
    };
    let ghost unsigned = without_sign(text@);
    if start == length {
        return None;
    }
    let mut value: u64 = 0;
    let mut index: usize = start;
    while index < length
        invariant
            start <= index <= length,
            length == text@.len(),
            unsigned == without_sign(text@),
            unsigned == text@.skip(start as int),
            all_digits(unsigned.take(index - start)),
            value == digits_value(unsigned.take(index - start)),
        decreases length - index,
    {
        let c = text.get_char(index);
        let ghost seen = unsigned.take(index - start + 1);
        proof {
            assert(seen.drop_last() =~= unsigned.take(index - start));
            assert(seen.last() == c);
            assert(digits_value(seen) == digits_value(seen.drop_last()) * 10 + digit_value(c));
            lemma_digits_value_of_prefix(unsigned, index - start + 1);
        }
        if c < '0' || c > '9' {
            assert(!is_digit(unsigned[index - start]));
            return None;
        }
        assert(all_digits(seen)) by {
            assert forall|i: int| 0 <= i < seen.len() implies is_digit(#[trigger] seen[i]) by {
                if i < seen.len() - 1 {
                    assert(seen[i] == seen.drop_last()[i]);
                }
            }
        }
        let digit = (c as u64) - ('0' as u64);
        let shifted = match value.checked_mul(10) {
            Some(shifted) => shifted,
            None => return None,
        };
        value = match shifted.checked_add(digit) {
            Some(sum) => sum,
            None => return None,
        };
        index += 1;
    }
    proof {
        assert(unsigned.take(index - start) =~= unsigned);
    }
    Some(value)
}

/// The number of a text of digits is at least the number of each of its
/// beginnings.
proof fn lemma_digits_value_of_prefix(text: Seq<char>, length: int)
    requires
        0 <= length <= text.len(),
    ensures
        digits_value(text.take(length)) <= digits_value(text),
    decreases text.len(),
{
    if length == text.len() {
        assert(text.take(length) =~= text);
    } else {
        assert(text.drop_last().take(length) =~= text.take(length));
        lemma_digits_value_of_prefix(text.drop_last(), length);
    }
}

/// The decimal text of a number is made of digits only and stands for that
/// number.
pub proof fn lemma_decimal_is_digits(value: nat)
    ensures
        decimal(value).len() > 0,
        all_digits(decimal(value)),
        digits_value(decimal(value)) == value,
    decreases value,
{
    reveal_strlit("0123456789");
    let text = decimal(value);
    if value < 10 {
        assert(text.drop_last() =~= Seq::<char>::empty());
        assert(digits_value(text) == digits_value(text.drop_last()) * 10 + digit_value(
            text.last(),
        ));
    } else {
        lemma_decimal_is_digits(value / 10);
        assert(text.drop_last() =~= decimal(value / 10));
        assert(digits_value(text) == digits_value(text.drop_last()) * 10 + digit_value(
            text.last(),
        ));
        assert forall|i: int| 0 <= i < text.len() implies is_digit(#[trigger] text[i]) by {
            if i < text.len() - 1 {
                assert(text[i] == decimal(value / 10)[i]);
            }
        }
    }
}

/// Reading what was written gives the number back: every number that fits
/// in 64 bits is the number of its own decimal text.
pub proof fn lemma_parse_of_decimal(value: u64)
    ensures
        parsed_number(decimal(value as nat)) == Some(value),
{
    lemma_decimal_is_digits(value as nat);
    let text = decimal(value as nat);
    assert(is_digit(text[0]));
    assert(without_sign(text) == text);
}

} // verus!
