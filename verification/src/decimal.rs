//! Decimal text of unsigned integers: writing it and reading it back.

use vstd::prelude::*;
use crate::buffer::{bytes32, bytes32_as_slice, bytes32_new, bytes32_push, text32, text32_new, text32_push, utf8_len};

verus! {

/// The character of the digit `d`.
pub open spec fn digit_char(d: nat) -> char
    recommends
        d < 10,
{
    (d + 48) as char
}

/// Whether `c` is one of `'0'` to `'9'`.
pub open spec fn is_digit(c: char) -> bool {
    48 <= c as u32 <= 57
}

/// The digit that `c` stands for.
pub open spec fn digit_value(c: char) -> nat
    recommends
        is_digit(c),
{
    (c as u32 - 48) as nat
}

/// The shortest decimal text of `n`: no leading zero, and `"0"` for zero.
pub open spec fn decimal(n: nat) -> Seq<char>
    decreases n,
{
    if n < 10 {
        seq![digit_char(n)]
    } else {
        decimal(n / 10).push(digit_char(n % 10))
    }
}

/// Whether `text` holds decimal digits and nothing else.
pub open spec fn all_digits(text: Seq<char>) -> bool {
    forall|i: int| 0 <= i < text.len() ==> is_digit(#[trigger] text[i])
}

/// The number that a text of decimal digits stands for; the empty text
/// stands for zero.
pub open spec fn digits_value(text: Seq<char>) -> nat
    decreases text.len(),
{
    if text.len() == 0 {
        0
    } else {
        10 * digits_value(text.drop_last()) + digit_value(text.last())
    }
}

/// What reading `text` as a decimal `u32` gives.
pub open spec fn parsed(text: Seq<char>) -> Result<u32, ()> {
    if all_digits(text) && digits_value(text) <= u32::MAX {
        Ok(digits_value(text) as u32)
    } else {
        Err(())
    }
}

/// The characters of `bytes`, last byte first.
pub open spec fn reversed_chars(bytes: Seq<u8>) -> Seq<char> {
    Seq::new(bytes.len(), |i: int| bytes[bytes.len() - 1 - i] as char)
}

/// A decimal text has at least one character and holds digits only.
pub proof fn lemma_decimal_digits(n: nat)
    ensures
        decimal(n).len() >= 1,
        all_digits(decimal(n)),
    decreases n,
{
    if n >= 10 {
        lemma_decimal_digits(n / 10);
    }
}

/// The decimal text of a nonzero number does not start with `'0'`.
pub proof fn lemma_decimal_no_leading_zero(n: nat)
    requires
        n > 0,
    ensures
        decimal(n)[0] != '0',
    decreases n,
{
    if n >= 10 {
        lemma_decimal_digits(n / 10);
        lemma_decimal_no_leading_zero(n / 10);
    }
}

/// Reading a decimal text gives back the number it was written from.
pub proof fn lemma_decimal_value(n: nat)
    ensures
        digits_value(decimal(n)) == n,
    decreases n,
{
    if n < 10 {
        assert(digits_value(decimal(n).drop_last()) == 0);
    } else {
        lemma_decimal_value(n / 10);
        assert(decimal(n).drop_last() =~= decimal(n / 10));
    }
}

/// Writing a `u32` in decimal and reading the text back gives the same
/// number, and the text of a nonzero number has no leading zero.
pub proof fn lemma_format_parse_round_trip(n: u32)
    ensures
        parsed(decimal(n as nat)) == Ok::<u32, ()>(n),
        n > 0 ==> decimal(n as nat)[0] != '0',
{
    lemma_decimal_digits(n as nat);
    lemma_decimal_value(n as nat);
    if n > 0 {
        lemma_decimal_no_leading_zero(n as nat);
    }
}

proof fn lemma_decimal_len_step(n: nat, k: nat)
    requires
        decimal(n / 10).len() <= k,
        k >= 1,
    ensures
        decimal(n).len() <= k + 1,
{
}

/// A `u32` has at most ten decimal digits.
pub proof fn lemma_decimal_len(n: nat)
    requires
        n <= u32::MAX,
    ensures
        1 <= decimal(n).len() <= 10,
{
    lemma_decimal_digits(n);
    let n1 = n / 10;
    let n2 = n1 / 10;
    let n3 = n2 / 10;
    let n4 = n3 / 10;
    let n5 = n4 / 10;
    let n6 = n5 / 10;
    let n7 = n6 / 10;
    let n8 = n7 / 10;
    lemma_decimal_len_step(n8, 1);
    lemma_decimal_len_step(n7, 2);
    lemma_decimal_len_step(n6, 3);
    lemma_decimal_len_step(n5, 4);
    lemma_decimal_len_step(n4, 5);
    lemma_decimal_len_step(n3, 6);
    lemma_decimal_len_step(n2, 7);
    lemma_decimal_len_step(n1, 8);
    lemma_decimal_len_step(n, 9);
}

/// Text made of one-byte characters takes as many bytes as it has characters.
pub proof fn lemma_utf8_len_of_digits(text: Seq<char>)
    requires
        all_digits(text),
    ensures
        utf8_len(text) == text.len(),
    decreases text.len(),
{
    if text.len() > 0 {
        lemma_utf8_len_of_digits(text.drop_last());
    }
}

/// Writes `value` in decimal: the digits are taken from the least significant
/// end and then emitted in reverse.
pub fn format_u32(value: u32) -> (result: heapless::String<32>)
    ensures
        text32(result) == decimal(value as nat),
{
    let mut result = text32_new();
    if value == 0 {
        let _ = text32_push(&mut result, '0');
        return result;
    }
    let mut val: u32 = value;
    let mut digits = bytes32_new();
    while val > 0
        invariant
            value > 0,
            val > 0 ==> decimal(value as nat) =~= decimal(val as nat) + reversed_chars(bytes32(digits)),
            val == 0 ==> decimal(value as nat) =~= reversed_chars(bytes32(digits)),
            forall|i: int| 0 <= i < bytes32(digits).len() ==> 48 <= #[trigger] bytes32(digits)[i] <= 57,
        decreases val,
    {
        let digit: u8 = ((val % 10) as u8) + 48;
        proof {
            lemma_decimal_len(value as nat);
            lemma_decimal_digits(val as nat);
            if val >= 10 {
                lemma_decimal_digits((val / 10) as nat);
            }
        }
        let _ = bytes32_push(&mut digits, digit);
        val = val / 10;
    }
    let bytes = bytes32_as_slice(&digits);
    let mut left: usize = bytes.len();
    proof {
        lemma_decimal_len(value as nat);
    }
    while left > 0
        invariant
            left <= bytes@.len() <= 10,
            bytes@ == bytes32(digits),
            decimal(value as nat) =~= reversed_chars(bytes@),
            forall|i: int| 0 <= i < bytes@.len() ==> 48 <= #[trigger] bytes@[i] <= 57,
            text32(result) =~= reversed_chars(bytes@).take(bytes@.len() - left),
        decreases left,
    {
        left = left - 1;
        let c: char = bytes[left] as char;
        proof {
            lemma_decimal_digits(value as nat);
            lemma_utf8_len_of_digits(text32(result));
        }
        let _ = text32_push(&mut result, c);
    }
    result
}

/// Reads `s` as a decimal `u32`. Every character has to be a digit and the
/// number has to fit; the empty text reads as zero.
pub fn parse_u32(s: &str) -> (result: Result<u32, ()>)
    ensures
        result == parsed(s@),
{
    let len = s.unicode_len();
    let mut value: u32 = 0;
    let mut i: usize = 0;
    while i < len
        invariant
            i <= len == s@.len(),
            all_digits(s@.take(i as int)),
            value == digits_value(s@.take(i as int)),
        decreases len - i,
    {
        let ch = s.get_char(i);
        let code: u32 = ch as u32;
        proof {
            assert(s@.take(i + 1).drop_last() =~= s@.take(i as int));
        }
        if code < 48 || code > 57 {
            return Err(());
        }
        let digit: u32 = code - 48;
        let scaled = match value.checked_mul(10) {
            Some(v) => v,
            None => {
                proof {
                    lemma_digits_value_grows(s@, i + 1);
                }
                return Err(());
            },
        };
        value = match scaled.checked_add(digit) {
            Some(v) => v,
            None => {
                proof {
                    lemma_digits_value_grows(s@, i + 1);
                }
                return Err(());
            },
        };
        i = i + 1;
    }
    proof {
        assert(s@.take(len as int) =~= s@);
    }
    Ok(value)
}

/// A text stands for at least as much as each of its beginnings.
pub proof fn lemma_digits_value_grows(text: Seq<char>, k: int)
    requires
        0 <= k <= text.len(),
    ensures
        digits_value(text.take(k)) <= digits_value(text),
    decreases text.len() - k,
{
    if k < text.len() {
        lemma_digits_value_grows(text, k + 1);
        assert(text.take(k + 1).drop_last() =~= text.take(k));
    } else {
        assert(text.take(k) =~= text);
    }
}

} // verus!
