//! Text with a number put in for each `{}` of a template.

use vstd::prelude::*;
use crate::buffer::{push_within, text32_as_str, text64, text64_new, text64_push, utf8_len};
use crate::decimal::{decimal, format_u32};

verus! {

/// `template` with `value` in place of each `{}`. A `{` that another
/// character follows stays, and takes that character with it unread; a `{`
/// at the very end stays too.
pub open spec fn expanded(template: Seq<char>, value: Seq<char>) -> Seq<char>
    decreases template.len(),
{
    if template.len() == 0 {
        Seq::empty()
    } else if template[0] != '{' {
        seq![template[0]] + expanded(template.skip(1), value)
    } else if template.len() == 1 {
        seq!['{']
    } else if template[1] == '}' {
        value + expanded(template.skip(2), value)
    } else {
        seq!['{', template[1]] + expanded(template.skip(2), value)
    }
}

/// What a buffer of `capacity` bytes holds after the characters of `text`
/// were offered to it one by one: each is taken if it still fits, and dropped
/// if it does not.
pub open spec fn filled(text: Seq<char>, capacity: nat) -> Seq<char>
    decreases text.len(),
{
    if text.len() == 0 {
        Seq::empty()
    } else {
        push_within(filled(text.drop_last(), capacity), text.last(), capacity)
    }
}

/// A text that fits in the buffer is taken whole.
pub proof fn lemma_filled_whole(text: Seq<char>, capacity: nat)
    requires
        utf8_len(text) <= capacity,
    ensures
        filled(text, capacity) == text,
    decreases text.len(),
{
    if text.len() > 0 {
        lemma_filled_whole(text.drop_last(), capacity);
    }
}

/// The buffer never holds more than its capacity.
pub proof fn lemma_filled_fits(text: Seq<char>, capacity: nat)
    ensures
        utf8_len(filled(text, capacity)) <= capacity,
    decreases text.len(),
{
    if text.len() > 0 {
        lemma_filled_fits(text.drop_last(), capacity);
        let before = filled(text.drop_last(), capacity);
        assert(before.push(text.last()).drop_last() =~= before);
    }
}

proof fn lemma_filled_push(done: Seq<char>, c: char, capacity: nat)
    ensures
        filled(done.push(c), capacity) == push_within(filled(done, capacity), c, capacity),
{
    assert(done.push(c).drop_last() =~= done);
}

/// Writes `template` into a buffer of 64 bytes with the decimal text of
/// `value` in place of each `{}`. What does not fit is dropped.
pub fn format(template: &str, value: u32) -> (result: heapless::String<64>)
    ensures
        text64(result) == filled(expanded(template@, decimal(value as nat)), 64),
{
    let mut result = text64_new();
    let number = format_u32(value);
    let digits = text32_as_str(&number);
    let digits_len = digits.unicode_len();
    let len = template.unicode_len();
    let ghost whole = expanded(template@, digits@);
    let ghost mut done: Seq<char> = Seq::empty();
    let mut i: usize = 0;
    proof {
        assert(template@.skip(0) =~= template@);
    }
    while i < len
        invariant
            i <= len == template@.len(),
            digits_len == digits@.len(),
            digits@ == decimal(value as nat),
            whole == expanded(template@, digits@),
            whole == done + expanded(template@.skip(i as int), digits@),
            text64(result) == filled(done, 64),
        decreases len - i,
    {
        let ghost rest = template@.skip(i as int);
        let ch = template.get_char(i);
        proof {
            assert(rest.skip(1) =~= template@.skip(i + 1));
        }
        if ch != '{' {
            proof {
                lemma_filled_push(done, ch, 64);
                assert(done.push(ch) + expanded(rest.skip(1), digits@) =~= done + expanded(
                    rest,
                    digits@,
                ));
                done = done.push(ch);
            }
            let _ = text64_push(&mut result, ch);
            i = i + 1;
        } else if i + 1 == len {
            proof {
                lemma_filled_push(done, ch, 64);
                assert(done.push(ch) + expanded(rest.skip(1), digits@) =~= done + expanded(
                    rest,
                    digits@,
                ));
                done = done.push(ch);
            }
            let _ = text64_push(&mut result, ch);
            i = i + 1;
        } else {
            let next = template.get_char(i + 1);
            proof {
                assert(rest.skip(2) =~= template@.skip(i + 2));
            }
            if next == '}' {
                let ghost before = done;
                let mut k: usize = 0;
                while k < digits_len
                    invariant
                        k <= digits_len == digits@.len(),
                        done == before + digits@.take(k as int),
                        text64(result) == filled(done, 64),
                    decreases digits_len - k,
                {
                    let digit = digits.get_char(k);
                    proof {
                        lemma_filled_push(done, digit, 64);
                        done = done.push(digit);
                    }
                    let _ = text64_push(&mut result, digit);
                    k = k + 1;
                }
                proof {
                    assert(done + expanded(rest.skip(2), digits@) =~= before + expanded(
                        rest,
                        digits@,
                    ));
                }
            } else {
                proof {
                    lemma_filled_push(done, ch, 64);
                    lemma_filled_push(done.push(ch), next, 64);
                    assert(done.push(ch).push(next) + expanded(rest.skip(2), digits@) =~= done
                        + expanded(rest, digits@));
                    done = done.push(ch).push(next);
                }
                let _ = text64_push(&mut result, ch);
                let _ = text64_push(&mut result, next);
            }
            i = i + 2;
        }
    }
    result
}

} // verus!
