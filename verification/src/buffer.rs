//! Fixed-capacity buffers from `heapless`, and what the rest of the library
//! relies on when it fills and reads them.
//!
//! Nothing in this file is proved: each function below hands its arguments to
//! one `heapless` method, and its contract restates what that method does.

use vstd::prelude::*;

verus! {

/// `heapless::String`: text in a buffer of `N` bytes.
#[verifier::external_type_specification]
#[verifier::external_body]
pub struct HeaplessString<const N: usize>(heapless::String<N>);

/// `heapless::Vec`: up to `N` items stored in place.
#[verifier::external_type_specification]
#[verifier::external_body]
#[verifier::reject_recursive_types(T)]
pub struct HeaplessVec<T, const N: usize>(heapless::Vec<T, N>);

/// Number of bytes that `c` takes in UTF-8.
pub open spec fn utf8_width(c: char) -> nat {
    if (c as u32) < 0x80 {
        1
    } else if (c as u32) < 0x800 {
        2
    } else if (c as u32) < 0x1_0000 {
        3
    } else {
        4
    }
}

/// Number of bytes that `text` takes in UTF-8.
pub open spec fn utf8_len(text: Seq<char>) -> nat
    decreases text.len(),
{
    if text.len() == 0 {
        0
    } else {
        utf8_len(text.drop_last()) + utf8_width(text.last())
    }
}

/// `text` with `c` appended if the result still fits in `capacity` bytes,
/// and `text` itself if it does not.
pub open spec fn push_within(text: Seq<char>, c: char, capacity: nat) -> Seq<char> {
    if utf8_len(text) + utf8_width(c) <= capacity {
        text.push(c)
    } else {
        text
    }
}

/// The characters held by a 32-byte string.
pub uninterp spec fn text32(s: heapless::String<32>) -> Seq<char>;

/// The characters held by a 64-byte string.
pub uninterp spec fn text64(s: heapless::String<64>) -> Seq<char>;

/// The bytes held by a 32-byte vector, oldest first.
pub uninterp spec fn bytes32(v: heapless::Vec<u8, 32>) -> Seq<u8>;

/// `heapless::String::new`: the new string holds nothing.
#[verifier::external_body]
pub(crate) fn text32_new() -> (s: heapless::String<32>)
    ensures
        text32(s) == Seq::<char>::empty(),
{
    heapless::String::new()
}

/// `heapless::String::push`: the character is appended when its UTF-8 bytes
/// fit in what is left of the 32 bytes; otherwise the string stays as it was
/// and the call reports failure.
#[verifier::external_body]
pub(crate) fn text32_push(s: &mut heapless::String<32>, c: char) -> (r: Result<(), ()>)
    ensures
        r is Ok <==> utf8_len(text32(*old(s))) + utf8_width(c) <= 32,
        text32(*final(s)) == push_within(text32(*old(s)), c, 32),
{
    s.push(c)
}

/// `heapless::String::as_str`: the slice holds the string's characters.
#[verifier::external_body]
pub(crate) fn text32_as_str(s: &heapless::String<32>) -> (r: &str)
    ensures
        r@ == text32(*s),
{
    s.as_str()
}

/// `heapless::String::new`: the new string holds nothing.
#[verifier::external_body]
pub(crate) fn text64_new() -> (s: heapless::String<64>)
    ensures
        text64(s) == Seq::<char>::empty(),
{
    heapless::String::new()
}

/// `heapless::String::push`: the character is appended when its UTF-8 bytes
/// fit in what is left of the 64 bytes; otherwise the string stays as it was
/// and the call reports failure.
#[verifier::external_body]
pub(crate) fn text64_push(s: &mut heapless::String<64>, c: char) -> (r: Result<(), ()>)
    ensures
        r is Ok <==> utf8_len(text64(*old(s))) + utf8_width(c) <= 64,
        text64(*final(s)) == push_within(text64(*old(s)), c, 64),
{
    s.push(c)
}

/// `heapless::Vec::new`: the new vector holds nothing.
#[verifier::external_body]
pub(crate) fn bytes32_new() -> (v: heapless::Vec<u8, 32>)
    ensures
        bytes32(v) == Seq::<u8>::empty(),
{
    heapless::Vec::new()
}

/// `heapless::Vec::push`: the byte is appended while fewer than 32 are held;
/// a full vector stays as it was and hands the byte back.
#[verifier::external_body]
pub(crate) fn bytes32_push(v: &mut heapless::Vec<u8, 32>, byte: u8) -> (r: Result<(), u8>)
    ensures
        r is Ok <==> bytes32(*old(v)).len() < 32,
        r is Err ==> r->Err_0 == byte,
        bytes32(*final(v)) == if bytes32(*old(v)).len() < 32 {
            bytes32(*old(v)).push(byte)
        } else {
            bytes32(*old(v))
        },
{
    v.push(byte)
}

/// `heapless::Vec::as_slice`: the slice holds the vector's bytes in order.
#[verifier::external_body]
pub(crate) fn bytes32_as_slice(v: &heapless::Vec<u8, 32>) -> (r: &[u8])
    ensures
        r@ == bytes32(*v),
{
    v.as_slice()
}

} // verus!
