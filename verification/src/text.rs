//! Text as bytes: UTF-8 strings read from and written to byte buffers.

use vstd::prelude::*;
use vstd::string::StrSliceExecFns;
use vstd::utf8::*;

verus! {

/// The error of `String::from_utf8`. It is handed on as it is; nothing is
/// read from it.
#[verifier::external_type_specification]
#[verifier::external_body]
pub struct ExFromUtf8Error(std::string::FromUtf8Error);

/// `String::from_utf8` of the standard library: it succeeds exactly on valid
/// UTF-8, and the string it returns then consists of the bytes it was given.
pub assume_specification[ String::from_utf8 ](bytes: Vec<u8>) -> (text: Result<
    String,
    std::string::FromUtf8Error,
>)
    ensures
        text is Ok <==> valid_utf8(bytes@),
        text matches Ok(s) ==> encode_utf8(s@) == bytes@,
;

/// Whether `bytes` holds `byte`.
pub open spec fn has_byte(bytes: Seq<u8>, byte: u8) -> bool {
    exists|i: int| 0 <= i < bytes.len() && bytes[i] == byte
}

/// Whether `chars` holds `c`.
pub open spec fn has_char(chars: Seq<char>, c: char) -> bool {
    exists|i: int| 0 <= i < chars.len() && chars[i] == c
}

/// An ASCII byte stands in the encoding of one character only where that
/// character is the byte itself.
proof fn lemma_scalar_has_ascii_byte(scalar: u32, byte: u8, i: int)
    requires
        is_scalar(scalar),
        byte < 128,
        0 <= i < encode_scalar(scalar).len(),
        encode_scalar(scalar)[i] == byte,
    ensures
        scalar == byte,
{
    assert(has_width_1_encoding(scalar) ==> (scalar & 0x7F) as u8 == scalar) by (bit_vector);
    assert((0xC0 | ((scalar >> 6) & 0x1F) as u8) >= 128) by (bit_vector);
    assert((0xE0 | ((scalar >> 12) & 0x0F) as u8) >= 128) by (bit_vector);
    assert((0xF0 | ((scalar >> 18) & 0x7) as u8) >= 128) by (bit_vector);
    assert((0x80 | (scalar & 0x3F) as u8) >= 128) by (bit_vector);
    assert((0x80 | ((scalar >> 6) & 0x3F) as u8) >= 128) by (bit_vector);
    assert((0x80 | ((scalar >> 12) & 0x3F) as u8) >= 128) by (bit_vector);
}

/// An ASCII byte occurs in the UTF-8 encoding of a text exactly where the
/// text holds that character.
pub proof fn lemma_ascii_byte_in_encoding(chars: Seq<char>, byte: u8)
    requires
        byte < 128,
    ensures
        has_byte(encode_utf8(chars), byte) <==> has_char(chars, byte as char),
    decreases chars.len(),
{
    let bytes = encode_utf8(chars);
    if chars.len() == 0 {
    } else {
        let first = encode_scalar(chars[0] as u32);
        let rest = chars.drop_first();
        lemma_ascii_byte_in_encoding(rest, byte);
        char_is_scalar(chars[0]);
        if has_byte(bytes, byte) {
            let i = choose|i: int| 0 <= i < bytes.len() && bytes[i] == byte;
            if i < first.len() {
                lemma_scalar_has_ascii_byte(chars[0] as u32, byte, i);
                char_u32_cast(chars[0], chars[0] as u32);
            } else {
                assert(encode_utf8(rest)[i - first.len()] == byte);
                let j = choose|j: int| 0 <= j < rest.len() && rest[j] == byte as char;
                assert(chars[j + 1] == byte as char);
            }
        }
        if has_char(chars, byte as char) {
            let j = choose|j: int| 0 <= j < chars.len() && chars[j] == byte as char;
            if j == 0 {
                assert((byte as u32 & 0x7F) as u8 == byte) by (bit_vector)
                    requires
                        byte < 128,
                ;
                assert(bytes[0] == byte);
            } else {
                assert(rest[j - 1] == byte as char);
                let i = choose|i: int|
                    0 <= i < encode_utf8(rest).len() && encode_utf8(rest)[i] == byte;
                assert(bytes[first.len() + i] == byte);
            }
        }
    }
}

/// Reads `bytes` as UTF-8 text: `Some` of the text where the bytes are valid,
/// `None` otherwise.
pub fn text_from_bytes(bytes: &[u8]) -> (text: Option<String>)
    ensures
        text is Some <==> valid_utf8(bytes@),
        text matches Some(s) ==> s@ == decode_utf8(bytes@) && encode_utf8(s@) == bytes@,
{
    let owned = vstd::slice::slice_to_vec(bytes);
    match String::from_utf8(owned) {
        Ok(s) => {
            proof {
                encode_utf8_decode_utf8(s@);
            }
            Some(s)
        },
        Err(_) => None,
    }
}

/// Appends `bytes` to `out`.
pub fn append_bytes(out: &mut Vec<u8>, bytes: &[u8])
    ensures
        final(out)@ == old(out)@ + bytes@,
{
    let mut i: usize = 0;
    while i < bytes.len()
        invariant
            0 <= i <= bytes.len(),
            out@ == old(out)@ + bytes@.take(i as int),
        decreases bytes.len() - i,
    {
        out.push(bytes[i]);
        i += 1;
    }
}

/// Whether `text` begins with `prefix`.
pub fn starts_with(text: &str, prefix: &str) -> (begins: bool)
    ensures
        begins == prefix@.is_prefix_of(text@),
{
    let length = prefix.unicode_len();
    if text.unicode_len() < length {
        return false;
    }
    let mut i: usize = 0;
    while i < length
        invariant
            0 <= i <= length,
            length == prefix@.len(),
            length <= text@.len(),
            forall|j: int| 0 <= j < i ==> text@[j] == prefix@[j],
        decreases length - i,
    {
        if text.get_char(i) != prefix.get_char(i) {
            return false;
        }
        i += 1;
    }
    true
}

/// Whether two texts are the same.
pub fn same_text(first: &str, second: &str) -> (same: bool)
    ensures
        same == (first@ == second@),
{
    let same = first.unicode_len() == second.unicode_len() && starts_with(first, second);
    proof {
        if same {
            assert(first@ =~= second@);
        }
    }
    same
}

/// The index of the first `wanted` in `items` at or after `from`, or the
/// length of `items` if there is none.
pub open spec fn position<T>(items: Seq<T>, wanted: T, from: int) -> int
    decreases items.len() - from,
{
    if from >= items.len() {
        items.len() as int
    } else if items[from] == wanted {
        from
    } else {
        position(items, wanted, from + 1)
    }
}

/// Where nothing between `from` and `end` is what is looked for, and `end`
/// holds it or is the end of the items, the position is `end`.
pub proof fn lemma_position_found<T>(items: Seq<T>, wanted: T, from: int, end: int)
    requires
        0 <= from <= end <= items.len(),
        forall|i: int| from <= i < end ==> items[i] != wanted,
        end < items.len() ==> items[end] == wanted,
    ensures
        position(items, wanted, from) == end,
    decreases end - from,
{
    if from < end {
        lemma_position_found(items, wanted, from + 1, end);
    }
}

/// The index of the first `wanted` in `bytes` at or after `from`, or the
/// length of `bytes` if there is none.
pub fn find_byte(bytes: &[u8], wanted: u8, from: usize) -> (end: usize)
    ensures
        end == position(bytes@, wanted, from as int),
        end <= bytes@.len(),
        from <= bytes@.len() ==> from <= end,
{
    if from >= bytes.len() {
        return bytes.len();
    }
    let mut i: usize = from;
    while i < bytes.len() && bytes[i] != wanted
        invariant
            from <= i <= bytes@.len(),
            position(bytes@, wanted, from as int) == position(bytes@, wanted, i as int),
        decreases bytes@.len() - i,
    {
        i += 1;
    }
    i
}

/// The index of the first `wanted` in `text` at or after `from`, counted in
/// characters, or the number of characters of `text` if there is none.
pub fn find_char(text: &str, wanted: char, from: usize) -> (end: usize)
    ensures
        end == position(text@, wanted, from as int),
        end <= text@.len(),
        from <= text@.len() ==> from <= end,
{
    let length = text.unicode_len();
    if from >= length {
        return length;
    }
    let mut i: usize = from;
    while i < length && text.get_char(i) != wanted
        invariant
            from <= i <= length,
            length == text@.len(),
            position(text@, wanted, from as int) == position(text@, wanted, i as int),
        decreases length - i,
    {
        i += 1;
    }
    i
}

} // verus!
