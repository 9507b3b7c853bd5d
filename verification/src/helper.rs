//! Digests and nonces: SHA-512 checksums in lower-case hexadecimal, and
//! random nonces of sixteen bytes.

use rand::Rng;
use sha2::Digest;
use vstd::prelude::*;

verus! {

/// Number of bytes in a SHA-512 digest.
pub const DIGEST_BYTES: usize = 64;

/// Number of random bytes in a nonce.
pub const NONCE_BYTES: usize = 16;

/// The SHA-512 digest of `data`, as FIPS 180-4 defines it.
///
/// The function has no body: the library computes digests with the `sha2`
/// crate and reasons only about the fact that equal inputs have equal digests
/// and that a digest has sixty-four bytes.
pub uninterp spec fn sha512(data: Seq<u8>) -> Seq<u8>;

/// The sixteen lower-case hexadecimal digits, by value.
pub open spec fn hex_digits() -> Seq<char> {
    seq!['0', '1', '2', '3', '4', '5', '6', '7', '8', '9', 'a', 'b', 'c', 'd', 'e', 'f']
}

/// Whether `c` is one of `0`-`9` or `a`-`f`.
pub open spec fn is_hex_digit(c: char) -> bool {
    ('0' <= c && c <= '9') || ('a' <= c && c <= 'f')
}

/// Whether every character of `text` is a lower-case hexadecimal digit.
pub open spec fn is_hex_lower(text: Seq<char>) -> bool {
    forall|i: int| 0 <= i < text.len() ==> is_hex_digit(#[trigger] text[i])
}

/// The character at position `i` of the hexadecimal encoding of `bytes`: the
/// high half of a byte comes first.
pub open spec fn hex_char_at(bytes: Seq<u8>, i: int) -> char {
    if i % 2 == 0 {
        hex_digits()[bytes[i / 2] as int / 16]
    } else {
        hex_digits()[bytes[i / 2] as int % 16]
    }
}

/// The lower-case hexadecimal encoding of `bytes`: two digits for each byte,
/// without separators or padding.
pub open spec fn hex_lower(bytes: Seq<u8>) -> Seq<char> {
    Seq::new(2 * bytes.len(), |i: int| hex_char_at(bytes, i))
}

/// What `calculate_checksum` returns for `data`.
pub open spec fn checksum(data: Seq<u8>) -> Seq<char> {
    hex_lower(sha512(data))
}

/// Whether `text` has the form of a nonce: the encoding of sixteen bytes.
pub open spec fn is_nonce(text: Seq<char>) -> bool {
    exists|bytes: Seq<u8>| bytes.len() == NONCE_BYTES && text == hex_lower(bytes)
}

/// A hexadecimal encoding has two characters for each byte, all of them
/// lower-case hexadecimal digits, and so is ASCII.
pub proof fn lemma_hex_lower_form(bytes: Seq<u8>)
    ensures
        hex_lower(bytes).len() == 2 * bytes.len(),
        is_hex_lower(hex_lower(bytes)),
        vstd::utf8::is_ascii_chars(hex_lower(bytes)),
{
    let text = hex_lower(bytes);
    assert(forall|i: int|
        0 <= i < text.len() ==> is_hex_digit(#[trigger] text[i]) && text[i] as nat <= 127);
}

/// The value of a hexadecimal digit.
pub open spec fn hex_value(c: char) -> int {
    if '0' <= c && c <= '9' {
        c as int - '0' as int
    } else {
        c as int - 'a' as int + 10
    }
}

/// The byte at position `i` of what `text` encodes: read back from the two
/// digits that stand for it.
pub open spec fn byte_at(text: Seq<char>, i: int) -> int {
    16 * hex_value(text[2 * i]) + hex_value(text[2 * i + 1])
}

/// Every byte can be read back from its two digits.
pub proof fn lemma_hex_lower_reads_back(bytes: Seq<u8>, i: int)
    requires
        0 <= i < bytes.len(),
    ensures
        byte_at(hex_lower(bytes), i) == bytes[i],
{
    let text = hex_lower(bytes);
    let b = bytes[i] as int;
    assert((2 * i) / 2 == i && (2 * i) % 2 == 0);
    assert((2 * i + 1) / 2 == i && (2 * i + 1) % 2 == 1);
    assert(text[2 * i] == hex_digits()[b / 16]);
    assert(text[2 * i + 1] == hex_digits()[b % 16]);
    assert(0 <= b / 16 < 16 && 0 <= b % 16 < 16);
    assert(forall|n: int| 0 <= n < 16 ==> hex_value(#[trigger] hex_digits()[n]) == n);
}

/// Different bytes have different encodings: two byte strings with the same
/// encoding are the same, so that two nonces are equal only where the bytes
/// drawn for them are.
pub proof fn lemma_hex_lower_injective(first: Seq<u8>, second: Seq<u8>)
    requires
        hex_lower(first) == hex_lower(second),
    ensures
        first == second,
{
    assert(first.len() == second.len()) by {
        assert(hex_lower(first).len() == 2 * first.len());
        assert(hex_lower(second).len() == 2 * second.len());
    }
    assert forall|i: int| 0 <= i < first.len() implies first[i] == second[i] by {
        lemma_hex_lower_reads_back(first, i);
        lemma_hex_lower_reads_back(second, i);
    }
    assert(first =~= second);
}

/// Calls `sha2::Sha512` (`new`, `update`, `finalize`) on `data`. The contract
/// names the result `sha512(data)` and states the digest's length, which the
/// crate fixes at sixty-four bytes.
#[verifier::external_body]
fn sha512_digest(data: &[u8]) -> (digest: Vec<u8>)
    ensures
        digest@ == sha512(data@),
        digest@.len() == DIGEST_BYTES,
{
    let mut hasher = sha2::Sha512::new();
    hasher.update(data);
    hasher.finalize().to_vec()
}

/// Calls `data_encoding::HEXLOWER.encode` on `bytes`. The contract states the
/// encoding in full: base 16 with the symbols `0123456789abcdef`, the high
/// half of each byte first, no padding. The crate refuses inputs of more
/// than `usize::MAX / 512` bytes, so the wrapper does not take them.
#[verifier::external_body]
fn encode_hex_lower(bytes: &[u8]) -> (text: String)
    requires
        bytes@.len() <= usize::MAX / 512,
    ensures
        text@ == hex_lower(bytes@),
{
    data_encoding::HEXLOWER.encode(bytes)
}

/// Calls `rand::thread_rng().try_fill` on a buffer of sixteen bytes. Nothing
/// is claimed of the bytes. When the generator reports an error the process
/// stops, since there is no nonce to go on with.
#[verifier::external_body]
fn random_bytes() -> [u8; 16] {
    let mut nonce = [0u8; 16];
    rand::thread_rng().try_fill(&mut nonce).expect("Error filling nonce");
    nonce
}

/// The SHA-512 digest of `data` in lower-case hexadecimal.
pub fn calculate_checksum(data: &[u8]) -> (text: String)
    ensures
        text@ == checksum(data@),
        text@.len() == 128,
        is_hex_lower(text@),
        text.is_ascii(),
{
    let digest = sha512_digest(data);
    proof {
        lemma_hex_lower_form(digest@);
    }
    encode_hex_lower(digest.as_slice())
}

/// The nonce that stands for sixteen bytes: the bytes in lower-case
/// hexadecimal.
pub fn nonce_from(bytes: &[u8; 16]) -> (text: String)
    ensures
        text@ == hex_lower(bytes@),
        is_nonce(text@),
        text@.len() == 32,
        is_hex_lower(text@),
{
    proof {
        lemma_hex_lower_form(bytes@);
    }
    encode_hex_lower(bytes.as_slice())
}

/// A fresh nonce: sixteen random bytes in lower-case hexadecimal.
pub fn random_nonce() -> (text: String)
    ensures
        is_nonce(text@),
        text@.len() == 32,
        is_hex_lower(text@),
{
    let bytes = random_bytes();
    nonce_from(&bytes)
}

} // verus!
