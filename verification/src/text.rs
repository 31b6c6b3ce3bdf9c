//! Text in fixed-size byte buffers.
//!
//! The kernel hands out names, labels and consumers as buffers that hold the
//! text's bytes followed by zero bytes, if there is room for any. Decoding
//! stops at the first zero byte or at the end of the buffer; bytes that are
//! not UTF-8 decode to the empty string.

use vstd::prelude::*;
use vstd::slice::slice_subrange;
use vstd::utf8::{decode_utf8, encode_utf8, valid_utf8};

verus! {

/// Number of bytes of a label that fit in a buffer in front of the
/// terminating zero byte.
pub const LABEL_MAX: usize = 31;

/// The position at or after `from` of the first zero byte in `bytes`, or the
/// length of `bytes` where there is none.
pub open spec fn text_end_from(bytes: Seq<u8>, from: int) -> int
    decreases bytes.len() - from,
{
    if from < 0 || from >= bytes.len() {
        bytes.len() as int
    } else if bytes[from] == 0 {
        from
    } else {
        text_end_from(bytes, from + 1)
    }
}

/// The length of the text in `bytes`: the position of the first zero byte,
/// or the length of `bytes` where there is none.
pub open spec fn text_end(bytes: Seq<u8>) -> int {
    text_end_from(bytes, 0)
}

/// The bytes of the text in `bytes`: what stands in front of the first zero
/// byte.
pub open spec fn text_bytes(bytes: Seq<u8>) -> Seq<u8> {
    bytes.take(text_end(bytes))
}

/// The text that a buffer holds: its text bytes read as UTF-8, or the empty
/// text where they are not UTF-8.
pub open spec fn decoded_text(bytes: Seq<u8>) -> Seq<char> {
    if valid_utf8(text_bytes(bytes)) {
        decode_utf8(text_bytes(bytes))
    } else {
        Seq::empty()
    }
}

/// The 32-byte buffer that carries a label whose UTF-8 encoding is `bytes`:
/// the first 31 bytes of it at most, then zero bytes.
pub open spec fn label_buffer(bytes: Seq<u8>) -> Seq<u8> {
    Seq::new(32, |i: int| if i < bytes.len() && i < 31 { bytes[i] } else { 0u8 })
}

/// `text_end` is the one position with no zero byte in front of it that is
/// either the end of the buffer or holds a zero byte.
pub proof fn lemma_text_end(bytes: Seq<u8>, from: int)
    requires
        0 <= from <= bytes.len(),
    ensures
        from <= text_end_from(bytes, from) <= bytes.len(),
        forall|i: int| from <= i < text_end_from(bytes, from) ==> bytes[i] != 0,
        text_end_from(bytes, from) < bytes.len() ==> bytes[text_end_from(bytes, from)] == 0,
    decreases bytes.len() - from,
{
    if from < bytes.len() && bytes[from] != 0 {
        lemma_text_end(bytes, from + 1);
    }
}

/// A position that ends the text is `text_end`: the first zero byte is
/// unique.
pub proof fn lemma_text_end_unique(bytes: Seq<u8>, from: int, n: int)
    requires
        0 <= from <= n <= bytes.len(),
        forall|i: int| from <= i < n ==> bytes[i] != 0,
        n < bytes.len() ==> bytes[n] == 0,
    ensures
        text_end_from(bytes, from) == n,
    decreases n - from,
{
    if from < n {
        lemma_text_end_unique(bytes, from + 1, n);
    }
}

/// The length of the text in `buf`.
pub fn text_len(buf: &[u8]) -> (n: usize)
    ensures
        n == text_end(buf@),
        n <= buf@.len(),
{
    let mut i: usize = 0;
    while i < buf.len() && buf[i] != 0
        invariant
            i <= buf@.len(),
            text_end_from(buf@, 0) == text_end_from(buf@, i as int),
        decreases buf@.len() - i,
    {
        i += 1;
    }
    proof {
        lemma_text_end(buf@, i as int);
    }
    i
}

/// Calls `core::str::from_utf8`, which checks that the bytes are UTF-8 and,
/// if so, returns them as a string slice: `Some` exactly for valid UTF-8, and
/// then the string is the decoding of the bytes.
#[verifier::external_body]
fn str_from_utf8(bytes: &[u8]) -> (r: Option<&str>)
    ensures
        r is Some <==> valid_utf8(bytes@),
        r is Some ==> r->0@ == decode_utf8(bytes@),
{
    match core::str::from_utf8(bytes) {
        Ok(text) => Some(text),
        Err(_) => None,
    }
}

/// Decodes the text that a fixed-size buffer holds.
pub fn decode_text(buf: &[u8]) -> (s: String)
    ensures
        s@ == decoded_text(buf@),
{
    let n = text_len(buf);
    let prefix = slice_subrange(buf, 0, n);
    assert(prefix@ =~= text_bytes(buf@));
    match str_from_utf8(prefix) {
        Some(t) => t.to_owned(),
        None => String::new(),
    }
}

/// Lays a label out in a 32-byte buffer: its first 31 bytes at most, then
/// zero bytes, so that the buffer always ends in a zero byte.
pub fn encode_label(label: &str) -> (buf: [u8; 32])
    ensures
        buf@ == label_buffer(encode_utf8(label@)),
{
    let bytes = label.as_bytes();
    let mut buf = [0u8; 32];
    let mut i: usize = 0;
    while i < bytes.len() && i < LABEL_MAX
        invariant
            i <= 31,
            i <= bytes@.len(),
            bytes@ == encode_utf8(label@),
            forall|j: int| 0 <= j < i ==> buf@[j] == bytes@[j],
            forall|j: int| i <= j < 32 ==> buf@[j] == 0,
        decreases 31 - i,
    {
        buf[i] = bytes[i];
        i += 1;
    }
    assert(buf@ =~= label_buffer(encode_utf8(label@)));
    buf
}

/// A label of at most 31 bytes without a zero byte is read back unchanged
/// from the buffer that carries it.
pub proof fn lemma_label_round_trip(label: Seq<char>)
    requires
        encode_utf8(label).len() <= 31,
        forall|i: int| 0 <= i < encode_utf8(label).len() ==> encode_utf8(label)[i] != 0,
    ensures
        decoded_text(label_buffer(encode_utf8(label))) == label,
{
    let bytes = encode_utf8(label);
    let buf = label_buffer(bytes);
    lemma_text_end_unique(buf, 0, bytes.len() as int);
    assert(text_bytes(buf) =~= bytes);
    vstd::utf8::encode_utf8_valid_utf8(label);
    vstd::utf8::encode_utf8_decode_utf8(label);
}

} // verus!
