//! Little-endian layout of 32-bit words.

use vstd::arithmetic::div_mod::lemma_fundamental_div_mod_converse;
use vstd::prelude::*;

verus! {

/// The four bytes of `v`, least significant first.
pub open spec fn le_bytes(v: u32) -> Seq<u8> {
    seq![
        (v % 256) as u8,
        (v / 256 % 256) as u8,
        (v / 65536 % 256) as u8,
        (v / 16777216) as u8,
    ]
}

/// The word whose little-endian layout starts `b`.
pub open spec fn le_word(b: Seq<u8>) -> u32
    recommends
        b.len() >= 4,
{
    (b[0] + 256 * b[1] + 65536 * b[2] + 16777216 * b[3]) as u32
}

/// Reading back the layout of a word gives the word, whatever follows it.
pub proof fn lemma_le_word_of_bytes(v: u32, rest: Seq<u8>)
    ensures
        le_bytes(v).len() == 4,
        le_word(le_bytes(v) + rest) == v,
{
    let b = le_bytes(v) + rest;
    assert(b[0] == le_bytes(v)[0]);
    assert(b[1] == le_bytes(v)[1]);
    assert(b[2] == le_bytes(v)[2]);
    assert(b[3] == le_bytes(v)[3]);
}

/// Laying out the word read from four bytes gives those bytes.
pub proof fn lemma_le_bytes_of_word(b: Seq<u8>)
    requires
        b.len() == 4,
    ensures
        le_bytes(le_word(b)) == b,
{
    let w: int = b[0] + 256 * b[1] + 65536 * b[2] + 16777216 * b[3];
    let q1: int = b[1] + 256 * b[2] + 65536 * b[3];
    let q2: int = b[2] + 256 * b[3];
    lemma_fundamental_div_mod_converse(w, 256, q1, b[0] as int);
    lemma_fundamental_div_mod_converse(w, 65536, q2, b[0] + 256 * b[1]);
    lemma_fundamental_div_mod_converse(q1, 256, q2, b[1] as int);
    lemma_fundamental_div_mod_converse(w, 16777216, b[3] as int, b[0] + 256 * b[1] + 65536 * b[2]);
    lemma_fundamental_div_mod_converse(q2, 256, b[3] as int, b[2] as int);
    assert(le_word(b) == w);
    assert(w / 256 % 256 == b[1]);
    assert(w / 65536 % 256 == b[2]);
    assert(le_bytes(le_word(b)) =~= b);
}

/// Appends the little-endian layout of `v` to `buf`.
pub fn push_u32_le(buf: &mut Vec<u8>, v: u32)
    ensures
        final(buf)@ == old(buf)@ + le_bytes(v),
{
    buf.push((v % 256) as u8);
    buf.push((v / 256 % 256) as u8);
    buf.push((v / 65536 % 256) as u8);
    buf.push((v / 16777216) as u8);
    assert(buf@ =~= old(buf)@ + le_bytes(v));
}

/// Reads the word laid out little-endian in the four bytes of `bytes` from
/// index `at` on.
pub fn read_u32_le(bytes: &[u8], at: usize) -> (v: u32)
    requires
        at + 4 <= bytes@.len(),
    ensures
        v == le_word(bytes@.skip(at as int)),
{
    let b0: u32 = bytes[at] as u32;
    let b1: u32 = bytes[at + 1] as u32;
    let b2: u32 = bytes[at + 2] as u32;
    let b3: u32 = bytes[at + 3] as u32;
    b0 + 256 * b1 + 65536 * b2 + 16777216 * b3
}

} // verus!
