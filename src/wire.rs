//! Big-endian words, the unit of every value on the wire.
use vstd::prelude::*;

use crate::error::Error;

verus! {

/// The four bytes of a word, most significant first.
pub open spec fn word_bytes(w: u32) -> Seq<u8> {
    seq![(w / 0x100_0000) as u8, ((w / 0x1_0000) % 0x100) as u8, ((w / 0x100) % 0x100) as u8, (w
        % 0x100) as u8]
}

/// The word whose bytes start at `p`.
pub open spec fn word_at(s: Seq<u8>, p: int) -> u32 {
    (s[p] * 0x100_0000 + s[p + 1] * 0x1_0000 + s[p + 2] * 0x100 + s[p + 3]) as u32
}

/// The encoding of a signed word.
pub open spec fn i32_bytes(v: i32) -> Seq<u8> {
    word_bytes(v as u32)
}

/// Reading an unsigned word at `p`: its value and the position after it, or a
/// short read.
pub open spec fn parse_u32(s: Seq<u8>, p: int) -> Result<(u32, int), Error> {
    if 0 <= p && p + 4 <= s.len() {
        Ok((word_at(s, p), p + 4))
    } else {
        Err(Error::IOError)
    }
}

pub open spec fn parse_i32(s: Seq<u8>, p: int) -> Result<(i32, int), Error> {
    match parse_u32(s, p) {
        Ok((w, q)) => Ok((w as i32, q)),
        Err(e) => Err(e),
    }
}

/// A boolean is a word, true exactly when it is 1.
pub open spec fn parse_bool(s: Seq<u8>, p: int) -> Result<(bool, int), Error> {
    match parse_u32(s, p) {
        Ok((w, q)) => Ok((w == 1, q)),
        Err(e) => Err(e),
    }
}

/// A single byte.
pub open spec fn parse_u8(s: Seq<u8>, p: int) -> Result<(u8, int), Error> {
    if 0 <= p && p + 1 <= s.len() {
        Ok((s[p], p + 1))
    } else {
        Err(Error::IOError)
    }
}

/// An exec result and a spec result agree: the same error, or the same value
/// and position.
pub open spec fn agrees<A>(r: Result<(A, usize), Error>, m: Result<(A, int), Error>) -> bool {
    match (r, m) {
        (Ok((a, q)), Ok((b, k))) => a == b && q as int == k,
        (Err(e), Err(f)) => e == f,
        _ => false,
    }
}

/// An exec result and a spec result agree up to the deep view of the value.
pub open spec fn agrees_deep<A: DeepView>(
    r: Result<(A, usize), Error>,
    m: Result<(A::V, int), Error>,
) -> bool {
    match (r, m) {
        (Ok((a, q)), Ok((b, k))) => a.deep_view() == b && q as int == k,
        (Err(e), Err(f)) => e == f,
        _ => false,
    }
}

/// Reading a word back from its bytes gives the word.
pub proof fn lemma_word_round_trip(w: u32)
    ensures
        word_at(word_bytes(w), 0) == w,
{
    let x = w as int;
    assert((x / 0x100_0000) * 0x100_0000 + ((x / 0x1_0000) % 0x100) * 0x1_0000 + ((x / 0x100)
        % 0x100) * 0x100 + x % 0x100 == x);
}

/// The word at `p` of a sequence that holds `prefix`, then a word, then anything.
pub proof fn lemma_word_in_context(prefix: Seq<u8>, w: u32, rest: Seq<u8>)
    ensures
        word_at(prefix + word_bytes(w) + rest, prefix.len() as int) == w,
{
    let s = prefix + word_bytes(w) + rest;
    let p = prefix.len() as int;
    lemma_word_round_trip(w);
    assert(s[p] == word_bytes(w)[0]);
    assert(s[p + 1] == word_bytes(w)[1]);
    assert(s[p + 2] == word_bytes(w)[2]);
    assert(s[p + 3] == word_bytes(w)[3]);
}

/// A signed word reads back as itself wherever it stands.
pub proof fn lemma_i32_in_context(prefix: Seq<u8>, x: i32, rest: Seq<u8>)
    ensures
        parse_i32(prefix + i32_bytes(x) + rest, prefix.len() as int) == Ok::<(i32, int), Error>(
            (x, prefix.len() + 4int),
        ),
{
    lemma_word_in_context(prefix, x as u32, rest);
    assert(((x as u32) as i32) == x) by (bit_vector);
}

/// An unsigned word reads back as itself wherever it stands.
pub proof fn lemma_u32_in_context(prefix: Seq<u8>, w: u32, rest: Seq<u8>)
    ensures
        parse_u32(prefix + word_bytes(w) + rest, prefix.len() as int) == Ok::<(u32, int), Error>(
            (w, prefix.len() + 4int),
        ),
{
    lemma_word_in_context(prefix, w, rest);
}

pub fn read_u32(s: &Vec<u8>, p: usize) -> (r: Result<(u32, usize), Error>)
    ensures
        agrees(r, parse_u32(s@, p as int)),
{
    if p > s.len() || s.len() - p < 4 {
        return Err(Error::IOError);
    }
    let w: u32 = (s[p] as u32) * 0x100_0000 + (s[p + 1] as u32) * 0x1_0000 + (s[p + 2] as u32)
        * 0x100 + (s[p + 3] as u32);
    Ok((w, p + 4))
}

pub fn read_i32(s: &Vec<u8>, p: usize) -> (r: Result<(i32, usize), Error>)
    ensures
        agrees(r, parse_i32(s@, p as int)),
{
    match read_u32(s, p) {
        Ok((w, q)) => Ok((w as i32, q)),
        Err(e) => Err(e),
    }
}

pub fn read_bool(s: &Vec<u8>, p: usize) -> (r: Result<(bool, usize), Error>)
    ensures
        agrees(r, parse_bool(s@, p as int)),
{
    match read_u32(s, p) {
        Ok((w, q)) => Ok((w == 1, q)),
        Err(e) => Err(e),
    }
}

pub fn read_u8(s: &Vec<u8>, p: usize) -> (r: Result<(u8, usize), Error>)
    ensures
        agrees(r, parse_u8(s@, p as int)),
{
    if p >= s.len() {
        return Err(Error::IOError);
    }
    Ok((s[p], p + 1))
}

/// Appends the four bytes of an unsigned word.
pub fn write_u32(out: &mut Vec<u8>, w: u32)
    ensures
        final(out)@ == old(out)@ + word_bytes(w),
{
    out.push((w / 0x100_0000) as u8);
    out.push(((w / 0x1_0000) % 0x100) as u8);
    out.push(((w / 0x100) % 0x100) as u8);
    out.push((w % 0x100) as u8);
    assert(final(out)@ =~= old(out)@ + word_bytes(w));
}

/// Appends the four bytes of a signed word.
pub fn write_i32(out: &mut Vec<u8>, v: i32)
    ensures
        final(out)@ == old(out)@ + i32_bytes(v),
{
    write_u32(out, v as u32);
}

} // verus!
