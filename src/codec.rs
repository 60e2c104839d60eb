//! Strings, the two conventions for absent values, and null-terminated arrays.
use vstd::prelude::*;
use vstd::utf8::{
    decode_utf8, encode_scalar, encode_utf8, encode_utf8_decode_utf8, encode_utf8_valid_utf8,
    has_width_1_encoding, has_width_2_encoding, has_width_3_encoding, valid_utf8,
};

use crate::error::{DataFault, Error};
use crate::wire::{
    agrees_deep, i32_bytes, lemma_word_in_context, parse_i32, read_i32, word_at, word_bytes,
    write_i32,
};

verus! {

#[verifier::external_type_specification]
#[verifier::external_body]
pub struct ExFromUtf8Error(std::string::FromUtf8Error);

/// Relies on `String::from_utf8`: it succeeds exactly when the bytes are valid
/// UTF-8, and the string then holds the characters that the bytes encode.
#[verifier::external_body]
fn string_from_utf8(b: Vec<u8>) -> (r: Result<String, std::string::FromUtf8Error>)
    ensures
        r is Ok <==> valid_utf8(b@),
        r is Ok ==> r->Ok_0@ == decode_utf8(b@),
{
    String::from_utf8(b)
}

/// The index of the first zero byte in `s[lo..hi]`, or `hi` where there is none.
pub open spec fn first_nul(s: Seq<u8>, lo: int, hi: int) -> int
    decreases hi - lo,
{
    if lo >= hi {
        lo
    } else if s[lo] == 0 {
        lo
    } else {
        first_nul(s, lo + 1, hi)
    }
}

/// A string under the length convention: a signed length word `n`; `n <= 0`
/// means absent. Otherwise up to `n` bytes follow, ended early by a zero byte,
/// which is consumed and dropped; the bytes before it are UTF-8 text.
pub open spec fn parse_string(s: Seq<u8>, p: int) -> Result<(Option<Seq<char>>, int), Error> {
    match parse_i32(s, p) {
        Err(e) => Err(e),
        Ok((n, q)) => {
            if n <= 0 {
                Ok((None, q))
            } else {
                let lim = if q + n <= s.len() {
                    q + n
                } else {
                    s.len() as int
                };
                let k = first_nul(s, q, lim);
                if k == lim && lim < q + n {
                    Err(Error::IOError)
                } else {
                    let bytes = s.subrange(q, k);
                    let next = if k < lim {
                        k + 1
                    } else {
                        k
                    };
                    if valid_utf8(bytes) {
                        Ok((Some(decode_utf8(bytes)), next))
                    } else {
                        Err(Error::FromUtf8Error)
                    }
                }
            }
        },
    }
}

/// Reads a string under the length convention.
pub fn read_string(s: &Vec<u8>, p: usize) -> (r: Result<(Option<String>, usize), Error>)
    ensures
        agrees_deep(r, parse_string(s@, p as int)),
{
    let (n, q) = match read_i32(s, p) {
        Ok(x) => x,
        Err(e) => return Err(e),
    };
    if n <= 0 {
        return Ok((None, q));
    }
    let want = n as usize;
    let lim: usize = if s.len() - q >= want {
        q + want
    } else {
        s.len()
    };
    let mut bytes: Vec<u8> = Vec::new();
    let mut i: usize = q;
    while i < lim && s[i] != 0
        invariant
            q <= i <= lim,
            lim <= s.len(),
            bytes@ == s@.subrange(q as int, i as int),
            first_nul(s@, q as int, lim as int) == first_nul(s@, i as int, lim as int),
        decreases lim - i,
    {
        bytes.push(s[i]);
        i = i + 1;
        assert(bytes@ =~= s@.subrange(q as int, i as int));
    }
    let next: usize = if i < lim {
        i + 1
    } else if s.len() - q < want {
        return Err(Error::IOError);
    } else {
        i
    };
    match string_from_utf8(bytes) {
        Ok(t) => Ok((Some(t), next)),
        Err(_) => Err(Error::FromUtf8Error),
    }
}

/// The bytes of a string under the length convention: its length plus one,
/// its UTF-8 bytes, and a closing zero byte.
pub open spec fn string_wire(cs: Seq<char>) -> Seq<u8> {
    i32_bytes((encode_utf8(cs).len() + 1) as i32) + encode_utf8(cs) + seq![0u8]
}

/// Whether a string's UTF-8 bytes are too many for its length word.
pub open spec fn too_long(cs: Seq<char>) -> bool {
    encode_utf8(cs).len() >= i32::MAX
}

/// Appends a string under the length convention; fails, writing nothing, when
/// its length plus one does not fit a signed word.
pub fn write_string(out: &mut Vec<u8>, s: &str) -> (r: Result<(), Error>)
    ensures
        r is Err <==> too_long(s@),
        r is Err ==> r == Err::<(), Error>(Error::BadNetworkDataError(DataFault::StringTooLong))
            && final(out)@ == old(out)@,
        r is Ok ==> final(out)@ == old(out)@ + string_wire(s@),
{
    let b = s.as_bytes();
    let len = b.len();
    if len >= 0x7fff_ffff {
        return Err(Error::BadNetworkDataError(DataFault::StringTooLong));
    }
    write_i32(out, (len + 1) as i32);
    let ghost start = out@;
    let mut i: usize = 0;
    while i < len
        invariant
            i <= len,
            len == b@.len(),
            out@ == start + b@.subrange(0, i as int),
        decreases len - i,
    {
        out.push(b[i]);
        i = i + 1;
        assert(out@ =~= start + b@.subrange(0, i as int));
    }
    out.push(0u8);
    assert(b@.subrange(0, len as int) =~= b@);
    assert(final(out)@ =~= old(out)@ + string_wire(s@));
    Ok(())
}

/// The tag word of a value under the pointer convention: 0 when a value
/// follows, any other value when it is absent.
pub open spec fn parse_pointer(s: Seq<u8>, p: int) -> Result<(bool, int), Error> {
    match parse_i32(s, p) {
        Ok((t, q)) => Ok((t == 0, q)),
        Err(e) => Err(e),
    }
}

/// Reads the tag word of the pointer convention: whether a value follows.
pub fn read_pointer(s: &Vec<u8>, p: usize) -> (r: Result<(bool, usize), Error>)
    ensures
        agrees_deep(r, parse_pointer(s@, p as int)),
{
    match read_i32(s, p) {
        Ok((t, q)) => Ok((t == 0, q)),
        Err(e) => Err(e),
    }
}

/// Types whose values come in arrays: each array slot holds one value or is
/// empty.
pub trait ArraySlot: Sized + DeepView {
    /// Reading one slot at `p`: `None` for an empty slot.
    spec fn parse_slot(s: Seq<u8>, p: int) -> Result<(Option<<Self as DeepView>::V>, int), Error>;

    fn read_slot(s: &Vec<u8>, p: usize) -> (r: Result<(Option<Self>, usize), Error>)
        ensures
            agrees_deep(r, Self::parse_slot(s@, p as int)),
    ;
}

/// Reading `n` slots one after another from `p`.
pub open spec fn parse_slots<T: ArraySlot>(s: Seq<u8>, p: int, n: nat) -> Result<
    (Seq<Option<T::V>>, int),
    Error,
>
    decreases n,
{
    if n == 0 {
        Ok((seq![], p))
    } else {
        match parse_slots::<T>(s, p, (n - 1) as nat) {
            Err(e) => Err(e),
            Ok((xs, q)) => match T::parse_slot(s, q) {
                Err(e) => Err(e),
                Ok((x, k)) => Ok((xs.push(x), k)),
            },
        }
    }
}

/// An array: a signed count word `n`, then `n` slots, of which the last must
/// be empty. The value is the slots before that terminator; a count of zero or
/// less gives no slots at all.
pub open spec fn parse_array<T: ArraySlot>(s: Seq<u8>, p: int) -> Result<
    (Seq<Option<T::V>>, int),
    Error,
> {
    match parse_i32(s, p) {
        Err(e) => Err(e),
        Ok((n, q)) => {
            if n <= 0 {
                Ok((seq![], q))
            } else {
                match parse_slots::<T>(s, q, n as nat) {
                    Err(e) => Err(e),
                    Ok((xs, k)) => {
                        if xs.last() is None {
                            Ok((xs.drop_last(), k))
                        } else {
                            Err(Error::BadNetworkDataError(DataFault::MissingTerminator))
                        }
                    },
                }
            }
        },
    }
}

/// Reads an array, checks its terminator and drops it.
pub fn read_array<T: ArraySlot>(s: &Vec<u8>, p: usize) -> (r: Result<(Vec<Option<T>>, usize), Error>)
    ensures
        agrees_deep(r, parse_array::<T>(s@, p as int)),
{
    let (n, q) = match read_i32(s, p) {
        Ok(x) => x,
        Err(e) => return Err(e),
    };
    let mut slots: Vec<Option<T>> = Vec::new();
    if n <= 0 {
        assert(slots.deep_view() =~= Seq::<Option<T::V>>::empty());
        return Ok((slots, q));
    }
    let count = n as usize;
    let mut at: usize = q;
    let mut i: usize = 0;
    assert(slots.deep_view() =~= Seq::<Option<T::V>>::empty());
    while i < count
        invariant
            i <= count,
            count as int == n as int,
            n > 0,
            parse_i32(s@, p as int) == Ok::<(i32, int), Error>((n, q as int)),
            parse_slots::<T>(s@, q as int, i as nat) == Ok::<(Seq<Option<T::V>>, int), Error>(
                (slots.deep_view(), at as int),
            ),
        decreases count - i,
    {
        match T::read_slot(s, at) {
            Ok((x, k)) => {
                proof {
                    assert(parse_slots::<T>(s@, q as int, (i + 1) as nat) == match T::parse_slot(
                        s@,
                        at as int,
                    ) {
                        Err(e) => Err(e),
                        Ok((y, j)) => Ok((slots.deep_view().push(y), j)),
                    });
                }
                let ghost before = slots.deep_view();
                slots.push(x);
                assert(slots.deep_view() =~= before.push(x.deep_view()));
                at = k;
            },
            Err(e) => {
                assert(parse_slots::<T>(s@, q as int, (i + 1) as nat) == Err::<
                    (Seq<Option<T::V>>, int),
                    Error,
                >(e));
                proof {
                    lemma_slots_err_stays::<T>(s@, q as int, (i + 1) as nat, count as nat);
                    assert(n as nat == count as nat);
                    assert(parse_array::<T>(s@, p as int) == parse_slots::<T>(
                        s@,
                        q as int,
                        count as nat,
                    ));
                }
                return Err(e);
            },
        }
        i = i + 1;
    }
    let ghost all = slots.deep_view();
    match slots.pop() {
        Some(None) => {
            assert(slots.deep_view() =~= all.drop_last());
            Ok((slots, at))
        },
        _ => Err(Error::BadNetworkDataError(DataFault::MissingTerminator)),
    }
}

/// Once reading some slots fails, reading more of them fails the same way.
proof fn lemma_slots_err_stays<T: ArraySlot>(s: Seq<u8>, p: int, i: nat, n: nat)
    requires
        i <= n,
        parse_slots::<T>(s, p, i) is Err,
    ensures
        parse_slots::<T>(s, p, n) == parse_slots::<T>(s, p, i),
    decreases n - i,
{
    if i < n {
        lemma_slots_err_stays::<T>(s, p, i, (n - 1) as nat);
    }
}

/// Strings in arrays follow the length convention: an empty slot is an absent
/// string.
impl ArraySlot for String {
    open spec fn parse_slot(s: Seq<u8>, p: int) -> Result<(Option<Seq<char>>, int), Error> {
        parse_string(s, p)
    }

    fn read_slot(s: &Vec<u8>, p: usize) -> (r: Result<(Option<String>, usize), Error>) {
        read_string(s, p)
    }
}

/// Words in arrays follow the pointer convention.
impl ArraySlot for i32 {
    open spec fn parse_slot(s: Seq<u8>, p: int) -> Result<(Option<i32>, int), Error> {
        match parse_pointer(s, p) {
            Err(e) => Err(e),
            Ok((false, q)) => Ok((None, q)),
            Ok((true, q)) => match parse_i32(s, q) {
                Err(e) => Err(e),
                Ok((v, k)) => Ok((Some(v), k)),
            },
        }
    }

    fn read_slot(s: &Vec<u8>, p: usize) -> (r: Result<(Option<i32>, usize), Error>) {
        match read_pointer(s, p) {
            Err(e) => Err(e),
            Ok((false, q)) => Ok((None, q)),
            Ok((true, q)) => match read_i32(s, q) {
                Err(e) => Err(e),
                Ok((v, k)) => Ok((Some(v), k)),
            },
        }
    }
}

/// Values that can be sent on the wire.
pub trait WriteToStream {
    /// The bytes that stand for this value.
    spec fn wire(&self) -> Seq<u8>;

    fn write_to(&self, out: &mut Vec<u8>)
        ensures
            final(out)@ == old(out)@ + self.wire(),
    ;
}

impl WriteToStream for u8 {
    open spec fn wire(&self) -> Seq<u8> {
        seq![*self]
    }

    fn write_to(&self, out: &mut Vec<u8>) {
        out.push(*self);
        assert(final(out)@ =~= old(out)@ + self.wire());
    }
}

impl WriteToStream for i32 {
    open spec fn wire(&self) -> Seq<u8> {
        i32_bytes(*self)
    }

    fn write_to(&self, out: &mut Vec<u8>) {
        write_i32(out, *self);
    }
}

/// The pointer convention: an absent value is the word 1 and a zero
/// placeholder word; a present one is the word 0, and its caller writes the
/// value after it.
impl<T: WriteToStream> WriteToStream for Option<T> {
    open spec fn wire(&self) -> Seq<u8> {
        match self {
            None => i32_bytes(1) + i32_bytes(0),
            Some(_) => i32_bytes(0),
        }
    }

    fn write_to(&self, out: &mut Vec<u8>) {
        match self {
            None => {
                write_i32(out, 1);
                write_i32(out, 0);
                assert(final(out)@ =~= old(out)@ + self.wire());
            },
            Some(_) => {
                write_i32(out, 0);
            },
        }
    }
}

/// No byte of the UTF-8 encoding of a nonzero scalar is zero.
proof fn lemma_scalar_no_nul(c: u32)
    requires
        c != 0,
    ensures
        forall|i: int| 0 <= i < encode_scalar(c).len() ==> encode_scalar(c)[i] != 0u8,
{
    let e = encode_scalar(c);
    if has_width_1_encoding(c) {
        let b = e[0];
        assert(b != 0u8) by (bit_vector)
            requires
                b == (c & 0x7Fu32) as u8,
                c != 0,
                c <= 0x7Fu32,
        ;
    } else {
        assert forall|i: int| 0 <= i < e.len() implies e[i] != 0u8 by {
            let b = e[i];
            if i == 0 {
                if has_width_2_encoding(c) {
                    let x = ((c >> 6u32) & 0x1Fu32) as u8;
                    assert(b == (0xC0u8 | x));
                    assert(b != 0u8) by (bit_vector)
                        requires
                            b == (0xC0u8 | x),
                    ;
                } else if has_width_3_encoding(c) {
                    let x = ((c >> 12u32) & 0x0Fu32) as u8;
                    assert(b == (0xE0u8 | x));
                    assert(b != 0u8) by (bit_vector)
                        requires
                            b == (0xE0u8 | x),
                    ;
                } else {
                    let x = ((c >> 18u32) & 0x7u32) as u8;
                    assert(b == (0xF0u8 | x));
                    assert(b != 0u8) by (bit_vector)
                        requires
                            b == (0xF0u8 | x),
                    ;
                }
            } else {
                let x0 = (c & 0x3Fu32) as u8;
                let x1 = ((c >> 6u32) & 0x3Fu32) as u8;
                let x2 = ((c >> 12u32) & 0x3Fu32) as u8;
                assert(b == (0x80u8 | x0) || b == (0x80u8 | x1) || b == (0x80u8 | x2));
                assert(b != 0u8) by (bit_vector)
                    requires
                        b == (0x80u8 | x0) || b == (0x80u8 | x1) || b == (0x80u8 | x2),
                ;
            }
        }
    }
}

/// Text without a NUL character has no zero byte in its UTF-8 encoding.
proof fn lemma_encode_no_nul(cs: Seq<char>)
    requires
        forall|i: int| 0 <= i < cs.len() ==> cs[i] != '\0',
    ensures
        forall|j: int| 0 <= j < encode_utf8(cs).len() ==> encode_utf8(cs)[j] != 0u8,
    decreases cs.len(),
{
    if cs.len() > 0 {
        let tail = cs.drop_first();
        lemma_encode_no_nul(tail);
        let c = cs[0] as u32;
        vstd::utf8::char_u32_cast(cs[0], c);
        assert(c != 0);
        lemma_scalar_no_nul(c);
        let a = encode_scalar(c);
        let b = encode_utf8(tail);
        assert(encode_utf8(cs) == a + b);
        assert forall|j: int| 0 <= j < encode_utf8(cs).len() implies encode_utf8(cs)[j] != 0u8 by {
            if j >= a.len() {
                assert(encode_utf8(cs)[j] == b[j - a.len()]);
            }
        }
    }
}

/// The first zero byte is found where the nonzero run from `lo` ends.
proof fn lemma_first_nul_at(s: Seq<u8>, lo: int, k: int, hi: int)
    requires
        lo <= k < hi,
        s[k] == 0,
        forall|i: int| lo <= i < k ==> s[i] != 0,
    ensures
        first_nul(s, lo, hi) == k,
    decreases k - lo,
{
    if lo < k {
        lemma_first_nul_at(s, lo + 1, k, hi);
    }
}

/// A string without a NUL character that fits its length word reads back as
/// itself wherever it stands, whatever comes before and after it.
pub proof fn lemma_string_at(prefix: Seq<u8>, cs: Seq<char>, rest: Seq<u8>)
    requires
        forall|i: int| 0 <= i < cs.len() ==> cs[i] != '\0',
        !too_long(cs),
    ensures
        parse_string(prefix + string_wire(cs) + rest, prefix.len() as int) == Ok::<
            (Option<Seq<char>>, int),
            Error,
        >((Some(cs), (prefix.len() + string_wire(cs).len()) as int)),
{
    let o = prefix.len() as int;
    let text = encode_utf8(cs);
    let len = text.len() as int;
    let n = (len + 1) as i32;
    let s = prefix + string_wire(cs) + rest;
    let tail = text + seq![0u8] + rest;
    assert(s =~= prefix + word_bytes(n as u32) + tail);
    lemma_word_in_context(prefix, n as u32, tail);
    assert(word_at(s, o) == n as u32);
    assert((n as u32) as i32 == n);
    assert(parse_i32(s, o) == Ok::<(i32, int), Error>((n, o + 4)));
    lemma_encode_no_nul(cs);
    assert forall|i: int| o + 4 <= i < o + 4 + len implies s[i] != 0 by {
        assert(s[i] == text[i - o - 4]);
    }
    assert(s[o + 4 + len] == 0);
    lemma_first_nul_at(s, o + 4, o + 4 + len, o + 4 + len + 1);
    assert(s.subrange(o + 4, o + 4 + len) =~= text);
    encode_utf8_valid_utf8(cs);
    encode_utf8_decode_utf8(cs);
}

/// A string without a NUL character that fits its length word reads back as
/// itself, followed by whatever comes after it.
pub proof fn lemma_string_round_trip(cs: Seq<char>, rest: Seq<u8>)
    requires
        forall|i: int| 0 <= i < cs.len() ==> cs[i] != '\0',
        !too_long(cs),
    ensures
        parse_string(string_wire(cs) + rest, 0) == Ok::<(Option<Seq<char>>, int), Error>(
            (Some(cs), string_wire(cs).len() as int),
        ),
{
    lemma_string_at(Seq::<u8>::empty(), cs, rest);
    assert(Seq::<u8>::empty() + string_wire(cs) + rest =~= string_wire(cs) + rest);
}

/// Under the length convention, a length word of zero or less reads as an
/// absent string, and nothing after that word is read.
pub proof fn lemma_string_absent(s: Seq<u8>, p: int)
    requires
        0 <= p,
        p + 4 <= s.len(),
        word_at(s, p) as i32 <= 0,
    ensures
        parse_string(s, p) == Ok::<(Option<Seq<char>>, int), Error>((None, p + 4)),
{
}

/// An absent word is sent as the two words 1 and 0, and reading it back under
/// the pointer convention gives an absent value.
pub proof fn lemma_absent_round_trip(rest: Seq<u8>)
    ensures
        None::<i32>.wire() == seq![0u8, 0u8, 0u8, 1u8, 0u8, 0u8, 0u8, 0u8],
        <i32 as ArraySlot>::parse_slot(None::<i32>.wire() + rest, 0) == Ok::<
            (Option<i32>, int),
            Error,
        >((None, 4)),
{
    assert(None::<i32>.wire() =~= seq![0u8, 0u8, 0u8, 1u8, 0u8, 0u8, 0u8, 0u8]);
    let s = None::<i32>.wire() + rest;
    assert(s =~= Seq::<u8>::empty() + word_bytes(1u32) + (i32_bytes(0) + rest));
    lemma_word_in_context(Seq::<u8>::empty(), 1u32, i32_bytes(0) + rest);
}

proof fn lemma_slots_len<T: ArraySlot>(s: Seq<u8>, p: int, n: nat)
    requires
        parse_slots::<T>(s, p, n) is Ok,
    ensures
        parse_slots::<T>(s, p, n)->Ok_0.0.len() == n,
    decreases n,
{
    if n > 0 {
        lemma_slots_len::<T>(s, p, (n - 1) as nat);
    }
}

/// An array whose count `n` is at least 1 and whose `n` slots read is accepted
/// exactly when its last slot is empty; its value is then the `n - 1` slots
/// before it, and otherwise it is refused for the missing terminator.
pub proof fn lemma_array_terminator<T: ArraySlot>(s: Seq<u8>, p: int)
    requires
        parse_i32(s, p) is Ok,
        parse_i32(s, p)->Ok_0.0 >= 1,
        parse_slots::<T>(s, parse_i32(s, p)->Ok_0.1, parse_i32(s, p)->Ok_0.0 as nat) is Ok,
    ensures
        ({
            let (n, q) = parse_i32(s, p)->Ok_0;
            let (xs, k) = parse_slots::<T>(s, q, n as nat)->Ok_0;
            &&& xs.len() == n
            &&& xs.last() is None ==> parse_array::<T>(s, p) == Ok::<
                (Seq<Option<T::V>>, int),
                Error,
            >((xs.drop_last(), k))
            &&& xs.last() is Some ==> parse_array::<T>(s, p) == Err::<
                (Seq<Option<T::V>>, int),
                Error,
            >(Error::BadNetworkDataError(DataFault::MissingTerminator))
        }),
{
    let (n, q) = parse_i32(s, p)->Ok_0;
    lemma_slots_len::<T>(s, q, n as nat);
}

} // verus!
