//! UTF-16 ("wide") strings as the Windows API passes them: decoding a
//! NUL-terminated buffer, and encoding a string with its terminator.

use crate::text::{push_char, string_of};
use vstd::prelude::*;

verus! {

/// Longest path, in UTF-16 units, that the Windows API accepts (`MAX_PATH`).
pub const MAX_PATH: usize = 260;

/// The character that stands for an ill-formed UTF-16 sequence.
pub const REPLACEMENT_CHARACTER: char = '\u{FFFD}';

pub open spec fn is_surrogate(u: u16) -> bool {
    0xD800 <= u <= 0xDFFF
}

pub open spec fn is_leading_surrogate(u: u16) -> bool {
    0xD800 <= u <= 0xDBFF
}

pub open spec fn is_trailing_surrogate(u: u16) -> bool {
    0xDC00 <= u <= 0xDFFF
}

/// The scalar value that a surrogate pair encodes.
pub open spec fn pair_value(hi: u16, lo: u16) -> u32 {
    (0x10000 + (hi - 0xD800) * 0x400 + (lo - 0xDC00)) as u32
}

/// Decodes UTF-16, replacing each unpaired surrogate by U+FFFD, as
/// `String::from_utf16_lossy` does.
pub open spec fn decode_utf16_lossy(u: Seq<u16>) -> Seq<char>
    decreases u.len(),
{
    if u.len() == 0 {
        Seq::empty()
    } else if !is_surrogate(u[0]) {
        seq![u[0] as u32 as char] + decode_utf16_lossy(u.drop_first())
    } else if is_leading_surrogate(u[0]) && u.len() >= 2 && is_trailing_surrogate(u[1]) {
        seq![pair_value(u[0], u[1]) as char] + decode_utf16_lossy(u.skip(2))
    } else {
        seq![REPLACEMENT_CHARACTER] + decode_utf16_lossy(u.drop_first())
    }
}

/// The UTF-16 units of one character.
pub open spec fn encode_utf16_char(c: char) -> Seq<u16> {
    let v = c as u32;
    if v < 0x10000 {
        seq![v as u16]
    } else {
        seq![(0xD800 + (v - 0x10000) / 0x400) as u16, (0xDC00 + (v - 0x10000) % 0x400) as u16]
    }
}

/// The UTF-16 encoding of a string, as `str::encode_utf16` yields it.
pub open spec fn encode_utf16(s: Seq<char>) -> Seq<u16>
    decreases s.len(),
{
    if s.len() == 0 {
        Seq::empty()
    } else {
        encode_utf16(s.drop_last()) + encode_utf16_char(s.last())
    }
}

/// `k` is where the text in a wide buffer ends: at its first NUL unit, or
/// at 0 when the buffer holds no NUL at all.
pub open spec fn text_end(u: Seq<u16>, k: int) -> bool {
    ||| (0 <= k < u.len() && u[k] == 0 && forall|j: int| 0 <= j < k ==> u[j] != 0)
    ||| (k == 0 && forall|j: int| 0 <= j < u.len() ==> u[j] != 0)
}

/// The character with scalar value `x`, if there is one (`char::from_u32`).
///
/// Trusted: std documents that `from_u32` returns `None` exactly when `x`
/// is a surrogate or above U+10FFFF, and otherwise the character whose
/// value is `x`.
#[verifier::external_body]
fn scalar_char(x: u32) -> (c: Option<char>)
    ensures
        c is Some <==> (x < 0xD800 || (0xE000 <= x && x <= 0x10FFFF)),
        c matches Some(ch) ==> ch == x as char,
{
    char::from_u32(x)
}

/// Decodes `u` as UTF-16, replacing each unpaired surrogate by U+FFFD.
pub fn decode_utf16_lossy_exec(u: &[u16]) -> (s: String)
    ensures
        s@ == decode_utf16_lossy(u@),
{
    let n = u.len();
    let mut out: Vec<char> = Vec::new();
    let mut i: usize = 0;
    assert(u@.skip(0) =~= u@);
    assert(out@ + decode_utf16_lossy(u@) =~= decode_utf16_lossy(u@));
    while i < n
        invariant
            n == u@.len(),
            i <= n,
            decode_utf16_lossy(u@) == out@ + decode_utf16_lossy(u@.skip(i as int)),
        decreases n - i,
    {
        let ghost rest = u@.skip(i as int);
        assert(rest[0] == u@[i as int]);
        let unit = u[i];
        if unit < 0xD800 || unit > 0xDFFF {
            assert(rest.drop_first() =~= u@.skip(i + 1));
            let c = scalar_char(unit as u32);
            match c {
                Some(ch) => out.push(ch),
                None => {},
            }
            i = i + 1;
        } else if unit <= 0xDBFF && i + 1 < n && u[i + 1] >= 0xDC00 && u[i + 1] <= 0xDFFF {
            assert(rest[1] == u@[i + 1]);
            assert(rest.skip(2) =~= u@.skip(i + 2));
            let hi = unit as u32;
            let lo = u[i + 1] as u32;
            let value = 0x10000 + (hi - 0xD800) * 0x400 + (lo - 0xDC00);
            let c = scalar_char(value);
            match c {
                Some(ch) => out.push(ch),
                None => {},
            }
            i = i + 2;
        } else {
            assert(rest.drop_first() =~= u@.skip(i + 1));
            out.push(REPLACEMENT_CHARACTER);
            i = i + 1;
        }
    }
    assert(u@.skip(n as int) =~= Seq::<u16>::empty());
    assert(out@ + Seq::<char>::empty() =~= out@);
    string_of(out.as_slice())
}

/// Where the text in `buffer` ends (see [`text_end`]).
pub fn text_length(buffer: &[u16]) -> (k: usize)
    ensures
        text_end(buffer@, k as int),
{
    let mut i: usize = 0;
    while i < buffer.len()
        invariant
            i <= buffer.len(),
            forall|j: int| 0 <= j < i ==> buffer@[j] != 0,
        decreases buffer.len() - i,
    {
        if buffer[i] == 0 {
            return i;
        }
        i = i + 1;
    }
    0
}

/// Decodes the NUL-terminated text at the start of `buffer` (the whole of
/// it is ignored when it holds no NUL), replacing ill-formed sequences.
pub fn decode_u16(buffer: &[u16]) -> (s: String)
    ensures
        exists|k: int| text_end(buffer@, k) && s@ == decode_utf16_lossy(buffer@.take(k)),
{
    let k = text_length(buffer);
    let text = slice_prefix(buffer, k);
    decode_utf16_lossy_exec(text.as_slice())
}

fn slice_prefix(u: &[u16], k: usize) -> (v: Vec<u16>)
    requires
        k <= u@.len(),
    ensures
        v@ == u@.take(k as int),
{
    let mut v: Vec<u16> = Vec::new();
    let mut i: usize = 0;
    while i < k
        invariant
            i <= k,
            k <= u@.len(),
            v@ == u@.take(i as int),
        decreases k - i,
    {
        v.push(u[i]);
        assert(u@.take(i as int).push(u@[i as int]) =~= u@.take(i + 1));
        i = i + 1;
    }
    v
}

/// The UTF-16 units of `c`, appended to `out`.
fn push_utf16_char(out: &mut Vec<u16>, c: char)
    ensures
        final(out)@ == old(out)@ + encode_utf16_char(c),
{
    let v = c as u32;
    if v < 0x10000 {
        out.push(v as u16);
    } else {
        let w = v - 0x10000;
        assert(w < 0x100000);
        out.push((0xD800 + w / 0x400) as u16);
        out.push((0xDC00 + w % 0x400) as u16);
    }
}

/// Encodes `s` as UTF-16 followed by a NUL unit, as the wide Windows API
/// expects its strings.
pub fn to_wide_nul(s: &str) -> (v: Vec<u16>)
    ensures
        v@ == encode_utf16(s@).push(0),
{
    let chars = crate::text::chars_of(s);
    let mut out: Vec<u16> = Vec::new();
    let mut i: usize = 0;
    while i < chars.len()
        invariant
            i <= chars@.len(),
            chars@ == s@,
            out@ == encode_utf16(chars@.take(i as int)),
        decreases chars.len() - i,
    {
        assert(chars@.take(i + 1).drop_last() =~= chars@.take(i as int));
        push_utf16_char(&mut out, chars[i]);
        i = i + 1;
    }
    assert(chars@.take(chars.len() as int) =~= chars@);
    out.push(0);
    out
}


proof fn lemma_encode_front(s: Seq<char>)
    requires
        s.len() > 0,
    ensures
        encode_utf16(s) == encode_utf16_char(s[0]) + encode_utf16(s.drop_first()),
    decreases s.len(),
{
    if s.len() > 1 {
        lemma_encode_front(s.drop_last());
        assert(s.drop_last().drop_first() =~= s.drop_first().drop_last());
        assert(s.drop_last()[0] == s[0]);
        assert(s.drop_first().last() == s.last());
        assert(encode_utf16(s.drop_first()) == encode_utf16(s.drop_first().drop_last()) + encode_utf16_char(s.last()));
        assert(encode_utf16_char(s[0]) + encode_utf16(s.drop_first())
            =~= encode_utf16_char(s[0]) + encode_utf16(s.drop_last().drop_first()) + encode_utf16_char(s.last()));
    } else {
        assert(s.drop_last() =~= Seq::<char>::empty());
        assert(s.drop_first() =~= Seq::<char>::empty());
        assert(encode_utf16_char(s[0]) + Seq::<u16>::empty() =~= encode_utf16_char(s[0]));
    }
}

proof fn lemma_split_scalar(v: u32)
    requires
        0x10000 <= v <= 0x10FFFF,
    ensures
        0xD800 <= 0xD800 + (v - 0x10000) / 0x400 <= 0xDBFF,
        0xDC00 <= 0xDC00 + (v - 0x10000) % 0x400 <= 0xDFFF,
        0x10000 + ((v - 0x10000) / 0x400) * 0x400 + (v - 0x10000) % 0x400 == v,
{
    let w: int = v - 0x10000;
    assert(0 <= w < 0x100000);
    assert(w == (w / 0x400) * 0x400 + w % 0x400) by (nonlinear_arith);
    assert(0 <= w % 0x400 < 0x400) by (nonlinear_arith);
    assert(0 <= w / 0x400 < 0x400) by (nonlinear_arith)
        requires
            0 <= w < 0x100000,
    ;
}

proof fn lemma_decode_char_prefix(c: char, rest: Seq<u16>)
    ensures
        decode_utf16_lossy(encode_utf16_char(c) + rest) == seq![c] + decode_utf16_lossy(rest),
{
    let v = c as u32;
    let e = encode_utf16_char(c) + rest;
    if v < 0x10000 {
        assert(e[0] == v as u16);
        assert(!is_surrogate(e[0]));
        assert(e.drop_first() =~= rest);
        assert(e[0] as u32 as char == c);
    } else {
        lemma_split_scalar(v);
        let hi = (0xD800 + (v - 0x10000) / 0x400) as u16;
        let lo = (0xDC00 + (v - 0x10000) % 0x400) as u16;
        assert(e[0] == hi);
        assert(e[1] == lo);
        assert(e.skip(2) =~= rest);
        assert(pair_value(hi, lo) == v);
        assert(pair_value(hi, lo) as char == c);
    }
}

/// Decoding the UTF-16 encoding of a string gives the string back.
pub proof fn lemma_decode_encode(s: Seq<char>)
    ensures
        decode_utf16_lossy(encode_utf16(s)) == s,
    decreases s.len(),
{
    if s.len() > 0 {
        lemma_encode_front(s);
        lemma_decode_char_prefix(s[0], encode_utf16(s.drop_first()));
        lemma_decode_encode(s.drop_first());
        assert(seq![s[0]] + s.drop_first() =~= s);
    }
}

proof fn lemma_char_units_nonzero(c: char)
    requires
        c != '\0',
    ensures
        forall|j: int| 0 <= j < encode_utf16_char(c).len() ==> encode_utf16_char(c)[j] != 0,
{
    let v = c as u32;
    assert(v != 0);
    if v >= 0x10000 {
        lemma_split_scalar(v);
    }
}

/// The UTF-16 encoding of a string without NUL characters holds no NUL unit.
pub proof fn lemma_encoding_has_no_nul(s: Seq<char>)
    requires
        forall|i: int| 0 <= i < s.len() ==> s[i] != '\0',
    ensures
        forall|j: int| 0 <= j < encode_utf16(s).len() ==> encode_utf16(s)[j] != 0,
    decreases s.len(),
{
    if s.len() > 0 {
        let init = s.drop_last();
        lemma_encoding_has_no_nul(init);
        let c = s.last();
        assert(c != '\0');
        lemma_char_units_nonzero(c);
        let e = encode_utf16(s);
        assert forall|j: int| 0 <= j < e.len() implies e[j] != 0 by {
            if j >= encode_utf16(init).len() {
                assert(e[j] == encode_utf16_char(c)[j - encode_utf16(init).len()]);
            } else {
                assert(e[j] == encode_utf16(init)[j]);
            }
        }
    }
}

/// What [`to_wide_nul`] makes of a string without NUL characters,
/// [`decode_u16`] reads back as the same string.
pub proof fn lemma_wide_round_trip(s: Seq<char>)
    requires
        forall|i: int| 0 <= i < s.len() ==> s[i] != '\0',
    ensures
        forall|k: int| #[trigger] text_end(encode_utf16(s).push(0), k)
            ==> decode_utf16_lossy(encode_utf16(s).push(0).take(k)) == s,
{
    lemma_encoding_has_no_nul(s);
    lemma_decode_encode(s);
    let e = encode_utf16(s);
    assert forall|k: int| #[trigger] text_end(e.push(0), k) implies decode_utf16_lossy(e.push(0).take(k)) == s by {
        assert(e.push(0)[e.len() as int] == 0);
        if k != e.len() {
            if k < e.len() {
                assert(e.push(0)[k] == e[k]);
            }
        }
        assert(e.push(0).take(e.len() as int) =~= e);
    }
}

} // verus!
